use wlw_server::util::{
    c_lpwstr_len, c_lpwstr_to_string, c_lpwstr_to_osstring, digit_str, lpwstr_to_string,
    lpwstr_to_osstring, osstring_to_wstr, push_decimal, str_eq, to_signed, to_unsigned,
};

fn decimal(value: u32) -> String {
    let mut text = String::new();
    push_decimal(&mut text, value);
    text
}

#[test]
fn strings_compare_by_their_characters() {
    assert!(str_eq("", ""));
    assert!(str_eq("border", "border"));
    assert!(!str_eq("border", "borders"));
    assert!(!str_eq("border", "bordes"));
    assert!(!str_eq("a", ""));
    assert!(str_eq("fenêtre ✓", "fenêtre ✓"));
    assert!(!str_eq("fenêtre", "fenetre"));
}

#[test]
fn numbers_in_decimal() {
    assert_eq!(decimal(0), "0");
    assert_eq!(decimal(7), "7");
    assert_eq!(decimal(10), "10");
    assert_eq!(decimal(109), "109");
    assert_eq!(decimal(1_000_000), "1000000");
    assert_eq!(decimal(u32::MAX), "4294967295");
    let mut text = String::from("pid ");
    push_decimal(&mut text, 4242);
    assert_eq!(text, "pid 4242");
    for value in 0..10 {
        assert_eq!(digit_str(value), value.to_string());
    }
}

#[test]
fn signed_and_unsigned_words() {
    assert_eq!(to_signed(0), 0);
    assert_eq!(to_signed(0x7FFF_FFFF), i32::MAX);
    assert_eq!(to_signed(0x8000_0000), i32::MIN);
    assert_eq!(to_signed(0xFFFF_FFFF), -1);
    assert_eq!(to_unsigned(0), 0);
    assert_eq!(to_unsigned(-1), 0xFFFF_FFFF);
    assert_eq!(to_unsigned(i32::MIN), 0x8000_0000);
    assert_eq!(to_unsigned(i32::MAX), 0x7FFF_FFFF);
    assert_eq!(to_unsigned(-16), 0xFFFF_FFF0);
}

#[test]
fn length_up_to_the_first_zero() {
    assert_eq!(c_lpwstr_len(&[]), 0);
    assert_eq!(c_lpwstr_len(&[0]), 0);
    assert_eq!(c_lpwstr_len(&[104, 105, 0, 33, 0]), 2);
    assert_eq!(c_lpwstr_len(&[104, 105]), 2);
    assert_eq!(c_lpwstr_to_osstring(&[104, 105, 0, 33, 0]), vec![104, 105]);
    assert_eq!(lpwstr_to_osstring(&[104, 105, 0, 33], 4), vec![104, 105, 0, 33]);
    assert_eq!(lpwstr_to_osstring(&[104, 105, 0, 33], 0), Vec::<u16>::new());
}

#[test]
fn wide_strings_end_in_zero() {
    assert_eq!(osstring_to_wstr(&[]), vec![0]);
    assert_eq!(osstring_to_wstr(&[119, 108, 119]), vec![119, 108, 119, 0]);
    let name: Vec<u16> = "wlw.lua".encode_utf16().collect();
    let wide = osstring_to_wstr(&name);
    assert_eq!(c_lpwstr_to_osstring(&wide), name);
}

#[test]
fn utf16_text() {
    let units: Vec<u16> = "Datei ✓ 𝄞".encode_utf16().chain(Some(0)).chain("x".encode_utf16()).collect();
    assert_eq!(c_lpwstr_to_string(&units), Some("Datei ✓ 𝄞".to_string()));
    assert_eq!(lpwstr_to_string(&units, 5), Some("Datei".to_string()));
    assert_eq!(lpwstr_to_string(&units, 0), Some(String::new()));
    // A lone surrogate is no text.
    assert_eq!(lpwstr_to_string(&[0x0041, 0xD834, 0x0042], 3), None);
    assert_eq!(lpwstr_to_string(&[0x0041, 0xD834, 0x0042], 1), Some("A".to_string()));
    assert_eq!(c_lpwstr_to_string(&[0xDD1E, 0]), None);
}
