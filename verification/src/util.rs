//! Strings as the system passes them: UTF-16 units with a terminating zero.

use vstd::prelude::*;
use vstd::string::StringExecFns;
use vstd::utf8::{decode_utf8, encode_utf8, encode_utf8_decode_utf8};

verus! {

/// Whether two strings hold the same characters.
pub fn str_eq(a: &str, b: &str) -> (equal: bool)
    ensures
        equal == (a@ == b@),
{
    let left = a.as_bytes();
    let right = b.as_bytes();
    proof {
        encode_utf8_decode_utf8(a@);
        encode_utf8_decode_utf8(b@);
    }
    if left.len() != right.len() {
        return false;
    }
    let mut at: usize = 0;
    while at < left.len()
        invariant
            at <= left@.len(),
            left@.len() == right@.len(),
            forall|i: int| 0 <= i < at ==> left@[i] == right@[i],
            left@ == encode_utf8(a@),
            right@ == encode_utf8(b@),
        decreases left@.len() - at,
    {
        if left[at] != right[at] {
            return false;
        }
        at = at + 1;
    }
    assert(left@ =~= right@);
    assert(a@ == decode_utf8(encode_utf8(a@)));
    true
}

/// A string without its trailing whitespace, as `str::trim_end` gives it.
pub uninterp spec fn trimmed_end(text: Seq<char>) -> Seq<char>;

/// Calls `str::trim_end`, which cuts the white space off the end of a string: what
/// is left is the start of the string, and is named `trimmed_end`.
#[verifier::external_body]
pub(crate) fn trim_end(text: &str) -> (trimmed: &str)
    ensures
        trimmed@ == trimmed_end(text@),
        trimmed@.len() <= text@.len(),
        trimmed@ == text@.subrange(0, trimmed@.len() as int),
{
    text.trim_end()
}

/// The character of a decimal digit.
pub open spec fn digit(value: int) -> char {
    if value == 0 {
        '0'
    } else if value == 1 {
        '1'
    } else if value == 2 {
        '2'
    } else if value == 3 {
        '3'
    } else if value == 4 {
        '4'
    } else if value == 5 {
        '5'
    } else if value == 6 {
        '6'
    } else if value == 7 {
        '7'
    } else if value == 8 {
        '8'
    } else {
        '9'
    }
}

/// A number in decimal, without leading zeros.
pub open spec fn decimal(value: nat) -> Seq<char>
    decreases value,
{
    if value < 10 {
        seq![digit(value as int)]
    } else {
        decimal(value / 10).push(digit((value % 10) as int))
    }
}

/// The one-character string of a decimal digit.
pub fn digit_str(value: u32) -> (text: &'static str)
    requires
        value < 10,
    ensures
        text@ == seq![digit(value as int)],
{
    proof {
        reveal_strlit("0");
        reveal_strlit("1");
        reveal_strlit("2");
        reveal_strlit("3");
        reveal_strlit("4");
        reveal_strlit("5");
        reveal_strlit("6");
        reveal_strlit("7");
        reveal_strlit("8");
        reveal_strlit("9");
    }
    let text = if value == 0 {
        "0"
    } else if value == 1 {
        "1"
    } else if value == 2 {
        "2"
    } else if value == 3 {
        "3"
    } else if value == 4 {
        "4"
    } else if value == 5 {
        "5"
    } else if value == 6 {
        "6"
    } else if value == 7 {
        "7"
    } else if value == 8 {
        "8"
    } else {
        "9"
    };
    assert(text@ =~= seq![digit(value as int)]);
    text
}

/// Appends a number in decimal.
pub fn push_decimal(text: &mut String, value: u32)
    ensures
        final(text)@ == old(text)@ + decimal(value as nat),
    decreases value,
{
    if value >= 10 {
        push_decimal(text, value / 10);
    }
    text.append(digit_str(value % 10));
    assert(text@ =~= old(text)@ + decimal(value as nat));
}

/// A 32-bit word read as a signed number in two's complement.
pub open spec fn as_signed(word: u32) -> i32 {
    if word < 0x8000_0000 {
        word as i32
    } else {
        (word - 0x1_0000_0000) as i32
    }
}

/// The 32-bit word that stands for a signed number in two's complement.
pub open spec fn as_unsigned(value: i32) -> u32 {
    if value >= 0 {
        value as u32
    } else {
        (value + 0x1_0000_0000) as u32
    }
}

/// Reads a 32-bit word as a signed number.
pub fn to_signed(word: u32) -> (value: i32)
    ensures
        value == as_signed(word),
{
    if word < 0x8000_0000 {
        word as i32
    } else {
        let low: u32 = word - 0x8000_0000;
        (low as i32) - 0x7FFF_FFFF - 1
    }
}

/// The 32-bit word that stands for a signed number.
pub fn to_unsigned(value: i32) -> (word: u32)
    ensures
        word == as_unsigned(value),
{
    if value >= 0 {
        value as u32
    } else {
        let up: u32 = (value + 0x7FFF_FFFF + 1) as u32;
        up + 0x8000_0000
    }
}

/// The two readings of a word undo each other.
pub proof fn lemma_signed_round_trip(word: u32, value: i32)
    ensures
        as_unsigned(as_signed(word)) == word,
        as_signed(as_unsigned(value)) == value,
{
}

/// The number of units before the first zero, or the whole length where there is none.
pub open spec fn terminated_len(units: Seq<u16>) -> int
    decreases units.len(),
{
    if units.len() == 0 || units[0] == 0 {
        0
    } else {
        1 + terminated_len(units.drop_first())
    }
}

/// The length of a zero-terminated string: the index of its first zero unit, or the
/// length of the buffer where no unit is zero.
pub fn c_lpwstr_len(units: &[u16]) -> (len: usize)
    ensures
        len == terminated_len(units@),
        len <= units@.len(),
        len < units@.len() ==> units@[len as int] == 0,
        forall|i: int| 0 <= i < len ==> units@[i] != 0,
{
    let mut len: usize = 0;
    proof {
        assert(units@.subrange(0, units@.len() as int) =~= units@);
    }
    while len < units.len() && units[len] != 0
        invariant
            len <= units@.len(),
            forall|i: int| 0 <= i < len ==> units@[i] != 0,
            terminated_len(units@) == len + terminated_len(units@.subrange(len as int, units@.len() as int)),
        decreases units@.len() - len,
    {
        proof {
            let rest = units@.subrange(len as int, units@.len() as int);
            assert(rest.drop_first() =~= units@.subrange(len + 1, units@.len() as int));
        }
        len = len + 1;
    }
    len
}

/// The units of the string that the buffer holds up to its first zero.
pub fn c_lpwstr_to_osstring(units: &[u16]) -> (text: Vec<u16>)
    ensures
        text@ == units@.subrange(0, terminated_len(units@)),
{
    let len = c_lpwstr_len(units);
    lpwstr_to_osstring(units, len)
}

/// The first `size` units of the buffer.
pub fn lpwstr_to_osstring(units: &[u16], size: usize) -> (text: Vec<u16>)
    requires
        size <= units@.len(),
    ensures
        text@ == units@.subrange(0, size as int),
{
    let mut text: Vec<u16> = Vec::new();
    let mut at: usize = 0;
    while at < size
        invariant
            at <= size <= units@.len(),
            text@ == units@.subrange(0, at as int),
        decreases size - at,
    {
        text.push(units[at]);
        at = at + 1;
        assert(text@ =~= units@.subrange(0, at as int));
    }
    text
}

/// The text that UTF-16 units stand for, as `String::from_utf16` reads them: `None`
/// where the units are not well-formed UTF-16.
pub uninterp spec fn utf16_text(units: Seq<u16>) -> Option<Seq<char>>;

/// Calls `String::from_utf16`, which decodes the units or refuses them as a whole.
#[verifier::external_body]
fn from_utf16(units: &[u16]) -> (text: Option<String>)
    ensures
        match text {
            Some(decoded) => utf16_text(units@) == Some(decoded@),
            None => utf16_text(units@) is None,
        },
{
    String::from_utf16(units).ok()
}

/// The text of the first `size` units of the buffer, where they are well-formed.
pub fn lpwstr_to_string(units: &[u16], size: usize) -> (text: Option<String>)
    requires
        size <= units@.len(),
    ensures
        match text {
            Some(decoded) => utf16_text(units@.subrange(0, size as int)) == Some(decoded@),
            None => utf16_text(units@.subrange(0, size as int)) is None,
        },
{
    let taken = lpwstr_to_osstring(units, size);
    from_utf16(taken.as_slice())
}

/// The text that the buffer holds up to its first zero, where it is well-formed.
pub fn c_lpwstr_to_string(units: &[u16]) -> (text: Option<String>)
    ensures
        match text {
            Some(decoded) => utf16_text(units@.subrange(0, terminated_len(units@))) == Some(
                decoded@,
            ),
            None => utf16_text(units@.subrange(0, terminated_len(units@))) is None,
        },
{
    let size = c_lpwstr_len(units);
    lpwstr_to_string(units, size)
}

/// The units of a string with the terminating zero that the system expects.
pub fn osstring_to_wstr(units: &[u16]) -> (wide: Vec<u16>)
    ensures
        wide@ == units@.push(0),
{
    let mut wide = lpwstr_to_osstring(units, units.len());
    assert(units@.subrange(0, units@.len() as int) =~= units@);
    wide.push(0);
    wide
}

/// A string that is handed to the system with a terminating zero comes back as it
/// was, where it holds no zero itself.
pub proof fn lemma_terminated_round_trip(units: Seq<u16>)
    requires
        forall|i: int| 0 <= i < units.len() ==> units[i] != 0,
    ensures
        terminated_len(units.push(0)) == units.len(),
        units.push(0).subrange(0, terminated_len(units.push(0))) == units,
    decreases units.len(),
{
    if units.len() > 0 {
        lemma_terminated_round_trip(units.drop_first());
        assert(units.push(0).drop_first() =~= units.drop_first().push(0));
    }
    assert(units.push(0).subrange(0, units.len() as int) =~= units);
}

} // verus!
