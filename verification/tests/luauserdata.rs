use wlw_server::server::luauserdata::{
    show_command_to_str, Error, Rect, RectField, StyleChange, WindowHandle, WindowPos,
    WindowProperty, WindowStyle,
};
use wlw_server::windows::def::RECT;
use wlw_server::windows::wrappers;

fn missing(result: Result<impl std::fmt::Debug, Error>) -> String {
    match result {
        Err(Error::KeyDoesNotExist(key)) => key,
        other => panic!("expected a missing key, got {:?}", other),
    }
}

#[test]
fn show_commands_have_their_names() {
    let names = [
        "hide", "shownormal", "showminimized", "maximize", "shownoactivate", "show", "minimize",
        "showminnoactive", "showna", "restore", "showdefault", "forceminimize",
    ];
    for (cmd, name) in names.iter().enumerate() {
        assert_eq!(show_command_to_str(cmd as i32), Some(*name));
    }
    assert_eq!(show_command_to_str(12), None);
    assert_eq!(show_command_to_str(-1), None);
    assert_eq!(show_command_to_str(i32::MAX), None);
}

#[test]
fn style_flags_by_name() {
    let flags = [
        ("border", 0x0080_0000u32), ("caption", 0x00C0_0000), ("child", 0x4000_0000),
        ("clipchildren", 0x0200_0000), ("clipsiblings", 0x0400_0000), ("disabled", 0x0800_0000),
        ("dlgframe", 0x0040_0000), ("group", 0x0002_0000), ("hscroll", 0x0010_0000),
        ("iconic", 0x2000_0000), ("maximize", 0x0100_0000), ("maximizebox", 0x0001_0000),
        ("minimize", 0x2000_0000), ("minimizebox", 0x0002_0000), ("popup", 0x8000_0000),
        ("sysmenu", 0x0008_0000), ("tabstop", 0x0001_0000), ("thickframe", 0x0004_0000),
        ("visible", 0x1000_0000), ("vscroll", 0x0020_0000),
    ];
    for (name, flag) in flags {
        assert_eq!(WindowStyle::str_to_style_flag(name), Some(flag), "{}", name);
        assert_eq!(WindowStyle::str_to_ex_style_flag(name), None, "{}", name);
    }
    assert_eq!(WindowStyle::str_to_style_flag("Border"), None);
    assert_eq!(WindowStyle::str_to_style_flag(""), None);
    assert_eq!(WindowStyle::str_to_style_flag("borders"), None);
}

#[test]
fn ex_style_flags_by_name() {
    let flags = [
        ("acceptfiles", 0x0000_0010u32), ("appwindow", 0x0004_0000), ("clientedge", 0x0000_0200),
        ("composited", 0x0200_0000), ("contexthelp", 0x0000_0400), ("controlparent", 0x0001_0000),
        ("dlgmodalframe", 0x0000_0001), ("layered", 0x0008_0000), ("layoutrtl", 0x0040_0000),
        ("leftscrollbar", 0x0000_4000), ("mdichild", 0x0000_0040), ("noactivate", 0x0800_0000),
        ("noinheritlayout", 0x0010_0000), ("noparentnotify", 0x0000_0004),
        ("noredirectionbitmap", 0x0020_0000), ("right", 0x0000_1000), ("rtlreading", 0x0000_2000),
        ("staticedge", 0x0002_0000), ("toolwindow", 0x0000_0080), ("topmost", 0x0000_0008),
        ("transparent", 0x0000_0020), ("windowedge", 0x0000_0100),
    ];
    for (name, flag) in flags {
        assert_eq!(WindowStyle::str_to_ex_style_flag(name), Some(flag), "{}", name);
        assert_eq!(WindowStyle::str_to_style_flag(name), None, "{}", name);
    }
    assert_eq!(WindowStyle::str_to_ex_style_flag("top"), None);
}

#[test]
fn window_style_from_signed_words() {
    let styles = WindowStyle::new(7, -0x8000_0000, -1);
    assert_eq!(styles, WindowStyle { hwnd: 7, style: 0x8000_0000, ex_style: 0xFFFF_FFFF });
    assert_eq!(WindowStyle::new(7, 0x1000_0000, 8).style, 0x1000_0000);
}

#[test]
fn gets_style_flags() {
    let styles = WindowStyle { hwnd: 1, style: 0x1080_0000, ex_style: 0x0000_0008 };
    assert_eq!(styles.get_style_flag("visible".to_string()).unwrap(), true);
    assert_eq!(styles.get_style_flag("border".to_string()).unwrap(), true);
    // A caption is border and dialog frame: one of its bits is enough.
    assert_eq!(styles.get_style_flag("caption".to_string()).unwrap(), true);
    assert_eq!(styles.get_style_flag("popup".to_string()).unwrap(), false);
    assert_eq!(styles.get_style_flag("topmost".to_string()).unwrap(), true);
    assert_eq!(styles.get_style_flag("layered".to_string()).unwrap(), false);
    assert_eq!(missing(styles.get_style_flag("colour".to_string())), "colour");
}

#[test]
fn sets_style_flags() {
    let mut styles = WindowStyle { hwnd: 9, style: 0x1000_0000, ex_style: 0x0000_0008 };
    let change = styles.set_style_flag("popup".to_string(), true).unwrap();
    assert_eq!(styles.style, 0x9000_0000);
    assert_eq!(change, StyleChange { hwnd: 9, index: -16, value: -0x7000_0000 });
    let change = styles.set_style_flag("visible".to_string(), false).unwrap();
    assert_eq!(styles.style, 0x8000_0000);
    assert_eq!(change, StyleChange { hwnd: 9, index: -16, value: i32::MIN });
    assert_eq!(styles.ex_style, 0x0000_0008);
    let change = styles.set_style_flag("layered".to_string(), true).unwrap();
    assert_eq!(styles.ex_style, 0x0008_0008);
    assert_eq!(change, StyleChange { hwnd: 9, index: -16, value: 0x0008_0008 });
    let change = styles.set_style_flag("topmost".to_string(), false).unwrap();
    assert_eq!(styles.ex_style, 0x0008_0000);
    assert_eq!(change.value, 0x0008_0000);
    assert_eq!(styles.style, 0x8000_0000);
    assert_eq!(missing(styles.set_style_flag("nothing".to_string(), true)), "nothing");
    assert_eq!(styles, WindowStyle { hwnd: 9, style: 0x8000_0000, ex_style: 0x0008_0000 });
    assert_eq!(styles.get_style_flag("layered".to_string()).unwrap(), true);
    assert_eq!(styles.get_style_flag("visible".to_string()).unwrap(), false);
}

#[test]
fn rect_fields_by_name() {
    assert_eq!(Rect::field("left"), Some(RectField::Left));
    assert_eq!(Rect::field("x"), Some(RectField::Left));
    assert_eq!(Rect::field("top"), Some(RectField::Top));
    assert_eq!(Rect::field("y"), Some(RectField::Top));
    assert_eq!(Rect::field("right"), Some(RectField::Right));
    assert_eq!(Rect::field("bottom"), Some(RectField::Bottom));
    assert_eq!(Rect::field("width"), Some(RectField::Width));
    assert_eq!(Rect::field("height"), Some(RectField::Height));
    assert_eq!(Rect::field("depth"), None);
}

#[test]
fn rect_get() {
    let rect = Rect::from(RECT { left: 10, top: 20, right: 110, bottom: 70 });
    let get = |key: &str| rect.get(key.to_string()).unwrap();
    assert_eq!(get("left"), 10);
    assert_eq!(get("top"), 20);
    assert_eq!(get("right"), 110);
    assert_eq!(get("bottom"), 70);
    assert_eq!(get("x"), 10);
    assert_eq!(get("y"), 20);
    assert_eq!(get("width"), 100);
    assert_eq!(get("height"), 50);
    assert_eq!(missing(rect.get("area".to_string())), "area");
    let inverted = Rect { left: 5, top: 5, right: 0, bottom: -5 };
    assert_eq!(inverted.get("width".to_string()).unwrap(), -5);
    assert_eq!(inverted.get("height".to_string()).unwrap(), -10);
}

#[test]
fn rect_set() {
    let mut rect = Rect { left: 10, top: 20, right: 110, bottom: 70 };
    assert_eq!(rect.set("width".to_string(), 30).unwrap(), 30);
    assert_eq!(rect, Rect { left: 10, top: 20, right: 40, bottom: 70 });
    assert_eq!(rect.set("height".to_string(), 5).unwrap(), 5);
    assert_eq!(rect, Rect { left: 10, top: 20, right: 40, bottom: 25 });
    assert_eq!(rect.set("x".to_string(), 0).unwrap(), 0);
    assert_eq!(rect, Rect { left: 0, top: 20, right: 40, bottom: 25 });
    assert_eq!(rect.get("width".to_string()).unwrap(), 40);
    assert_eq!(rect.set("y".to_string(), -1).unwrap(), -1);
    assert_eq!(rect.set("left".to_string(), 1).unwrap(), 1);
    assert_eq!(rect.set("top".to_string(), 2).unwrap(), 2);
    assert_eq!(rect.set("right".to_string(), 3).unwrap(), 3);
    assert_eq!(rect.set("bottom".to_string(), 4).unwrap(), 4);
    assert_eq!(rect, Rect { left: 1, top: 2, right: 3, bottom: 4 });
    assert_eq!(missing(rect.set("depth".to_string(), 9)), "depth");
    assert_eq!(rect, Rect { left: 1, top: 2, right: 3, bottom: 4 });
    assert_eq!(rect.into_rect(), RECT { left: 1, top: 2, right: 3, bottom: 4 });
}

#[test]
fn rect_guards_tell_what_does_not_fit() {
    let wide = Rect { left: i32::MIN, top: 0, right: i32::MAX, bottom: 0 };
    assert!(!wide.admits_get("width"));
    assert!(wide.admits_get("height"));
    assert!(wide.admits_get("left"));
    assert!(wide.admits_get("nothing"));
    let rect = Rect { left: i32::MAX - 1, top: i32::MIN, right: 0, bottom: 0 };
    assert!(rect.admits_set("width", 1));
    assert!(!rect.admits_set("width", 2));
    assert!(!rect.admits_set("height", -1));
    assert!(rect.admits_set("height", 0));
    assert!(rect.admits_set("left", i32::MIN));
}

#[test]
fn window_handle_properties() {
    let handle = WindowHandle::new(0x1234);
    assert_eq!(handle.hwnd, 0x1234);
    assert_eq!(WindowHandle::property("title".to_string()).unwrap(), WindowProperty::Title);
    assert_eq!(WindowHandle::property("style".to_string()).unwrap(), WindowProperty::Style);
    assert_eq!(missing(WindowHandle::property("rect".to_string())), "rect");
    assert_eq!(
        handle.set_window_rect(1, 2, 3, 4),
        WindowPos { hwnd: 0x1234, insert_after: 0, x: 1, y: 2, cx: 3, cy: 4, flags: 0x0010 }
    );
}

#[test]
fn system_errors_reach_scripts() {
    let inner = wrappers::Error { origin: wrappers::ErrorOrigin::SetWindowPos, code: 1400 };
    match Error::from(inner) {
        Error::WindowsError(error) => assert_eq!(error, inner),
        other => panic!("unexpected {:?}", other),
    }
}

#[test]
fn script_errors_in_words() {
    assert_eq!(
        Error::KeyDoesNotExist("colour".to_string()).to_string("ignored"),
        "Key does not exist: colour"
    );
    let inner = wrappers::Error { origin: wrappers::ErrorOrigin::SetWindowPos, code: 1400 };
    assert_eq!(
        Error::from(inner).to_string("SetWindowPos: Invalid window handle. [1400]"),
        "Windows error: SetWindowPos: Invalid window handle. [1400]"
    );
}
