use wlw_server::server::hookevent::{
    read_i32, read_u32, write_i32, HookEvent, HookEventC, HookResponse, PortableRECT,
    PosAndSizeData, HOOK_EVENT_SIZE, HOOK_RESPONSE_SIZE,
};
use wlw_server::windows::def::RECT;

fn record(kind: u8, fields: &[u8]) -> Vec<u8> {
    let mut bytes = vec![kind];
    bytes.extend_from_slice(fields);
    bytes.resize(21, 0xAA);
    bytes
}

#[test]
fn record_sizes() {
    assert_eq!(HOOK_EVENT_SIZE, 21);
    assert_eq!(HOOK_RESPONSE_SIZE, 16);
}

#[test]
fn reads_little_endian_numbers() {
    let bytes = [0x78, 0x56, 0x34, 0x12, 0xFF, 0xFF, 0xFF, 0xFF, 0x00, 0x00, 0x00, 0x80];
    assert_eq!(read_u32(&bytes, 0), 0x1234_5678);
    assert_eq!(read_i32(&bytes, 0), 0x1234_5678);
    assert_eq!(read_u32(&bytes, 4), 0xFFFF_FFFF);
    assert_eq!(read_i32(&bytes, 4), -1);
    assert_eq!(read_i32(&bytes, 8), i32::MIN);
    assert_eq!(read_u32(&bytes, 1), 0xFF12_3456);
}

#[test]
fn writes_little_endian_numbers() {
    let mut bytes = vec![9];
    write_i32(&mut bytes, 0x0102_0304);
    write_i32(&mut bytes, -2);
    write_i32(&mut bytes, i32::MIN);
    write_i32(&mut bytes, i32::MAX);
    assert_eq!(
        bytes,
        vec![9, 4, 3, 2, 1, 0xFE, 0xFF, 0xFF, 0xFF, 0, 0, 0, 0x80, 0xFF, 0xFF, 0xFF, 0x7F]
    );
}

#[test]
fn decodes_show_window() {
    let hec = HookEventC::new(record(0, &[0x10, 0x20, 0x30, 0x40, 1])).unwrap();
    assert_eq!(hec.kind(), 0);
    assert_eq!(
        HookEvent::from(hec),
        HookEvent::CwpShowWindow { hwnd: 0x4030_2010, shown: true }
    );
    let hidden = HookEventC::new(record(0, &[1, 0, 0, 0, 0])).unwrap();
    assert_eq!(hidden.event(), HookEvent::CwpShowWindow { hwnd: 1, shown: false });
}

#[test]
fn decodes_activate() {
    let hec = HookEventC::new(record(1, &[2, 0, 0, 0, 7])).unwrap();
    assert_eq!(hec.event(), HookEvent::CbtActivate { hwnd: 2, caused_by_mouse: true });
}

#[test]
fn decodes_create_window_with_rect() {
    let fields = [
        0xEF, 0xBE, 0xAD, 0xDE, // hwnd
        10, 0, 0, 0, // left
        0xF6, 0xFF, 0xFF, 0xFF, // top = -10
        0x20, 0x03, 0, 0, // right = 800
        0x58, 0x02, 0, 0, // bottom = 600
    ];
    let hec = HookEventC::new(record(2, &fields)).unwrap();
    assert_eq!(
        hec.event(),
        HookEvent::CbtCreateWindow {
            hwnd: 0xDEAD_BEEF,
            rect: RECT { left: 10, top: -10, right: 800, bottom: 600 },
        }
    );
}

#[test]
fn decodes_destroy_min_max_and_move_size() {
    let destroy = HookEventC::new(record(3, &[5, 0, 0, 0])).unwrap();
    assert_eq!(destroy.event(), HookEvent::CbtDestroyWindow { hwnd: 5 });
    let min_max = HookEventC::new(record(4, &[6, 0, 0, 0, 3, 0, 0, 0])).unwrap();
    assert_eq!(min_max.event(), HookEvent::CbtMinMax { hwnd: 6, show_command: 3 });
    let negative = HookEventC::new(record(4, &[6, 0, 0, 0, 0xFF, 0xFF, 0xFF, 0xFF])).unwrap();
    assert_eq!(negative.event(), HookEvent::CbtMinMax { hwnd: 6, show_command: -1 });
    let fields = [7, 0, 0, 0, 1, 0, 0, 0, 2, 0, 0, 0, 3, 0, 0, 0, 4, 0, 0, 0];
    let move_size = HookEventC::new(record(5, &fields)).unwrap();
    assert_eq!(
        move_size.event(),
        HookEvent::CbtMoveSize { hwnd: 7, rect: RECT { left: 1, top: 2, right: 3, bottom: 4 } }
    );
}

#[test]
fn refuses_what_is_no_record() {
    assert!(HookEventC::new(record(6, &[])).is_none());
    assert!(HookEventC::new(record(255, &[])).is_none());
    assert!(HookEventC::new(vec![0; 20]).is_none());
    assert!(HookEventC::new(vec![0; 22]).is_none());
    assert!(HookEventC::new(Vec::new()).is_none());
    assert!(HookEventC::new(vec![5; 21]).is_some());
}

#[test]
fn rect_conversions_keep_every_edge() {
    let native = RECT { left: -1, top: 2, right: 30, bottom: 400 };
    let portable = PortableRECT::from(native);
    assert_eq!(portable, PortableRECT { left: -1, top: 2, right: 30, bottom: 400 });
    assert_eq!(RECT::from(portable), native);
}

#[test]
fn response_record_is_the_rect_in_order() {
    let response = HookResponse {
        pos_and_size_data: PosAndSizeData {
            rect: PortableRECT { left: 1, top: -1, right: 0x0102, bottom: i32::MAX },
        },
    };
    let bytes = response.encode();
    assert_eq!(
        bytes,
        vec![1, 0, 0, 0, 0xFF, 0xFF, 0xFF, 0xFF, 2, 1, 0, 0, 0xFF, 0xFF, 0xFF, 0x7F]
    );
    assert_eq!(HookResponse::decode(&bytes), Some(response));
    assert_eq!(HookResponse::decode(&bytes[..15]), None);
    assert_eq!(HookResponse::decode(&[0; 17]), None);
}
