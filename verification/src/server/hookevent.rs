//! Hook events on the wire.
//!
//! A hook process reports each window event as one packed little-endian record of
//! `HOOK_EVENT_SIZE` bytes: a kind byte, then the fields of that kind, then padding
//! up to the longest kind. The answer, where there is one, is a record of
//! `HOOK_RESPONSE_SIZE` bytes: the rectangle that the window is to take.

use vstd::prelude::*;
use vstd::std_specs::convert::FromSpecImpl;
use crate::util::{as_signed, as_unsigned, lemma_signed_round_trip, to_signed, to_unsigned};
use crate::windows::def::{HWND, RECT};

verus! {

pub type PortableBOOL = u8;

pub type PortableDWORD = u32;

pub type PortableHWND = u32;

pub type PortableLONG = i32;

pub type PortableInt = i32;

/// The size of an event record: the kind byte and the longest of the kinds' fields.
pub const HOOK_EVENT_SIZE: usize = 21;

/// The size of a response record: one rectangle.
pub const HOOK_RESPONSE_SIZE: usize = 16;

pub const TYPE_CWP_SHOW_WINDOW: u8 = 0;

pub const TYPE_CBT_ACTIVATE: u8 = 1;

pub const TYPE_CBT_CREATE_WINDOW: u8 = 2;

pub const TYPE_CBT_DESTROY_WINDOW: u8 = 3;

pub const TYPE_CBT_MIN_MAX: u8 = 4;

pub const TYPE_CBT_MOVE_SIZE: u8 = 5;

/// The number that four bytes stand for, least significant byte first.
pub open spec fn le_u32(bytes: Seq<u8>) -> u32
    recommends
        bytes.len() == 4,
{
    (bytes[0] as int + bytes[1] as int * 0x100 + bytes[2] as int * 0x1_0000 + bytes[3] as int
        * 0x100_0000) as u32
}

/// The four bytes that stand for a number, least significant byte first.
pub open spec fn u32_le(word: u32) -> Seq<u8> {
    seq![
        (word % 0x100) as u8,
        (word / 0x100 % 0x100) as u8,
        (word / 0x1_0000 % 0x100) as u8,
        (word / 0x100_0000) as u8,
    ]
}

pub open spec fn le_i32(bytes: Seq<u8>) -> i32
    recommends
        bytes.len() == 4,
{
    as_signed(le_u32(bytes))
}

pub open spec fn i32_le(value: i32) -> Seq<u8> {
    u32_le(as_unsigned(value))
}

/// Reads the 32-bit number at `at`.
pub fn read_u32(bytes: &[u8], at: usize) -> (word: u32)
    requires
        at + 4 <= bytes@.len(),
    ensures
        word == le_u32(bytes@.subrange(at as int, at + 4)),
{
    let b0: u32 = bytes[at] as u32;
    let b1: u32 = bytes[at + 1] as u32;
    let b2: u32 = bytes[at + 2] as u32;
    let b3: u32 = bytes[at + 3] as u32;
    b0 + b1 * 0x100 + b2 * 0x1_0000 + b3 * 0x100_0000
}

/// Reads the signed 32-bit number at `at`.
pub fn read_i32(bytes: &[u8], at: usize) -> (value: i32)
    requires
        at + 4 <= bytes@.len(),
    ensures
        value == le_i32(bytes@.subrange(at as int, at + 4)),
{
    to_signed(read_u32(bytes, at))
}

/// Appends a signed 32-bit number, least significant byte first.
pub fn write_i32(bytes: &mut Vec<u8>, value: i32)
    ensures
        final(bytes)@ == old(bytes)@ + i32_le(value),
{
    let word: u32 = to_unsigned(value);
    bytes.push((word % 0x100) as u8);
    bytes.push((word / 0x100 % 0x100) as u8);
    bytes.push((word / 0x1_0000 % 0x100) as u8);
    bytes.push((word / 0x100_0000) as u8);
    assert(bytes@ =~= old(bytes)@ + i32_le(value));
}

/// Writing a word and reading it back gives the word.
pub proof fn lemma_u32_round_trip(word: u32)
    ensures
        u32_le(word).len() == 4,
        le_u32(u32_le(word)) == word,
{
    let b0 = (word % 0x100) as int;
    let b1 = (word / 0x100 % 0x100) as int;
    let b2 = (word / 0x1_0000 % 0x100) as int;
    let b3 = (word / 0x100_0000) as int;
    assert(word == b0 + (word / 0x100) * 0x100);
    assert(word / 0x100 == b1 + (word / 0x1_0000) * 0x100);
    assert(word / 0x1_0000 == b2 + b3 * 0x100);
    assert(b0 + b1 * 0x100 + b2 * 0x1_0000 + b3 * 0x100_0000 == word);
    assert(u32_le(word)[0] == b0);
    assert(u32_le(word)[1] == b1);
    assert(u32_le(word)[2] == b2);
    assert(u32_le(word)[3] == b3);
}

/// Writing a number and reading it back gives the number.
pub proof fn lemma_i32_round_trip(value: i32)
    ensures
        i32_le(value).len() == 4,
        le_i32(i32_le(value)) == value,
{
    lemma_u32_round_trip(as_unsigned(value));
    lemma_signed_round_trip(0, value);
}

/// A rectangle as it stands in a record: four signed 32-bit numbers.
#[derive(Clone, Copy, Debug, PartialEq, Eq, Structural)]
pub struct PortableRECT {
    pub left: PortableLONG,
    pub top: PortableLONG,
    pub right: PortableLONG,
    pub bottom: PortableLONG,
}

impl From<RECT> for PortableRECT {
    fn from(rect: RECT) -> (portable: PortableRECT) {
        PortableRECT { left: rect.left, top: rect.top, right: rect.right, bottom: rect.bottom }
    }
}

impl FromSpecImpl<RECT> for PortableRECT {
    open spec fn obeys_from_spec() -> bool {
        true
    }

    open spec fn from_spec(rect: RECT) -> PortableRECT {
        PortableRECT { left: rect.left, top: rect.top, right: rect.right, bottom: rect.bottom }
    }
}

impl From<PortableRECT> for RECT {
    fn from(rect: PortableRECT) -> (native: RECT) {
        RECT { left: rect.left, top: rect.top, right: rect.right, bottom: rect.bottom }
    }
}

impl FromSpecImpl<PortableRECT> for RECT {
    open spec fn obeys_from_spec() -> bool {
        true
    }

    open spec fn from_spec(rect: PortableRECT) -> RECT {
        RECT { left: rect.left, top: rect.top, right: rect.right, bottom: rect.bottom }
    }
}

impl PortableRECT {
    /// The rectangle that the sixteen bytes from `at` on stand for.
    pub open spec fn at(bytes: Seq<u8>, at: int) -> PortableRECT {
        PortableRECT {
            left: le_i32(bytes.subrange(at, at + 4)),
            top: le_i32(bytes.subrange(at + 4, at + 8)),
            right: le_i32(bytes.subrange(at + 8, at + 12)),
            bottom: le_i32(bytes.subrange(at + 12, at + 16)),
        }
    }

    /// The sixteen bytes that stand for the rectangle.
    pub open spec fn bytes(self) -> Seq<u8> {
        i32_le(self.left) + i32_le(self.top) + i32_le(self.right) + i32_le(self.bottom)
    }

    /// Reads the rectangle at `at`.
    pub fn read(bytes: &[u8], at: usize) -> (rect: PortableRECT)
        requires
            at + 16 <= bytes@.len(),
        ensures
            rect == PortableRECT::at(bytes@, at as int),
    {
        let len = bytes.len();
        assert(at + 16 <= len);
        PortableRECT {
            left: read_i32(bytes, at),
            top: read_i32(bytes, at + 4),
            right: read_i32(bytes, at + 8),
            bottom: read_i32(bytes, at + 12),
        }
    }
}

/// A window event, decoded.
#[derive(Clone, Copy, Debug, PartialEq, Eq, Structural)]
pub enum HookEvent {
    CwpShowWindow { hwnd: HWND, shown: bool },
    CbtActivate { hwnd: HWND, caused_by_mouse: bool },
    CbtCreateWindow { hwnd: HWND, rect: RECT },
    CbtDestroyWindow { hwnd: HWND },
    CbtMinMax { hwnd: HWND, show_command: i32 },
    CbtMoveSize { hwnd: HWND, rect: RECT },
}

/// Whether the bytes are one event record: of the record's size, with a kind that exists.
pub open spec fn is_event_record(bytes: Seq<u8>) -> bool {
    bytes.len() == HOOK_EVENT_SIZE && bytes[0] <= TYPE_CBT_MOVE_SIZE
}

/// The rectangle of a record, in the system's own type.
pub open spec fn native_rect(rect: PortableRECT) -> RECT {
    RECT { left: rect.left, top: rect.top, right: rect.right, bottom: rect.bottom }
}

/// The event that a record stands for. The window handle follows the kind byte; the
/// fields of the kind follow the handle.
pub open spec fn event_of(bytes: Seq<u8>) -> HookEvent
    recommends
        is_event_record(bytes),
{
    let hwnd = le_u32(bytes.subrange(1, 5)) as HWND;
    if bytes[0] == TYPE_CWP_SHOW_WINDOW {
        HookEvent::CwpShowWindow { hwnd, shown: bytes[5] != 0 }
    } else if bytes[0] == TYPE_CBT_ACTIVATE {
        HookEvent::CbtActivate { hwnd, caused_by_mouse: bytes[5] != 0 }
    } else if bytes[0] == TYPE_CBT_CREATE_WINDOW {
        HookEvent::CbtCreateWindow { hwnd, rect: native_rect(PortableRECT::at(bytes, 5)) }
    } else if bytes[0] == TYPE_CBT_DESTROY_WINDOW {
        HookEvent::CbtDestroyWindow { hwnd }
    } else if bytes[0] == TYPE_CBT_MIN_MAX {
        HookEvent::CbtMinMax { hwnd, show_command: le_i32(bytes.subrange(5, 9)) }
    } else {
        HookEvent::CbtMoveSize { hwnd, rect: native_rect(PortableRECT::at(bytes, 5)) }
    }
}

/// An event record as it came off the wire, checked for size and kind.
pub struct HookEventC {
    record: Vec<u8>,
}

impl View for HookEventC {
    type V = Seq<u8>;

    closed spec fn view(&self) -> Seq<u8> {
        self.record@
    }
}

impl HookEventC {
    #[verifier::type_invariant]
    spec fn well_formed(self) -> bool {
        is_event_record(self.record@)
    }

    /// Takes the bytes as an event record, if they are one.
    pub fn new(bytes: Vec<u8>) -> (record: Option<HookEventC>)
        ensures
            record is Some <==> is_event_record(bytes@),
            record matches Some(event) ==> event@ == bytes@,
    {
        if bytes.len() == HOOK_EVENT_SIZE && bytes[0] <= TYPE_CBT_MOVE_SIZE {
            Some(HookEventC { record: bytes })
        } else {
            None
        }
    }

    /// The kind byte.
    pub fn kind(&self) -> (kind: u8)
        ensures
            kind == self@[0],
            kind <= TYPE_CBT_MOVE_SIZE,
            is_event_record(self@),
    {
        proof {
            use_type_invariant(self);
        }
        self.record[0]
    }

    /// The event that the record stands for.
    pub fn event(&self) -> (event: HookEvent)
        ensures
            event == event_of(self@),
            is_event_record(self@),
    {
        proof {
            use_type_invariant(self);
        }
        let bytes = self.record.as_slice();
        let kind = bytes[0];
        let hwnd: HWND = read_u32(bytes, 1) as usize;
        if kind == TYPE_CWP_SHOW_WINDOW {
            HookEvent::CwpShowWindow { hwnd, shown: bytes[5] != 0 }
        } else if kind == TYPE_CBT_ACTIVATE {
            HookEvent::CbtActivate { hwnd, caused_by_mouse: bytes[5] != 0 }
        } else if kind == TYPE_CBT_CREATE_WINDOW {
            HookEvent::CbtCreateWindow { hwnd, rect: RECT::from(PortableRECT::read(bytes, 5)) }
        } else if kind == TYPE_CBT_DESTROY_WINDOW {
            HookEvent::CbtDestroyWindow { hwnd }
        } else if kind == TYPE_CBT_MIN_MAX {
            HookEvent::CbtMinMax { hwnd, show_command: read_i32(bytes, 5) }
        } else {
            HookEvent::CbtMoveSize { hwnd, rect: RECT::from(PortableRECT::read(bytes, 5)) }
        }
    }
}

impl From<HookEventC> for HookEvent {
    fn from(hec: HookEventC) -> (event: HookEvent) {
        hec.event()
    }
}

impl FromSpecImpl<HookEventC> for HookEvent {
    open spec fn obeys_from_spec() -> bool {
        true
    }

    open spec fn from_spec(hec: HookEventC) -> HookEvent {
        event_of(hec@)
    }
}

/// The rectangle that a window is to take.
#[derive(Clone, Copy, Debug, PartialEq, Eq, Structural)]
pub struct PosAndSizeData {
    pub rect: PortableRECT,
}

/// The answer to an event that asks for one.
#[derive(Clone, Copy, Debug, PartialEq, Eq, Structural)]
pub struct HookResponse {
    pub pos_and_size_data: PosAndSizeData,
}

impl HookResponse {
    /// The response record: the rectangle's four numbers in the order left, top, right,
    /// bottom.
    pub fn encode(&self) -> (record: Vec<u8>)
        ensures
            record@ == self.pos_and_size_data.rect.bytes(),
            record@.len() == HOOK_RESPONSE_SIZE,
    {
        let rect = self.pos_and_size_data.rect;
        let mut record: Vec<u8> = Vec::new();
        write_i32(&mut record, rect.left);
        write_i32(&mut record, rect.top);
        write_i32(&mut record, rect.right);
        write_i32(&mut record, rect.bottom);
        assert(record@ =~= rect.bytes());
        record
    }

    /// Reads a response record back, if the bytes are one.
    pub fn decode(bytes: &[u8]) -> (response: Option<HookResponse>)
        ensures
            response is Some <==> bytes@.len() == HOOK_RESPONSE_SIZE,
            response matches Some(decoded) ==> decoded.pos_and_size_data.rect == PortableRECT::at(
                bytes@,
                0,
            ),
    {
        if bytes.len() == HOOK_RESPONSE_SIZE {
            Some(HookResponse { pos_and_size_data: PosAndSizeData { rect: PortableRECT::read(bytes, 0) } })
        } else {
            None
        }
    }
}

/// A response record holds the rectangle that it was made from: reading the record
/// back gives every coordinate as it was.
pub proof fn lemma_response_round_trip(rect: PortableRECT)
    ensures
        rect.bytes().len() == HOOK_RESPONSE_SIZE,
        PortableRECT::at(rect.bytes(), 0) == rect,
{
    lemma_i32_round_trip(rect.left);
    lemma_i32_round_trip(rect.top);
    lemma_i32_round_trip(rect.right);
    lemma_i32_round_trip(rect.bottom);
    let bytes = rect.bytes();
    assert(bytes.subrange(0, 4) =~= i32_le(rect.left));
    assert(bytes.subrange(4, 8) =~= i32_le(rect.top));
    assert(bytes.subrange(8, 12) =~= i32_le(rect.right));
    assert(bytes.subrange(12, 16) =~= i32_le(rect.bottom));
}

} // verus!
