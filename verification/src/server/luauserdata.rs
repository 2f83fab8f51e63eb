//! What a script sees of a window: its handle, its style flags by name, and its
//! rectangle by field name.

use vstd::prelude::*;
use vstd::string::StringExecFns;
use crate::util::{as_signed, as_unsigned, str_eq, to_signed, to_unsigned};
use crate::windows::def::{
    GWL_STYLE,
    HWND,
    HWND_TOP,
    LONG,
    RECT,
    SWP_NOACTIVATE,
    SW_FORCEMINIMIZE,
    SW_HIDE,
    SW_MAXIMIZE,
    SW_MINIMIZE,
    SW_RESTORE,
    SW_SHOW,
    SW_SHOWDEFAULT,
    SW_SHOWMINIMIZED,
    SW_SHOWMINNOACTIVE,
    SW_SHOWNA,
    SW_SHOWNOACTIVATE,
    SW_SHOWNORMAL,
    UINT,
    WS_BORDER,
    WS_CAPTION,
    WS_CHILD,
    WS_CLIPCHILDREN,
    WS_CLIPSIBLINGS,
    WS_DISABLED,
    WS_DLGFRAME,
    WS_EX_ACCEPTFILES,
    WS_EX_APPWINDOW,
    WS_EX_CLIENTEDGE,
    WS_EX_COMPOSITED,
    WS_EX_CONTEXTHELP,
    WS_EX_CONTROLPARENT,
    WS_EX_DLGMODALFRAME,
    WS_EX_LAYERED,
    WS_EX_LAYOUTRTL,
    WS_EX_LEFTSCROLLBAR,
    WS_EX_MDICHILD,
    WS_EX_NOACTIVATE,
    WS_EX_NOINHERITLAYOUT,
    WS_EX_NOPARENTNOTIFY,
    WS_EX_NOREDIRECTIONBITMAP,
    WS_EX_RIGHT,
    WS_EX_RTLREADING,
    WS_EX_STATICEDGE,
    WS_EX_TOOLWINDOW,
    WS_EX_TOPMOST,
    WS_EX_TRANSPARENT,
    WS_EX_WINDOWEDGE,
    WS_GROUP,
    WS_HSCROLL,
    WS_ICONIC,
    WS_MAXIMIZE,
    WS_MAXIMIZEBOX,
    WS_MINIMIZE,
    WS_MINIMIZEBOX,
    WS_POPUP,
    WS_SYSMENU,
    WS_TABSTOP,
    WS_THICKFRAME,
    WS_VISIBLE,
    WS_VSCROLL,
};
use crate::windows::wrappers;

verus! {

/// Why a script's access failed.
#[derive(Debug)]
pub enum Error {
    /// The object has no field of this name.
    KeyDoesNotExist(String),
    WindowsError(wrappers::Error),
}

impl Error {
    /// What the failure of a system call looks like to a script.
    pub fn from(err: wrappers::Error) -> (error: Error)
        ensures
            error matches Error::WindowsError(inner) && inner == err,
    {
        Error::WindowsError(err)
    }

    /// What is shown of the error: the key that does not exist, or the text of the
    /// system error.
    pub open spec fn report(self, inner: Seq<char>) -> Seq<char> {
        match self {
            Error::KeyDoesNotExist(key) => "Key does not exist: "@ + key@,
            Error::WindowsError(_) => "Windows error: "@ + inner,
        }
    }

    /// Shows the error. `inner` is the text of the system error that it holds, and is
    /// not looked at where it holds none.
    pub fn to_string(&self, inner: &str) -> (text: String)
        ensures
            text@ == self.report(inner@),
    {
        match self {
            Error::KeyDoesNotExist(key) => {
                let mut text = String::from_str("Key does not exist: ");
                text.append(key.as_str());
                text
            },
            Error::WindowsError(_) => {
                let mut text = String::from_str("Windows error: ");
                text.append(inner);
                text
            },
        }
    }
}

/// The arguments of the call that moves and resizes a window.
#[derive(Clone, Copy, Debug, PartialEq, Eq, Structural)]
pub struct WindowPos {
    pub hwnd: HWND,
    pub insert_after: HWND,
    pub x: i32,
    pub y: i32,
    pub cx: i32,
    pub cy: i32,
    pub flags: UINT,
}

/// What a window handle offers by name.
#[derive(Clone, Copy, Debug, PartialEq, Eq, Structural)]
pub enum WindowProperty {
    Title,
    Style,
}

/// A window, as a script holds it.
#[derive(Clone, Copy, Debug, PartialEq, Eq, Structural)]
pub struct WindowHandle {
    pub hwnd: HWND,
}

impl WindowHandle {
    pub fn new(hwnd: HWND) -> (handle: WindowHandle)
        ensures
            handle.hwnd == hwnd,
    {
        WindowHandle { hwnd }
    }

    /// The call that gives the window the position and the size: at the top of the
    /// stacking order, without activating it.
    pub fn set_window_rect(&self, x: i32, y: i32, w: i32, h: i32) -> (call: WindowPos)
        ensures
            call == (WindowPos {
                hwnd: self.hwnd,
                insert_after: HWND_TOP,
                x,
                y,
                cx: w,
                cy: h,
                flags: SWP_NOACTIVATE,
            }),
    {
        WindowPos { hwnd: self.hwnd, insert_after: HWND_TOP, x, y, cx: w, cy: h, flags: SWP_NOACTIVATE }
    }

    /// The property that a key names.
    pub open spec fn property_of(key: Seq<char>) -> Option<WindowProperty> {
        if key == "title"@ {
            Some(WindowProperty::Title)
        } else if key == "style"@ {
            Some(WindowProperty::Style)
        } else {
            None
        }
    }

    /// Looks a key up: `title` and `style` exist.
    pub fn property(key: String) -> (property: Result<WindowProperty, Error>)
        ensures
            match Self::property_of(key@) {
                Some(found) => property matches Ok(p) && p == found,
                None => property matches Err(Error::KeyDoesNotExist(missing)) && missing@ == key@,
            },
    {
        if str_eq(key.as_str(), "title") {
            Ok(WindowProperty::Title)
        } else if str_eq(key.as_str(), "style") {
            Ok(WindowProperty::Style)
        } else {
            Err(Error::KeyDoesNotExist(key))
        }
    }
}

/// The style flag that a key names.
pub open spec fn style_flag(key: Seq<char>) -> Option<u32> {
    if key == "border"@ {
        Some(WS_BORDER)
    } else if key == "caption"@ {
        Some(WS_CAPTION)
    } else if key == "child"@ {
        Some(WS_CHILD)
    } else if key == "clipchildren"@ {
        Some(WS_CLIPCHILDREN)
    } else if key == "clipsiblings"@ {
        Some(WS_CLIPSIBLINGS)
    } else if key == "disabled"@ {
        Some(WS_DISABLED)
    } else if key == "dlgframe"@ {
        Some(WS_DLGFRAME)
    } else if key == "group"@ {
        Some(WS_GROUP)
    } else if key == "hscroll"@ {
        Some(WS_HSCROLL)
    } else if key == "iconic"@ {
        Some(WS_ICONIC)
    } else if key == "maximize"@ {
        Some(WS_MAXIMIZE)
    } else if key == "maximizebox"@ {
        Some(WS_MAXIMIZEBOX)
    } else if key == "minimize"@ {
        Some(WS_MINIMIZE)
    } else if key == "minimizebox"@ {
        Some(WS_MINIMIZEBOX)
    } else if key == "popup"@ {
        Some(WS_POPUP)
    } else if key == "sysmenu"@ {
        Some(WS_SYSMENU)
    } else if key == "tabstop"@ {
        Some(WS_TABSTOP)
    } else if key == "thickframe"@ {
        Some(WS_THICKFRAME)
    } else if key == "visible"@ {
        Some(WS_VISIBLE)
    } else if key == "vscroll"@ {
        Some(WS_VSCROLL)
    } else {
        None
    }
}

/// The extended style flag that a key names.
pub open spec fn ex_style_flag(key: Seq<char>) -> Option<u32> {
    if key == "acceptfiles"@ {
        Some(WS_EX_ACCEPTFILES)
    } else if key == "appwindow"@ {
        Some(WS_EX_APPWINDOW)
    } else if key == "clientedge"@ {
        Some(WS_EX_CLIENTEDGE)
    } else if key == "composited"@ {
        Some(WS_EX_COMPOSITED)
    } else if key == "contexthelp"@ {
        Some(WS_EX_CONTEXTHELP)
    } else if key == "controlparent"@ {
        Some(WS_EX_CONTROLPARENT)
    } else if key == "dlgmodalframe"@ {
        Some(WS_EX_DLGMODALFRAME)
    } else if key == "layered"@ {
        Some(WS_EX_LAYERED)
    } else if key == "layoutrtl"@ {
        Some(WS_EX_LAYOUTRTL)
    } else if key == "leftscrollbar"@ {
        Some(WS_EX_LEFTSCROLLBAR)
    } else if key == "mdichild"@ {
        Some(WS_EX_MDICHILD)
    } else if key == "noactivate"@ {
        Some(WS_EX_NOACTIVATE)
    } else if key == "noinheritlayout"@ {
        Some(WS_EX_NOINHERITLAYOUT)
    } else if key == "noparentnotify"@ {
        Some(WS_EX_NOPARENTNOTIFY)
    } else if key == "noredirectionbitmap"@ {
        Some(WS_EX_NOREDIRECTIONBITMAP)
    } else if key == "right"@ {
        Some(WS_EX_RIGHT)
    } else if key == "rtlreading"@ {
        Some(WS_EX_RTLREADING)
    } else if key == "staticedge"@ {
        Some(WS_EX_STATICEDGE)
    } else if key == "toolwindow"@ {
        Some(WS_EX_TOOLWINDOW)
    } else if key == "topmost"@ {
        Some(WS_EX_TOPMOST)
    } else if key == "transparent"@ {
        Some(WS_EX_TRANSPARENT)
    } else if key == "windowedge"@ {
        Some(WS_EX_WINDOWEDGE)
    } else {
        None
    }
}

/// A word with the bits of a flag set or cleared.
pub open spec fn with_flag(word: u32, flag: u32, val: bool) -> u32 {
    if val {
        word | flag
    } else {
        word & !flag
    }
}

/// The call that stores a style word with the window.
#[derive(Clone, Copy, Debug, PartialEq, Eq, Structural)]
pub struct StyleChange {
    pub hwnd: HWND,
    /// The index of the word among the window's words.
    pub index: i32,
    pub value: LONG,
}

/// The two style words of a window.
#[derive(Clone, Copy, Debug, PartialEq, Eq, Structural)]
pub struct WindowStyle {
    pub hwnd: HWND,
    pub style: u32,
    pub ex_style: u32,
}

impl WindowStyle {
    /// The styles of a window from the two words that the system gave for it.
    pub fn new(hwnd: HWND, style: LONG, ex_style: LONG) -> (styles: WindowStyle)
        ensures
            styles == (WindowStyle {
                hwnd,
                style: as_unsigned(style),
                ex_style: as_unsigned(ex_style),
            }),
    {
        WindowStyle { hwnd, style: to_unsigned(style), ex_style: to_unsigned(ex_style) }
    }

    /// What reading the flag of that name gives: a style's name goes before an
    /// extended style's.
    pub open spec fn flag_value(self, key: Seq<char>) -> Option<bool> {
        match style_flag(key) {
            Some(flag) => Some(self.style & flag != 0),
            None => match ex_style_flag(key) {
                Some(flag) => Some(self.ex_style & flag != 0),
                None => None,
            },
        }
    }

    /// Whether any bit of the named flag is set.
    pub fn get_style_flag(&self, key: String) -> (value: Result<bool, Error>)
        ensures
            match self.flag_value(key@) {
                Some(set) => value matches Ok(v) && v == set,
                None => value matches Err(Error::KeyDoesNotExist(missing)) && missing@ == key@,
            },
    {
        match WindowStyle::str_to_style_flag(key.as_str()) {
            Some(flag) => Ok(self.style & flag != 0),
            None => match WindowStyle::str_to_ex_style_flag(key.as_str()) {
                Some(flag) => Ok(self.ex_style & flag != 0),
                None => Err(Error::KeyDoesNotExist(key)),
            },
        }
    }

    /// The styles after the named flag is set or cleared.
    pub open spec fn with_named_flag(self, key: Seq<char>, val: bool) -> WindowStyle {
        match style_flag(key) {
            Some(flag) => WindowStyle { style: with_flag(self.style, flag, val), ..self },
            None => match ex_style_flag(key) {
                Some(flag) => WindowStyle { ex_style: with_flag(self.ex_style, flag, val), ..self },
                None => self,
            },
        }
    }

    /// Sets or clears the bits of the named flag, and gives the call that stores the
    /// word that changed. Either word goes to the index of the style word.
    pub fn set_style_flag(&mut self, key: String, val: bool) -> (change: Result<StyleChange, Error>)
        ensures
            *final(self) == old(self).with_named_flag(key@, val),
            match style_flag(key@) {
                Some(_) => change == Ok::<StyleChange, Error>(
                    StyleChange {
                        hwnd: old(self).hwnd,
                        index: GWL_STYLE,
                        value: as_signed(final(self).style),
                    },
                ),
                None => match ex_style_flag(key@) {
                    Some(_) => change == Ok::<StyleChange, Error>(
                        StyleChange {
                            hwnd: old(self).hwnd,
                            index: GWL_STYLE,
                            value: as_signed(final(self).ex_style),
                        },
                    ),
                    None => change matches Err(Error::KeyDoesNotExist(missing)) && missing@ == key@,
                },
            },
    {
        match WindowStyle::str_to_style_flag(key.as_str()) {
            Some(flag) => {
                if val {
                    self.style = self.style | flag;
                } else {
                    self.style = self.style & !flag;
                }
                Ok(StyleChange { hwnd: self.hwnd, index: GWL_STYLE, value: to_signed(self.style) })
            },
            None => match WindowStyle::str_to_ex_style_flag(key.as_str()) {
                Some(flag) => {
                    if val {
                        self.ex_style = self.ex_style | flag;
                    } else {
                        self.ex_style = self.ex_style & !flag;
                    }
                    Ok(
                        StyleChange {
                            hwnd: self.hwnd,
                            index: GWL_STYLE,
                            value: to_signed(self.ex_style),
                        },
                    )
                },
                None => Err(Error::KeyDoesNotExist(key)),
            },
        }
    }

    /// The style flag of that name, if there is one.
    pub fn str_to_style_flag(key: &str) -> (flag: Option<u32>)
        ensures
            flag == style_flag(key@),
    {
        if str_eq(key, "border") {
            Some(WS_BORDER)
        } else if str_eq(key, "caption") {
            Some(WS_CAPTION)
        } else if str_eq(key, "child") {
            Some(WS_CHILD)
        } else if str_eq(key, "clipchildren") {
            Some(WS_CLIPCHILDREN)
        } else if str_eq(key, "clipsiblings") {
            Some(WS_CLIPSIBLINGS)
        } else if str_eq(key, "disabled") {
            Some(WS_DISABLED)
        } else if str_eq(key, "dlgframe") {
            Some(WS_DLGFRAME)
        } else if str_eq(key, "group") {
            Some(WS_GROUP)
        } else if str_eq(key, "hscroll") {
            Some(WS_HSCROLL)
        } else if str_eq(key, "iconic") {
            Some(WS_ICONIC)
        } else if str_eq(key, "maximize") {
            Some(WS_MAXIMIZE)
        } else if str_eq(key, "maximizebox") {
            Some(WS_MAXIMIZEBOX)
        } else if str_eq(key, "minimize") {
            Some(WS_MINIMIZE)
        } else if str_eq(key, "minimizebox") {
            Some(WS_MINIMIZEBOX)
        } else if str_eq(key, "popup") {
            Some(WS_POPUP)
        } else if str_eq(key, "sysmenu") {
            Some(WS_SYSMENU)
        } else if str_eq(key, "tabstop") {
            Some(WS_TABSTOP)
        } else if str_eq(key, "thickframe") {
            Some(WS_THICKFRAME)
        } else if str_eq(key, "visible") {
            Some(WS_VISIBLE)
        } else if str_eq(key, "vscroll") {
            Some(WS_VSCROLL)
        } else {
            None
        }
    }

    /// The extended style flag of that name, if there is one.
    pub fn str_to_ex_style_flag(key: &str) -> (flag: Option<u32>)
        ensures
            flag == ex_style_flag(key@),
    {
        if str_eq(key, "acceptfiles") {
            Some(WS_EX_ACCEPTFILES)
        } else if str_eq(key, "appwindow") {
            Some(WS_EX_APPWINDOW)
        } else if str_eq(key, "clientedge") {
            Some(WS_EX_CLIENTEDGE)
        } else if str_eq(key, "composited") {
            Some(WS_EX_COMPOSITED)
        } else if str_eq(key, "contexthelp") {
            Some(WS_EX_CONTEXTHELP)
        } else if str_eq(key, "controlparent") {
            Some(WS_EX_CONTROLPARENT)
        } else if str_eq(key, "dlgmodalframe") {
            Some(WS_EX_DLGMODALFRAME)
        } else if str_eq(key, "layered") {
            Some(WS_EX_LAYERED)
        } else if str_eq(key, "layoutrtl") {
            Some(WS_EX_LAYOUTRTL)
        } else if str_eq(key, "leftscrollbar") {
            Some(WS_EX_LEFTSCROLLBAR)
        } else if str_eq(key, "mdichild") {
            Some(WS_EX_MDICHILD)
        } else if str_eq(key, "noactivate") {
            Some(WS_EX_NOACTIVATE)
        } else if str_eq(key, "noinheritlayout") {
            Some(WS_EX_NOINHERITLAYOUT)
        } else if str_eq(key, "noparentnotify") {
            Some(WS_EX_NOPARENTNOTIFY)
        } else if str_eq(key, "noredirectionbitmap") {
            Some(WS_EX_NOREDIRECTIONBITMAP)
        } else if str_eq(key, "right") {
            Some(WS_EX_RIGHT)
        } else if str_eq(key, "rtlreading") {
            Some(WS_EX_RTLREADING)
        } else if str_eq(key, "staticedge") {
            Some(WS_EX_STATICEDGE)
        } else if str_eq(key, "toolwindow") {
            Some(WS_EX_TOOLWINDOW)
        } else if str_eq(key, "topmost") {
            Some(WS_EX_TOPMOST)
        } else if str_eq(key, "transparent") {
            Some(WS_EX_TRANSPARENT)
        } else if str_eq(key, "windowedge") {
            Some(WS_EX_WINDOWEDGE)
        } else {
            None
        }
    }
}

/// A flag that was set reads as set, and one that was cleared reads as clear,
/// whatever the word held before.
pub proof fn lemma_flag_reads_back(word: u32, flag: u32, val: bool)
    requires
        flag != 0,
    ensures
        (with_flag(word, flag, val) & flag != 0) == val,
{
    assert(flag != 0 ==> (word | flag) & flag != 0) by (bit_vector);
    assert((word & !flag) & flag == 0) by (bit_vector);
}

/// Every flag that has a name has a bit, so that setting it can be told from
/// clearing it.
pub proof fn lemma_named_flags_have_bits(key: Seq<char>)
    ensures
        style_flag(key) matches Some(flag) ==> flag != 0,
        ex_style_flag(key) matches Some(flag) ==> flag != 0,
{
}

/// Reading a named flag after writing it gives what was written.
pub proof fn lemma_style_flag_reads_back(styles: WindowStyle, key: Seq<char>, val: bool)
    requires
        styles.flag_value(key) is Some,
    ensures
        styles.with_named_flag(key, val).flag_value(key) == Some(val),
{
    lemma_named_flags_have_bits(key);
    match style_flag(key) {
        Some(flag) => lemma_flag_reads_back(styles.style, flag, val),
        None => lemma_flag_reads_back(styles.ex_style, ex_style_flag(key).unwrap(), val),
    }
}

/// The fields that a rectangle offers by name.
#[derive(Clone, Copy, Debug, PartialEq, Eq, Structural)]
pub enum RectField {
    Left,
    Top,
    Right,
    Bottom,
    Width,
    Height,
}

/// The field that a key names: `x` and `y` are other names for `left` and `top`.
pub open spec fn rect_field(key: Seq<char>) -> Option<RectField> {
    if key == "left"@ {
        Some(RectField::Left)
    } else if key == "top"@ {
        Some(RectField::Top)
    } else if key == "right"@ {
        Some(RectField::Right)
    } else if key == "bottom"@ {
        Some(RectField::Bottom)
    } else if key == "x"@ {
        Some(RectField::Left)
    } else if key == "y"@ {
        Some(RectField::Top)
    } else if key == "width"@ {
        Some(RectField::Width)
    } else if key == "height"@ {
        Some(RectField::Height)
    } else {
        None
    }
}

/// A rectangle, as a script holds it.
#[derive(Clone, Copy, Debug, PartialEq, Eq, Structural)]
pub struct Rect {
    pub left: i32,
    pub top: i32,
    pub right: i32,
    pub bottom: i32,
}

impl Rect {
    pub fn from(rect: RECT) -> (lua_rect: Rect)
        ensures
            lua_rect == (Rect {
                left: rect.left,
                top: rect.top,
                right: rect.right,
                bottom: rect.bottom,
            }),
    {
        Rect { left: rect.left, top: rect.top, right: rect.right, bottom: rect.bottom }
    }

    /// The rectangle in the system's own type.
    pub fn into_rect(self) -> (rect: RECT)
        ensures
            rect == (RECT {
                left: self.left,
                top: self.top,
                right: self.right,
                bottom: self.bottom,
            }),
    {
        RECT { left: self.left, top: self.top, right: self.right, bottom: self.bottom }
    }

    /// The value of a field: the width is the distance from left to right, the height
    /// from top to bottom.
    pub open spec fn value(self, field: RectField) -> int {
        match field {
            RectField::Left => self.left as int,
            RectField::Top => self.top as int,
            RectField::Right => self.right as int,
            RectField::Bottom => self.bottom as int,
            RectField::Width => self.right - self.left,
            RectField::Height => self.bottom - self.top,
        }
    }

    /// The rectangle with a field set. The width moves the right edge and the height
    /// the bottom edge; the left and the top edge move alone.
    pub open spec fn with_value(self, field: RectField, val: i32) -> Rect {
        match field {
            RectField::Left => Rect { left: val, ..self },
            RectField::Top => Rect { top: val, ..self },
            RectField::Right => Rect { right: val, ..self },
            RectField::Bottom => Rect { bottom: val, ..self },
            RectField::Width => Rect { right: (self.left + val) as i32, ..self },
            RectField::Height => Rect { bottom: (self.top + val) as i32, ..self },
        }
    }

    /// Whether the value of the field is a number that a script can be given.
    pub open spec fn can_get(self, field: RectField) -> bool {
        i32::MIN <= self.value(field) <= i32::MAX
    }

    /// Whether the edge that the field moves stays a number that the rectangle can hold.
    pub open spec fn can_set(self, field: RectField, val: i32) -> bool {
        match field {
            RectField::Width => i32::MIN <= self.left + val <= i32::MAX,
            RectField::Height => i32::MIN <= self.top + val <= i32::MAX,
            _ => true,
        }
    }

    /// The field of that name, if there is one.
    pub fn field(key: &str) -> (field: Option<RectField>)
        ensures
            field == rect_field(key@),
    {
        if str_eq(key, "left") {
            Some(RectField::Left)
        } else if str_eq(key, "top") {
            Some(RectField::Top)
        } else if str_eq(key, "right") {
            Some(RectField::Right)
        } else if str_eq(key, "bottom") {
            Some(RectField::Bottom)
        } else if str_eq(key, "x") {
            Some(RectField::Left)
        } else if str_eq(key, "y") {
            Some(RectField::Top)
        } else if str_eq(key, "width") {
            Some(RectField::Width)
        } else if str_eq(key, "height") {
            Some(RectField::Height)
        } else {
            None
        }
    }

    /// Whether `get` can be asked for the key: the key names no field, or the field's
    /// value is a number that a script can be given.
    pub fn admits_get(&self, key: &str) -> (able: bool)
        ensures
            able == (rect_field(key@) matches Some(field) ==> self.can_get(field)),
    {
        match Rect::field(key) {
            Some(RectField::Width) => {
                let width: i64 = self.right as i64 - self.left as i64;
                -0x8000_0000 <= width && width <= 0x7FFF_FFFF
            },
            Some(RectField::Height) => {
                let height: i64 = self.bottom as i64 - self.top as i64;
                -0x8000_0000 <= height && height <= 0x7FFF_FFFF
            },
            _ => true,
        }
    }

    /// Whether `set` can be asked for the key and the value.
    pub fn admits_set(&self, key: &str, val: i32) -> (able: bool)
        ensures
            able == (rect_field(key@) matches Some(field) ==> self.can_set(field, val)),
    {
        match Rect::field(key) {
            Some(RectField::Width) => {
                let right: i64 = self.left as i64 + val as i64;
                -0x8000_0000 <= right && right <= 0x7FFF_FFFF
            },
            Some(RectField::Height) => {
                let bottom: i64 = self.top as i64 + val as i64;
                -0x8000_0000 <= bottom && bottom <= 0x7FFF_FFFF
            },
            _ => true,
        }
    }

    /// Reads the field that the key names.
    pub fn get(&self, key: String) -> (value: Result<i32, Error>)
        requires
            rect_field(key@) matches Some(field) ==> self.can_get(field),
        ensures
            match rect_field(key@) {
                Some(field) => value matches Ok(v) && v == self.value(field),
                None => value matches Err(Error::KeyDoesNotExist(missing)) && missing@ == key@,
            },
    {
        match Rect::field(key.as_str()) {
            Some(RectField::Left) => Ok(self.left),
            Some(RectField::Top) => Ok(self.top),
            Some(RectField::Right) => Ok(self.right),
            Some(RectField::Bottom) => Ok(self.bottom),
            Some(RectField::Width) => Ok(self.right - self.left),
            Some(RectField::Height) => Ok(self.bottom - self.top),
            None => Err(Error::KeyDoesNotExist(key)),
        }
    }

    /// Writes the field that the key names, and gives the value back.
    pub fn set(&mut self, key: String, val: i32) -> (value: Result<i32, Error>)
        requires
            rect_field(key@) matches Some(field) ==> old(self).can_set(field, val),
        ensures
            match rect_field(key@) {
                Some(field) => *final(self) == old(self).with_value(field, val) && value == Ok::<
                    i32,
                    Error,
                >(val),
                None => {
                    &&& *final(self) == *old(self)
                    &&& value matches Err(Error::KeyDoesNotExist(missing))
                    &&& missing@ == key@
                },
            },
    {
        match Rect::field(key.as_str()) {
            Some(RectField::Left) => {
                self.left = val;
                Ok(val)
            },
            Some(RectField::Top) => {
                self.top = val;
                Ok(val)
            },
            Some(RectField::Right) => {
                self.right = val;
                Ok(val)
            },
            Some(RectField::Bottom) => {
                self.bottom = val;
                Ok(val)
            },
            Some(RectField::Width) => {
                self.right = self.left + val;
                Ok(val)
            },
            Some(RectField::Height) => {
                self.bottom = self.top + val;
                Ok(val)
            },
            None => Err(Error::KeyDoesNotExist(key)),
        }
    }
}

/// A field that was written reads back as written, where both can be done.
pub proof fn lemma_rect_field_reads_back(rect: Rect, field: RectField, val: i32)
    requires
        rect.can_set(field, val),
    ensures
        rect.with_value(field, val).value(field) == val,
{
}

/// The name of a show command.
pub open spec fn show_command_name(cmd: i32) -> Option<Seq<char>> {
    if cmd == SW_FORCEMINIMIZE {
        Some("forceminimize"@)
    } else if cmd == SW_HIDE {
        Some("hide"@)
    } else if cmd == SW_MAXIMIZE {
        Some("maximize"@)
    } else if cmd == SW_MINIMIZE {
        Some("minimize"@)
    } else if cmd == SW_RESTORE {
        Some("restore"@)
    } else if cmd == SW_SHOW {
        Some("show"@)
    } else if cmd == SW_SHOWDEFAULT {
        Some("showdefault"@)
    } else if cmd == SW_SHOWMINIMIZED {
        Some("showminimized"@)
    } else if cmd == SW_SHOWMINNOACTIVE {
        Some("showminnoactive"@)
    } else if cmd == SW_SHOWNA {
        Some("showna"@)
    } else if cmd == SW_SHOWNOACTIVATE {
        Some("shownoactivate"@)
    } else if cmd == SW_SHOWNORMAL {
        Some("shownormal"@)
    } else {
        None
    }
}

/// The name under which scripts know a show command; the commands from 0 to 11 have one.
pub fn show_command_to_str(cmd: i32) -> (name: Option<&'static str>)
    ensures
        match show_command_name(cmd) {
            Some(expected) => name matches Some(s) && s@ == expected,
            None => name is None,
        },
        name is Some <==> 0 <= cmd <= 11,
{
    if cmd == SW_FORCEMINIMIZE {
        Some("forceminimize")
    } else if cmd == SW_HIDE {
        Some("hide")
    } else if cmd == SW_MAXIMIZE {
        Some("maximize")
    } else if cmd == SW_MINIMIZE {
        Some("minimize")
    } else if cmd == SW_RESTORE {
        Some("restore")
    } else if cmd == SW_SHOW {
        Some("show")
    } else if cmd == SW_SHOWDEFAULT {
        Some("showdefault")
    } else if cmd == SW_SHOWMINIMIZED {
        Some("showminimized")
    } else if cmd == SW_SHOWMINNOACTIVE {
        Some("showminnoactive")
    } else if cmd == SW_SHOWNA {
        Some("showna")
    } else if cmd == SW_SHOWNOACTIVATE {
        Some("shownoactivate")
    } else if cmd == SW_SHOWNORMAL {
        Some("shownormal")
    } else {
        None
    }
}

} // verus!
