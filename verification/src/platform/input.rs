//! Mouse and wheel input forwarding for a composition-hosted WebView: which
//! window messages are forwarded, and how their packed parameters decode.
use vstd::prelude::*;

verus! {

pub const WM_MOUSEMOVE: u32 = 0x0200;
pub const WM_LBUTTONDOWN: u32 = 0x0201;
pub const WM_LBUTTONUP: u32 = 0x0202;
pub const WM_RBUTTONDOWN: u32 = 0x0204;
pub const WM_RBUTTONUP: u32 = 0x0205;
pub const WM_MOUSEWHEEL: u32 = 0x020A;

/// The mouse messages the bridge forwards.
pub open spec fn forwarded(message: u32) -> bool {
    message == WM_MOUSEMOVE || message == WM_LBUTTONDOWN || message == WM_LBUTTONUP
        || message == WM_RBUTTONDOWN || message == WM_RBUTTONUP || message == WM_MOUSEWHEEL
}

/// True when `message` is a mouse message the bridge forwards.
pub fn is_forwarded_message(message: u32) -> (r: bool)
    ensures
        r == forwarded(message),
{
    message == WM_MOUSEMOVE || message == WM_LBUTTONDOWN || message == WM_LBUTTONUP
        || message == WM_RBUTTONDOWN || message == WM_RBUTTONUP || message == WM_MOUSEWHEEL
}

/// The WebView2 mouse event a forwarded message becomes.
#[derive(Clone, Copy, Debug, PartialEq, Eq, Structural)]
pub enum MouseEventKind {
    Move,
    LeftButtonDown,
    LeftButtonUp,
    RightButtonDown,
    RightButtonUp,
    Wheel,
}

/// Maps a forwarded message to its event (anything else is a move).
pub fn event_kind(message: u32) -> (r: MouseEventKind)
    ensures
        r == if message == WM_LBUTTONDOWN {
            MouseEventKind::LeftButtonDown
        } else if message == WM_LBUTTONUP {
            MouseEventKind::LeftButtonUp
        } else if message == WM_RBUTTONDOWN {
            MouseEventKind::RightButtonDown
        } else if message == WM_RBUTTONUP {
            MouseEventKind::RightButtonUp
        } else if message == WM_MOUSEWHEEL {
            MouseEventKind::Wheel
        } else {
            MouseEventKind::Move
        },
{
    if message == WM_LBUTTONDOWN {
        MouseEventKind::LeftButtonDown
    } else if message == WM_LBUTTONUP {
        MouseEventKind::LeftButtonUp
    } else if message == WM_RBUTTONDOWN {
        MouseEventKind::RightButtonDown
    } else if message == WM_RBUTTONUP {
        MouseEventKind::RightButtonUp
    } else if message == WM_MOUSEWHEEL {
        MouseEventKind::Wheel
    } else {
        MouseEventKind::Move
    }
}

/// A point in client coordinates.
#[derive(Clone, Copy, Debug, PartialEq, Eq, Structural)]
pub struct Point {
    pub x: i32,
    pub y: i32,
}

/// The signed value of a 16-bit word.
pub open spec fn signed16(w: int) -> int {
    if w < 32768 { w } else { w - 65536 }
}

fn word_as_i16(w: u32) -> (r: i32)
    requires
        w < 65536,
    ensures
        r == signed16(w as int),
{
    if w < 32768 { w as i32 } else { (w as i32) - 65536 }
}

/// Decodes the signed client position packed into a mouse message `lparam`:
/// the low word of its low 32 bits is x, the high word is y, each signed.
pub fn client_point_from_lparam(lparam: isize) -> (p: Point)
    ensures
        p.x == signed16(((lparam as u32) & 0xffff) as int),
        p.y == signed16((((lparam as u32) >> 16) & 0xffff) as int),
{
    let packed = lparam as u32;
    let lo = packed & 0xffff;
    let hi = (packed >> 16) & 0xffff;
    assert(lo < 65536) by (bit_vector)
        requires lo == packed & 0xffff;
    assert(hi < 65536) by (bit_vector)
        requires hi == (packed >> 16) & 0xffff;
    Point { x: word_as_i16(lo), y: word_as_i16(hi) }
}

/// Extracts the signed wheel delta from the high word of `wparam`, widened to
/// 32 bits as the WebView2 mouse-data argument carries it.
pub fn wheel_delta_from_wparam(wparam: usize) -> (r: u32)
    ensures
        r as int == (if signed16(((wparam >> 16) as u16) as int) >= 0 {
            signed16(((wparam >> 16) as u16) as int)
        } else {
            signed16(((wparam >> 16) as u16) as int) + 4294967296
        }),
{
    let word = (wparam >> 16) as u16;
    let v = word_as_i16(word as u32);
    if v >= 0 { v as u32 } else { (v + 65536) as u32 + 0xffff0000u32 }
}

/// Button-down messages move focus into the WebView and capture the mouse;
/// button-up messages release the capture.
pub fn capture_change(message: u32) -> (r: (bool, bool))
    ensures
        r == (message == WM_LBUTTONDOWN || message == WM_RBUTTONDOWN, message == WM_LBUTTONUP || message == WM_RBUTTONUP),
{
    (message == WM_LBUTTONDOWN || message == WM_RBUTTONDOWN, message == WM_LBUTTONUP || message == WM_RBUTTONUP)
}

} // verus!
