//! Mouse-input target repair for the Desktop widget: which WebView2 runtime
//! windows intercept the pointer over the product window, and where such a
//! window is parked (off every monitor, still visible) so the product window
//! is the pointer target again.
use vstd::prelude::*;
use crate::text::{has_prefix, starts_with};

verus! {

/// A rectangle in screen coordinates.
#[derive(Clone, Copy, Debug, PartialEq, Eq, Structural)]
pub struct Rect {
    pub left: i32,
    pub top: i32,
    pub right: i32,
    pub bottom: i32,
}

/// `outer` fully contains `inner`.
pub open spec fn covers_spec(outer: Rect, inner: Rect) -> bool {
    outer.left <= inner.left && outer.top <= inner.top && outer.right >= inner.right && outer.bottom >= inner.bottom
}

/// True when `outer` fully contains `inner`; only such a window can make the
/// product window unreachable for the pointer.
pub fn covers(outer: Rect, inner: Rect) -> (r: bool)
    ensures
        r == covers_spec(outer, inner),
{
    outer.left <= inner.left && outer.top <= inner.top && outer.right >= inner.right && outer.bottom >= inner.bottom
}

/// Chromium window classes the WebView2 runtime owns, by prefix.
pub open spec fn webview_class(class: Seq<char>) -> bool {
    has_prefix(class, "Chrome_WidgetWin"@) || has_prefix(class, "Chrome_RenderWidgetHostHWND"@)
        || has_prefix(class, "Intermediate D3D Window"@)
}

/// True when `class` names a Chromium window of the WebView2 runtime.
pub fn is_webview_class(class: &str) -> (r: bool)
    ensures
        r == webview_class(class@),
{
    starts_with(class, "Chrome_WidgetWin") || starts_with(class, "Chrome_RenderWidgetHostHWND")
        || starts_with(class, "Intermediate D3D Window")
}

/// The virtual screen, as `GetSystemMetrics` reports it.
#[derive(Clone, Copy, Debug, PartialEq, Eq, Structural)]
pub struct VirtualScreen {
    pub left: i32,
    pub top: i32,
    pub width: i32,
    pub height: i32,
}

/// Where an intercepting runtime window is parked: fully left of the virtual
/// screen by a 16-pixel gap, with the client area's size (at least 1×1).
pub open spec fn parking_spec(client: Rect, screen: VirtualScreen) -> Option<Rect> {
    if screen.width <= 0 || screen.height <= 0 {
        None
    } else {
        let w = if client.right - client.left >= 1 { client.right - client.left } else { 1 };
        let h = if client.bottom - client.top >= 1 { client.bottom - client.top } else { 1 };
        Some(Rect {
            left: (screen.left - w - 16) as i32,
            top: screen.top,
            right: (screen.left - 16) as i32,
            bottom: (screen.top + h) as i32,
        })
    }
}

/// Computes the parking spot; `None` when the virtual screen is unknown.
/// The spot's edges must be `i32` pixel values.
pub fn parking_spot(client: Rect, screen: VirtualScreen) -> (r: Option<Rect>)
    requires
        screen.width > 0 && screen.height > 0 ==> {
            let w = if client.right - client.left >= 1 { client.right - client.left } else { 1 };
            let h = if client.bottom - client.top >= 1 { client.bottom - client.top } else { 1 };
            screen.left - w - 16 >= i32::MIN && screen.top + h <= i32::MAX
        },
    ensures
        r == parking_spec(client, screen),
        r matches Some(spot) ==> spot.right < screen.left && spot.left < spot.right,
{
    if screen.width <= 0 || screen.height <= 0 {
        return None;
    }
    let dw = client.right as i64 - client.left as i64;
    let dh = client.bottom as i64 - client.top as i64;
    let w: i64 = if dw >= 1 { dw } else { 1 };
    let h: i64 = if dh >= 1 { dh } else { 1 };
    let left = screen.left as i64 - w - 16;
    let bottom = screen.top as i64 + h;
    Some(Rect { left: left as i32, top: screen.top, right: screen.left - 16, bottom: bottom as i32 })
}

/// What one repair pass saw and did.
#[derive(Debug)]
pub struct InputTargetReport {
    /// Visible runtime windows that cover the product client rect.
    pub candidates: usize,
    /// Candidates moved off the product client rect.
    pub relocated: usize,
    /// Class names of the moved windows.
    pub classes: Vec<String>,
}

impl InputTargetReport {
    /// An empty report.
    pub fn new() -> (r: Self)
        ensures
            r.candidates == 0 && r.relocated == 0 && r.classes@.len() == 0,
    {
        InputTargetReport { candidates: 0, relocated: 0, classes: Vec::new() }
    }

    /// "No candidate" is the healthy steady state.
    pub fn is_clear(&self) -> (r: bool)
        ensures
            r == (self.candidates == 0),
    {
        self.candidates == 0
    }
}

/// A top-level window intercepts the pointer (and is to be moved) when it is
/// not the product window, is visible, belongs to a direct child process of
/// this one (the WebView2 browser process), has a Chromium class, and covers
/// the whole product client area.
pub fn intercepts(
    is_product_window: bool,
    visible: bool,
    pid: u32,
    own_pid: u32,
    child_pids: &Vec<u32>,
    class: &str,
    rect: Rect,
    client: Rect,
) -> (r: bool)
    ensures
        r == (!is_product_window && visible && pid != own_pid && child_pids@.contains(pid)
            && webview_class(class@) && covers_spec(rect, client)),
{
    if is_product_window || !visible || pid == own_pid {
        return false;
    }
    let mut found = false;
    let mut i: usize = 0;
    while i < child_pids.len()
        invariant
            i <= child_pids@.len(),
            found == exists|k: int| 0 <= k < i && child_pids@[k] == pid,
        decreases child_pids.len() - i,
    {
        if child_pids[i] == pid {
            found = true;
        }
        i = i + 1;
    }
    proof {
        if found {
            let k = choose|k: int| 0 <= k < child_pids@.len() && child_pids@[k] == pid;
            assert(child_pids@.contains(pid));
        } else {
            assert(!child_pids@.contains(pid));
        }
    }
    found && is_webview_class(class) && covers(rect, client)
}

/// The process ids among `(pid, parent_pid)` snapshot entries whose parent is
/// `parent`, in snapshot order.
pub open spec fn children_of(entries: Seq<(u32, u32)>, parent: u32) -> Seq<u32>
    decreases entries.len(),
{
    if entries.len() == 0 {
        Seq::empty()
    } else {
        let rest = children_of(entries.drop_last(), parent);
        if entries.last().1 == parent { rest.push(entries.last().0) } else { rest }
    }
}

/// The direct child processes of `parent_pid` in a process snapshot (the
/// WebView2 browser process is one of them).
pub fn direct_child_process_ids(entries: &Vec<(u32, u32)>, parent_pid: u32) -> (r: Vec<u32>)
    ensures
        r@ == children_of(entries@, parent_pid),
{
    let mut children: Vec<u32> = Vec::new();
    let mut i: usize = 0;
    while i < entries.len()
        invariant
            i <= entries@.len(),
            children@ == children_of(entries@.take(i as int), parent_pid),
        decreases entries.len() - i,
    {
        let (pid, parent) = entries[i];
        assert(entries@.take(i + 1).drop_last() =~= entries@.take(i as int));
        if parent == parent_pid {
            children.push(pid);
        }
        i = i + 1;
    }
    assert(entries@.take(i as int) =~= entries@);
    children
}

} // verus!
