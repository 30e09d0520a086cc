//! Widget window semantics: the product window is a tool window and never an
//! application window, so no presentation appears in the taskbar or Alt+Tab.
use vstd::prelude::*;
use crate::text::concat2;

verus! {

/// `WS_EX_APPWINDOW`: forces a taskbar button.
pub const WS_EX_APPWINDOW: isize = 0x0004_0000;
/// `WS_EX_TOOLWINDOW`: not an application window.
pub const WS_EX_TOOLWINDOW: isize = 0x0000_0080;
/// `WS_CHILD`.
pub const WS_CHILD: isize = 0x4000_0000;

/// The widget extended style: the tool-window bit set, the app-window bit
/// cleared, every other bit kept.
pub fn widget_ex_style(ex_style: isize) -> (r: isize)
    ensures
        r == (ex_style & !WS_EX_APPWINDOW) | WS_EX_TOOLWINDOW,
{
    (ex_style & !WS_EX_APPWINDOW) | WS_EX_TOOLWINDOW
}

/// True when the tool-window bit is present.
pub fn is_widget_frame(ex_style: isize) -> (r: bool)
    ensures
        r == (ex_style & WS_EX_TOOLWINDOW != 0),
{
    ex_style & WS_EX_TOOLWINDOW != 0
}

/// The documented Shell taskbar rule: a child window is never on the
/// taskbar; with the tool-window bit, only the app-window bit (which wins)
/// puts it there; otherwise the app-window bit or having no owner does.
pub open spec fn taskbar_rule(ex_style: isize, has_owner: bool, is_child: bool) -> bool {
    if is_child {
        false
    } else if ex_style & WS_EX_TOOLWINDOW != 0 {
        ex_style & WS_EX_APPWINDOW != 0
    } else {
        ex_style & WS_EX_APPWINDOW != 0 || !has_owner
    }
}

/// Whether Windows would give a window with these facts a taskbar button.
pub fn taskbar_eligible_from(ex_style: isize, has_owner: bool, is_child: bool) -> (r: bool)
    ensures
        r == taskbar_rule(ex_style, has_owner, is_child),
{
    if is_child {
        return false;
    }
    let app_window = ex_style & WS_EX_APPWINDOW != 0;
    if is_widget_frame(ex_style) {
        return app_window;
    }
    app_window || !has_owner
}

/// Whether Windows lists such a window in Alt+Tab (the same tests decide it).
pub fn alt_tab_eligible_from(ex_style: isize, has_owner: bool, is_child: bool) -> (r: bool)
    ensures
        r == taskbar_rule(ex_style, has_owner, is_child),
{
    taskbar_eligible_from(ex_style, has_owner, is_child)
}

/// Re-asserting the widget style changes nothing, and bits other than the
/// two it governs are never touched.
pub proof fn widget_style_is_idempotent_and_local(ex_style: isize, other: isize)
    requires
        other & WS_EX_APPWINDOW == 0,
        other & WS_EX_TOOLWINDOW == 0,
    ensures
        ((((ex_style & !WS_EX_APPWINDOW) | WS_EX_TOOLWINDOW) & !WS_EX_APPWINDOW) | WS_EX_TOOLWINDOW)
            == ((ex_style & !WS_EX_APPWINDOW) | WS_EX_TOOLWINDOW),
        ((((ex_style & !WS_EX_APPWINDOW) | WS_EX_TOOLWINDOW)) & other) == (ex_style & other),
{
    assert(((((ex_style & !0x0004_0000isize) | 0x80isize) & !0x0004_0000isize) | 0x80isize)
        == ((ex_style & !0x0004_0000isize) | 0x80isize)) by (bit_vector);
    assert(other & 0x0004_0000isize == 0 && other & 0x80isize == 0
        ==> (((ex_style & !0x0004_0000isize) | 0x80isize) & other) == (ex_style & other)) by (bit_vector);
}

/// After enforcement the window carries the tool-window bit and not the
/// app-window bit, so no widget presentation is on the taskbar or in
/// Alt+Tab, whatever its owner and whether or not it is a child.
pub proof fn enforced_style_is_taskbar_free(ex_style: isize, has_owner: bool, is_child: bool)
    ensures
        ((ex_style & !WS_EX_APPWINDOW) | WS_EX_TOOLWINDOW) & WS_EX_APPWINDOW == 0,
        ((ex_style & !WS_EX_APPWINDOW) | WS_EX_TOOLWINDOW) & WS_EX_TOOLWINDOW != 0,
        !taskbar_rule((ex_style & !WS_EX_APPWINDOW) | WS_EX_TOOLWINDOW, has_owner, is_child),
{
    assert(((ex_style & !0x0004_0000isize) | 0x80isize) & 0x0004_0000isize == 0) by (bit_vector);
    assert(((ex_style & !0x0004_0000isize) | 0x80isize) & 0x80isize != 0) by (bit_vector);
}

/// What enforcing the widget frame observed: whether this call installed the
/// style guard (false when it only re-asserted), the extended style before and
/// after as the host printed them, whether the tool-window bit is enforced,
/// whether clearing the app-window bit succeeded, and what the taskbar rule
/// says about the window now.
pub struct WidgetFrameReport {
    pub installed: bool,
    pub ex_style_before: String,
    pub ex_style_after: String,
    pub enforces_tool_window: bool,
    pub clearing_succeeded: bool,
    pub taskbar_eligible: bool,
}

pub open spec fn flag_text(b: bool) -> Seq<char> {
    if b { "true"@ } else { "false"@ }
}

fn flag_str(b: bool) -> (r: &'static str)
    ensures
        r@ == flag_text(b),
{
    if b { "true" } else { "false" }
}

impl WidgetFrameReport {
    /// The one-line record for the diagnostics stream.
    pub fn summary(&self) -> (r: String)
        ensures
            r@ == "widget_frame installed="@ + flag_text(self.installed) + " ex_style "@
                + self.ex_style_before@ + " -> "@ + self.ex_style_after@ + " tool_window="@
                + flag_text(self.enforces_tool_window) + " app_window_cleared="@
                + flag_text(self.clearing_succeeded) + " taskbar_eligible="@ + flag_text(self.taskbar_eligible),
    {
        let a = concat2("widget_frame installed=", flag_str(self.installed));
        let b = concat2(a.as_str(), " ex_style ");
        let c = concat2(b.as_str(), self.ex_style_before.as_str());
        let d = concat2(c.as_str(), " -> ");
        let e = concat2(d.as_str(), self.ex_style_after.as_str());
        let f = concat2(e.as_str(), " tool_window=");
        let g = concat2(f.as_str(), flag_str(self.enforces_tool_window));
        let h = concat2(g.as_str(), " app_window_cleared=");
        let i = concat2(h.as_str(), flag_str(self.clearing_succeeded));
        let j = concat2(i.as_str(), " taskbar_eligible=");
        let r = concat2(j.as_str(), flag_str(self.taskbar_eligible));
        r
    }
}

} // verus!
