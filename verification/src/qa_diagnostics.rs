//! QA diagnostics records: the fixed vocabulary the frontend may report,
//! the single-line sanitizing of error text, and the build-mode facts the
//! log states. Writing the log is the host's job.
use vstd::prelude::*;
use crate::text::{chars_vec, concat2, decimal, decimal_string, owned, push_char, signed_decimal_string, starts_with, str_eq};

verus! {

/// Error text on one line: CR and LF become spaces.
pub open spec fn single_line(s: Seq<char>) -> Seq<char> {
    s.map_values(|c: char| if c == '\r' || c == '\n' { ' ' } else { c })
}

/// Replaces line breaks so a record cannot span lines.
pub fn sanitize_error(error: &str) -> (r: String)
    ensures
        r@ == single_line(error@),
{
    let error_chars = chars_vec(error);
    let n = error.unicode_len();
    let mut out = String::new();
    let mut i: usize = 0;
    while i < n
        invariant
            error_chars@ == error@,
            n == error@.len(),
            i <= n,
            out@ == single_line(error@.take(i as int)),
        decreases n - i,
    {
        let c = error_chars[i];
        push_char(&mut out, if c == '\r' || c == '\n' { ' ' } else { c });
        assert(out@ =~= single_line(error@.take(i + 1)));
        i = i + 1;
    }
    assert(error@.take(n as int) =~= error@);
    out
}

/// One panic record: `panic=<message>`.
pub fn panic_record(message: &str) -> (r: String)
    ensures
        r@ == "panic="@ + message@,
{
    concat2("panic=", message)
}

/// The input kinds the frontend may report; anything else is `other`, so the
/// channel can never carry user content.
pub open spec fn input_kind(kind: Seq<char>) -> Seq<char> {
    if kind == "pointerdown"@ || kind == "contextmenu"@ || kind == "add_submit_enter"@
        || kind == "add_submit_click"@ || kind == "add_empty_title"@ || kind == "add_invoke_start"@
        || kind == "add_invoke_ok"@ || kind == "add_invoke_err"@ || kind == "add_reload_ok"@
        || kind == "drag_pointerdown"@ || kind == "drag_pointermove"@ || kind == "drag_pointerup"@
        || kind == "drag_reorder_start"@ || kind == "drag_reorder_ok"@ || kind == "drag_reorder_err"@
        || kind == "drag_pointercancel"@ {
        kind
    } else {
        "other"@
    }
}

fn known_input_kind(kind: &str) -> (r: bool)
    ensures
        r == ((kind@ == "pointerdown"@ || kind@ == "contextmenu"@
            || kind@ == "add_submit_enter"@ || kind@ == "add_submit_click"@ || kind@ == "add_empty_title"@
            || kind@ == "add_invoke_start"@ || kind@ == "add_invoke_ok"@ || kind@ == "add_invoke_err"@
            || kind@ == "add_reload_ok"@ || kind@ == "drag_pointerdown"@ || kind@ == "drag_pointermove"@
            || kind@ == "drag_pointerup"@ || kind@ == "drag_reorder_start"@ || kind@ == "drag_reorder_ok"@
            || kind@ == "drag_reorder_err"@ || kind@ == "drag_pointercancel"@)),
{
    str_eq(kind, "pointerdown") || str_eq(kind, "contextmenu") || str_eq(kind, "add_submit_enter")
        || str_eq(kind, "add_submit_click") || str_eq(kind, "add_empty_title") || str_eq(kind, "add_invoke_start")
        || str_eq(kind, "add_invoke_ok") || str_eq(kind, "add_invoke_err") || str_eq(kind, "add_reload_ok")
        || str_eq(kind, "drag_pointerdown") || str_eq(kind, "drag_pointermove") || str_eq(kind, "drag_pointerup")
        || str_eq(kind, "drag_reorder_start") || str_eq(kind, "drag_reorder_ok") || str_eq(kind, "drag_reorder_err")
        || str_eq(kind, "drag_pointercancel")
}

/// The record a frontend input report becomes: `key:<name>` reports the key
/// the WebView delivered; any other kind is reduced to the fixed vocabulary.
pub fn frontend_input_record(kind: &str) -> (r: String)
    ensures
        crate::text::has_prefix(kind@, "key:"@) ==> r@ == "frontend_key_received="@ + kind@.skip(4),
        !crate::text::has_prefix(kind@, "key:"@) ==> r@ == "frontend_input_received="@ + input_kind(kind@),
{
    proof {
        reveal_strlit("key:");
    }
    if starts_with(kind, "key:") {
        let n = kind.unicode_len();
        let key = kind.substring_char(4, n);
        assert(key@ =~= kind@.skip(4));
        return concat2("frontend_key_received=", key);
    }
    if known_input_kind(kind) {
        concat2("frontend_input_received=", kind)
    } else {
        concat2("frontend_input_received=", "other")
    }
}

/// `dev-server` for a build that navigates to the dev URL, else `embedded`.
pub fn frontend_asset_mode(dev: bool) -> (r: &'static str)
    ensures
        r@ == if dev { "dev-server"@ } else { "embedded"@ },
{
    if dev { "dev-server" } else { "embedded" }
}

/// True when the binary serves the embedded frontend.
pub fn serves_embedded_frontend(dev: bool) -> (r: bool)
    ensures
        r == !dev,
{
    !dev
}

/// The warning an optimized build without the embedded frontend records
/// (such a binary renders nothing without a dev server); none otherwise.
pub fn warn_if_release_without_embedded_frontend(debug_assertions: bool, dev: bool) -> (r: Option<&'static str>)
    ensures
        r is Some <==> (!debug_assertions && dev),
        r matches Some(m) ==> m@ == "[frontend] WARNING release_profile_without_custom_protocol=true frontend_asset_mode=dev-server this binary will navigate to build.devUrl and render nothing without a dev server; build with: cargo build --release --features custom-protocol"@,
{
    if debug_assertions || serves_embedded_frontend(dev) {
        return None;
    }
    Some("[frontend] WARNING release_profile_without_custom_protocol=true frontend_asset_mode=dev-server this binary will navigate to build.devUrl and render nothing without a dev server; build with: cargo build --release --features custom-protocol")
}

/// The record of the chosen rendering backend.
pub fn rendering_backend_record(requested: &str, effective: &str, source: &str) -> (r: String)
    ensures
        r@ == "[rendering] requested_backend="@ + requested@ + " effective_backend="@ + effective@
            + " selection_source="@ + source@,
{
    let a = concat2("[rendering] requested_backend=", requested);
    let b = concat2(a.as_str(), " effective_backend=");
    let c = concat2(b.as_str(), effective);
    let d = concat2(c.as_str(), " selection_source=");
    let r = concat2(d.as_str(), source);
    assert(r@ =~= "[rendering] requested_backend="@ + requested@ + " effective_backend="@ + effective@
        + " selection_source="@ + source@);
    r
}

/// The record written when the frontend reports it is ready.
pub fn frontend_ready_record(timestamp_ms: u128) -> (r: String)
    ensures
        r@ == "frontend_ready=true timestamp_ms="@ + decimal(timestamp_ms as nat),
{
    let digits = decimal_string(timestamp_ms);
    concat2("frontend_ready=true timestamp_ms=", digits.as_str())
}

/// The record that opens a QA session.
pub fn session_start_record(dev: bool) -> (r: String)
    ensures
        r@ == "qa_session_start=true frontend_asset_mode="@ + (if dev { "dev-server"@ } else { "embedded"@ }),
{
    concat2("qa_session_start=true frontend_asset_mode=", frontend_asset_mode(dev))
}

/// The line recorded before the WebView exists.
pub const WEBVIEW_PENDING_RECORD: &'static str = "webview_created=false webview_navigation_started=false webview_navigation_completed=false frontend_ready=false";

/// A QA session: the log it appends to (none when the executable's folder is
/// unknown) and whether the frontend has reported ready. Each method returns
/// the lines to append; writing them is the host's job.
pub struct QaDiagnostics {
    pub log_path: Option<String>,
    pub frontend_ready: bool,
}

impl QaDiagnostics {
    /// Opens a session logging to `log_path`, with the two lines that start
    /// every log: the session marker and the not-yet-created WebView state.
    pub fn from_process_args(log_path: Option<String>, dev: bool) -> (r: (QaDiagnostics, Vec<String>))
        ensures
            r.0.log_path == log_path,
            !r.0.frontend_ready,
            r.1@.len() == 2,
            r.1@[0]@ == "qa_session_start=true frontend_asset_mode="@
                + (if dev { "dev-server"@ } else { "embedded"@ }),
            r.1@[1]@ == WEBVIEW_PENDING_RECORD@,
    {
        let mut lines: Vec<String> = Vec::new();
        lines.push(session_start_record(dev));
        lines.push(owned(WEBVIEW_PENDING_RECORD));
        (QaDiagnostics { log_path, frontend_ready: false }, lines)
    }

    /// The line naming the rendering backend the app decided to host with.
    pub fn record_rendering_backend(&self, requested: &str, effective: &str, source: &str) -> (r: String)
        ensures
            r@ == "[rendering] requested_backend="@ + requested@ + " effective_backend="@ + effective@
                + " selection_source="@ + source@,
    {
        rendering_backend_record(requested, effective, source)
    }

    /// Marks the frontend ready and returns the line that records it.
    pub fn record_frontend_ready(&mut self, timestamp_ms: u128) -> (r: String)
        ensures
            final(self).frontend_ready,
            final(self).log_path == old(self).log_path,
            r@ == "frontend_ready=true timestamp_ms="@ + decimal(timestamp_ms as nat),
    {
        self.frontend_ready = true;
        frontend_ready_record(timestamp_ms)
    }
}

/// `left,top,WxH` of a rectangle, a negative extent shown as 0.
pub open spec fn rect_text(left: i32, top: i32, right: i32, bottom: i32) -> Seq<char> {
    let w = if right - left > 0 { right - left } else { 0 };
    let h = if bottom - top > 0 { bottom - top } else { 0 };
    signed_text(left as int) + ","@ + signed_text(top as int) + ","@ + decimal(w as nat) + "x"@ + decimal(h as nat)
}

/// An integer in decimal, with a leading minus when negative.
pub open spec fn signed_text(n: int) -> Seq<char> {
    if n < 0 { seq!['-'] + decimal((-n) as nat) } else { decimal(n as nat) }
}

/// Formats a window rectangle for the log. The extents are computed in `i32`,
/// so they must fit there.
pub fn format_rect(left: i32, top: i32, right: i32, bottom: i32) -> (r: String)
    requires
        i32::MIN <= right - left <= i32::MAX,
        i32::MIN <= bottom - top <= i32::MAX,
    ensures
        r@ == rect_text(left, top, right, bottom),
{
    let width: i32 = if right - left > 0 { right - left } else { 0 };
    let height: i32 = if bottom - top > 0 { bottom - top } else { 0 };
    let l = signed_decimal_string(left as i64);
    let t = signed_decimal_string(top as i64);
    let w = decimal_string(width as u128);
    let h = decimal_string(height as u128);
    let a = concat2(l.as_str(), ",");
    let b = concat2(a.as_str(), t.as_str());
    let c = concat2(b.as_str(), ",");
    let d = concat2(c.as_str(), w.as_str());
    let e = concat2(d.as_str(), "x");
    let r = concat2(e.as_str(), h.as_str());
    proof {
        reveal_strlit(",");
        reveal_strlit("x");
    }
    assert(r@ =~= rect_text(left, top, right, bottom));
    r
}

} // verus!
