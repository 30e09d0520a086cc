//! Pure window-platform rules of the product window: mouse input decoding
//! for a composition-hosted WebView, the repair that keeps the product window
//! reachable for the pointer, native material resolution, and the widget
//! (tool-window) frame semantics. The Win32 calls that apply them belong to
//! the host.
pub mod input;
pub mod input_target;
pub mod material;
pub mod widget_frame;
pub mod composition;

use vstd::prelude::*;

verus! {

/// Product-level description of which native host the window is in.
#[derive(Clone, Copy, Debug, PartialEq, Eq, Structural)]
pub enum NativeHost {
    FloatingExpanded,
    FloatingCollapsed,
    Sidebar,
    Desktop,
}

} // verus!
