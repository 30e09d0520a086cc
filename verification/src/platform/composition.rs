//! Decisions of the composition host around the native window context: which
//! material path a request takes, which window the context belongs to, and
//! what the host reports about itself. The COM objects stay with the host.
use vstd::prelude::*;
use crate::platform::NativeHost;
use crate::platform::material::{resolve, resolve_spec, PlatformCapabilities, RequestedMaterial, ResolvedMaterial};
use crate::text::{concat2, str_eq};

verus! {

/// The material a request asks for.
pub open spec fn requested_of(requested_glass: bool) -> RequestedMaterial {
    if requested_glass { RequestedMaterial::Glass } else { RequestedMaterial::Other }
}

/// Only Glass on the expanded Floating window goes to the native backend;
/// every other request keeps the product's material, resolved as if the
/// platform had no Desktop Acrylic (`Some` of that resolution).
pub fn material_route(requested_glass: bool, host: NativeHost) -> (r: Option<ResolvedMaterial>)
    ensures
        (requested_glass && host == NativeHost::FloatingExpanded) ==> r is None,
        !(requested_glass && host == NativeHost::FloatingExpanded) ==> r == Some(
            resolve_spec(requested_of(requested_glass), host, PlatformCapabilities { desktop_acrylic_supported: false }),
        ),
{
    if requested_glass && host == NativeHost::FloatingExpanded {
        return None;
    }
    let requested = if requested_glass { RequestedMaterial::Glass } else { RequestedMaterial::Other };
    Some(resolve(requested, host, PlatformCapabilities { desktop_acrylic_supported: false }))
}

/// The window the native context works on: the existing context's window,
/// which must be the requesting window, or the requesting window itself.
pub fn material_window(context_hwnd: Option<usize>, window_hwnd: usize) -> (r: Result<usize, String>)
    ensures
        match context_hwnd {
            Some(h) => if h == window_hwnd {
                r == Ok::<usize, String>(h)
            } else {
                r matches Err(e) && e@ == "native material context encountered an unexpected HWND replacement"@
            },
            None => r == Ok::<usize, String>(window_hwnd),
        },
{
    match context_hwnd {
        Some(h) => {
            if h != window_hwnd {
                return Err("native material context encountered an unexpected HWND replacement".to_string());
            }
            Ok(h)
        },
        None => Ok(window_hwnd),
    }
}

/// The generation of the next material controller.
pub fn next_generation(current: u64) -> (r: u64)
    requires
        current < u64::MAX,
    ensures
        r == current + 1,
{
    current + 1
}

/// The `{:?}` name of a resolved material.
pub open spec fn resolved_name(m: ResolvedMaterial) -> Seq<char> {
    match m {
        ResolvedMaterial::DesktopAcrylic => "DesktopAcrylic"@,
        ResolvedMaterial::TransparentOrb => "TransparentOrb"@,
        ResolvedMaterial::ExistingProductMaterial => "ExistingProductMaterial"@,
        ResolvedMaterial::GlassFallback => "GlassFallback"@,
    }
}

/// The `{:?}` name of a host.
pub open spec fn host_name(h: NativeHost) -> Seq<char> {
    match h {
        NativeHost::FloatingExpanded => "FloatingExpanded"@,
        NativeHost::FloatingCollapsed => "FloatingCollapsed"@,
        NativeHost::Sidebar => "Sidebar"@,
        NativeHost::Desktop => "Desktop"@,
    }
}

fn resolved_text(m: ResolvedMaterial) -> (r: &'static str)
    ensures
        r@ == resolved_name(m),
{
    match m {
        ResolvedMaterial::DesktopAcrylic => "DesktopAcrylic",
        ResolvedMaterial::TransparentOrb => "TransparentOrb",
        ResolvedMaterial::ExistingProductMaterial => "ExistingProductMaterial",
        ResolvedMaterial::GlassFallback => "GlassFallback",
    }
}

fn host_text(h: NativeHost) -> (r: &'static str)
    ensures
        r@ == host_name(h),
{
    match h {
        NativeHost::FloatingExpanded => "FloatingExpanded",
        NativeHost::FloatingCollapsed => "FloatingCollapsed",
        NativeHost::Sidebar => "Sidebar",
        NativeHost::Desktop => "Desktop",
    }
}

/// The log line of a request that keeps the product's material.
pub fn kept_material_record(requested_glass: bool, resolved: ResolvedMaterial, host: NativeHost) -> (r: String)
    ensures
        r@ == "[native-material] requested_material="@ + (if requested_glass { "Glass"@ } else { "non-Acrylic"@ })
            + " resolved_material="@ + resolved_name(resolved) + " native_backend=none window_mode="@ + host_name(host),
{
    let a = concat2("[native-material] requested_material=", if requested_glass { "Glass" } else { "non-Acrylic" });
    let b = concat2(a.as_str(), " resolved_material=");
    let c = concat2(b.as_str(), resolved_text(resolved));
    let d = concat2(c.as_str(), " native_backend=none window_mode=");
    concat2(d.as_str(), host_text(host))
}

/// What the host holds: no context, or a context with or without a visual
/// tree and a material controller.
#[derive(Debug)]
pub struct ContextStore {
    pub context: Option<WindowContextFacts>,
}

/// The facts of a live window context the host reports.
#[derive(Debug)]
pub struct WindowContextFacts {
    pub hwnd: usize,
    pub visual_present: bool,
    pub material: Option<MaterialFacts>,
}

/// The facts of a live material controller.
#[derive(Debug)]
pub struct MaterialFacts {
    pub target_attached: bool,
    pub state: String,
}

pub open spec fn bool_text(b: bool) -> Seq<char> {
    if b { "true"@ } else { "false"@ }
}

fn bool_str(b: bool) -> (r: &'static str)
    ensures
        r@ == bool_text(b),
{
    if b { "true" } else { "false" }
}

impl ContextStore {
    /// The one-line summary the diagnostics log records.
    pub fn diagnostic_summary(&self) -> (r: String)
        ensures
            r@ == match self.context {
                None => "desktop_window_target_created=false set_target=false controller_state=detached"@,
                Some(c) => match c.material {
                    None => "desktop_window_target_created=false set_target=false controller_state=none"@,
                    Some(m) => "desktop_window_target_created="@ + bool_text(c.visual_present) + " root_visual_retained="@
                        + bool_text(c.visual_present) + " set_target="@ + bool_text(m.target_attached)
                        + " controller_state="@ + m.state@,
                },
            },
    {
        match &self.context {
            None => "desktop_window_target_created=false set_target=false controller_state=detached".to_string(),
            Some(c) => match &c.material {
                None => "desktop_window_target_created=false set_target=false controller_state=none".to_string(),
                Some(m) => {
                    let a = concat2("desktop_window_target_created=", bool_str(c.visual_present));
                    let b = concat2(a.as_str(), " root_visual_retained=");
                    let d = concat2(b.as_str(), bool_str(c.visual_present));
                    let e = concat2(d.as_str(), " set_target=");
                    let f = concat2(e.as_str(), bool_str(m.target_attached));
                    let g = concat2(f.as_str(), " controller_state=");
                    concat2(g.as_str(), m.state.as_str())
                },
            },
        }
    }

    /// Decides a resize of the `main` WebView: other WebViews and a host
    /// without a visual tree are left alone (`Ok(false)`); a resize for
    /// another window is refused; otherwise the visual tree is resized to
    /// the client area (`Ok(true)`).
    pub fn resize_webview(&self, id: &str, hwnd_value: isize) -> (r: Result<bool, String>)
        ensures
            id@ != "main"@ ==> r == Ok::<bool, String>(false),
            id@ == "main"@ ==> match self.context {
                Some(c) => if !c.visual_present {
                    r == Ok::<bool, String>(false)
                } else if c.hwnd as isize != hwnd_value {
                    r matches Err(e) && e@ == "composition resize HWND mismatch"@
                } else {
                    r == Ok::<bool, String>(true)
                },
                None => r == Ok::<bool, String>(false),
            },
    {
        if !str_eq(id, "main") {
            return Ok(false);
        }
        match &self.context {
            None => Ok(false),
            Some(c) => {
                if !c.visual_present {
                    return Ok(false);
                }
                if c.hwnd as isize != hwnd_value {
                    return Err("composition resize HWND mismatch".to_string());
                }
                Ok(true)
            },
        }
    }
}

} // verus!
