//! Native backdrop material policy: one resolved backend from the requested
//! material, the host presentation and the platform capability.
use vstd::prelude::*;
use crate::platform::NativeHost;

verus! {

#[derive(Clone, Copy, Debug, PartialEq, Eq, Structural)]
pub enum RequestedMaterial {
    Glass,
    Other,
}

#[derive(Clone, Copy, Debug, PartialEq, Eq, Structural)]
pub enum ResolvedMaterial {
    DesktopAcrylic,
    TransparentOrb,
    ExistingProductMaterial,
    GlassFallback,
}

/// What the platform offers.
#[derive(Clone, Copy, Debug, PartialEq, Eq, Structural)]
pub struct PlatformCapabilities {
    pub desktop_acrylic_supported: bool,
}

/// Glass on the expanded Floating window uses Desktop Acrylic when the
/// platform supports it (a fallback otherwise); Glass on the Orb is a
/// transparent orb; everything else keeps the product's own material.
pub open spec fn resolve_spec(requested: RequestedMaterial, host: NativeHost, caps: PlatformCapabilities) -> ResolvedMaterial {
    if requested == RequestedMaterial::Glass && host == NativeHost::FloatingExpanded {
        if caps.desktop_acrylic_supported { ResolvedMaterial::DesktopAcrylic } else { ResolvedMaterial::GlassFallback }
    } else if requested == RequestedMaterial::Glass && host == NativeHost::FloatingCollapsed {
        ResolvedMaterial::TransparentOrb
    } else {
        ResolvedMaterial::ExistingProductMaterial
    }
}

/// Resolves the backdrop material.
pub fn resolve(requested: RequestedMaterial, host: NativeHost, capabilities: PlatformCapabilities) -> (r: ResolvedMaterial)
    ensures
        r == resolve_spec(requested, host, capabilities),
{
    match (requested, host, capabilities.desktop_acrylic_supported) {
        (RequestedMaterial::Glass, NativeHost::FloatingExpanded, true) => ResolvedMaterial::DesktopAcrylic,
        (RequestedMaterial::Glass, NativeHost::FloatingExpanded, false) => ResolvedMaterial::GlassFallback,
        (RequestedMaterial::Glass, NativeHost::FloatingCollapsed, _) => ResolvedMaterial::TransparentOrb,
        _ => ResolvedMaterial::ExistingProductMaterial,
    }
}

/// Only an expanded Floating Glass window on a supporting platform may
/// create the Desktop Acrylic controller.
pub proof fn acrylic_only_for_floating_expanded(requested: RequestedMaterial, host: NativeHost, caps: PlatformCapabilities)
    ensures
        resolve_spec(requested, host, caps) == ResolvedMaterial::DesktopAcrylic
            <==> (requested == RequestedMaterial::Glass && host == NativeHost::FloatingExpanded && caps.desktop_acrylic_supported),
{
}

} // verus!
