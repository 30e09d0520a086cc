//! The product window's mode and presentation state machine and its integer
//! geometry: which transitions are allowed, what each one saves and applies,
//! which window events are persisted, and how saved rectangles, edge snapping
//! and work areas are decided. DIP/physical scaling (floating point) and the
//! window calls themselves belong to the host.
use vstd::prelude::*;
use crate::appearance::BackgroundType;
use crate::settings::{
    validate_quick_link_url, FloatingPresentation, ProductSettings, ProductWindowMode, QuickLink, SidebarSide,
};
use crate::text::{concat2, owned, str_eq};

verus! {

/// Edge length of the collapsed Floating Orb, in DIP.
pub const ORB_SIZE_DIP: u32 = 56;
/// Distance from a work-area edge within which a drag snaps to Sidebar.
pub const SNAP_THRESHOLD: i32 = 24;
/// Side of the square a saved rect must keep visible on some monitor.
pub const MIN_VISIBLE: i32 = 80;

/// Serializes mode and presentation transitions: while one is applying,
/// another is refused and window events are not persisted.
#[derive(Debug)]
pub struct ProductWindowRuntime {
    applying: bool,
}

impl ProductWindowRuntime {
    pub closed spec fn busy(&self) -> bool {
        self.applying
    }

    /// No transition in progress.
    pub fn new() -> (r: Self)
        ensures
            !r.busy(),
    {
        ProductWindowRuntime { applying: false }
    }

    /// Whether a transition is applying.
    pub fn applying(&self) -> (r: bool)
        ensures
            r == self.busy(),
    {
        self.applying
    }

    /// Starts a transition; refused while another one applies.
    pub fn begin(&mut self, what: &str) -> (r: Result<(), String>)
        ensures
            old(self).busy() ==> (r matches Err(e) && e@ == "window "@ + what@ + " transition already in progress"@)
                && final(self).busy(),
            !old(self).busy() ==> r is Ok && final(self).busy(),
    {
        if self.applying {
            let a = concat2("window ", what);
            return Err(concat2(a.as_str(), " transition already in progress"));
        }
        self.applying = true;
        Ok(())
    }

    /// Ends the transition (on every path, success or failure).
    pub fn end(&mut self)
        ensures
            !final(self).busy(),
    {
        self.applying = false;
    }
}

/// Native dragging is a Floating and Desktop capability, and only unlocked.
pub open spec fn drag_allowed(settings: ProductSettings) -> bool {
    (settings.mode == ProductWindowMode::Floating || settings.mode == ProductWindowMode::Desktop) && !settings.locked
}

/// True when the window may start a native drag.
pub fn window_drag_allowed(settings: &ProductSettings) -> (r: bool)
    ensures
        r == drag_allowed(*settings),
{
    (settings.mode == ProductWindowMode::Floating || settings.mode == ProductWindowMode::Desktop) && !settings.locked
}

/// Sidebar is always resizable (its width is the sidebar-width setting);
/// expanded Floating and Desktop are resizable while unlocked; the Orb never.
pub open spec fn resizable(mode: ProductWindowMode, settings: ProductSettings) -> bool {
    match mode {
        ProductWindowMode::Sidebar => true,
        ProductWindowMode::Floating => settings.floating_presentation == FloatingPresentation::Expanded && !settings.locked,
        ProductWindowMode::Desktop => !settings.locked,
    }
}

/// Whether the window exposes a sizing border in `mode`.
pub fn product_window_resizable(mode: ProductWindowMode, settings: &ProductSettings) -> (r: bool)
    ensures
        r == resizable(mode, *settings),
{
    match mode {
        ProductWindowMode::Sidebar => true,
        ProductWindowMode::Floating => {
            settings.floating_presentation == FloatingPresentation::Expanded && !settings.locked
        },
        ProductWindowMode::Desktop => !settings.locked,
    }
}

/// A locked Desktop widget can be neither dragged nor resized, and the Orb
/// is never resizable.
pub proof fn locked_desktop_is_fixed(settings: ProductSettings)
    requires
        settings.locked,
    ensures
        !resizable(ProductWindowMode::Desktop, settings),
        settings.mode == ProductWindowMode::Desktop ==> !drag_allowed(settings),
        !resizable(ProductWindowMode::Floating, ProductSettings {
            floating_presentation: FloatingPresentation::Collapsed,
            ..settings
        }),
{
}

/// The CSS material a window shows (no native effect is ever applied): a
/// translucent graphite for Glass on the Desktop, a transparent tint for
/// Glass on the Orb, the selected material otherwise.
pub fn composition_fallback(mode: ProductWindowMode, presentation: FloatingPresentation, background: BackgroundType) -> (r: &'static str)
    ensures
        r@ == if mode == ProductWindowMode::Desktop && background == BackgroundType::Glass {
            "translucent-graphite"@
        } else if mode == ProductWindowMode::Floating && presentation == FloatingPresentation::Collapsed
            && background == BackgroundType::Glass {
            "transparent-orb-tint"@
        } else {
            "selected-css-material"@
        },
{
    let glass = background == BackgroundType::Glass;
    if mode == ProductWindowMode::Desktop && glass {
        "translucent-graphite"
    } else if mode == ProductWindowMode::Floating && presentation == FloatingPresentation::Collapsed && glass {
        "transparent-orb-tint"
    } else {
        "selected-css-material"
    }
}

/// What entering a mode does, in order.
#[derive(Clone, Copy, Debug, PartialEq, Eq, Structural)]
pub struct ModePlan {
    /// Clear native effects before the Shell reparent (entering Desktop).
    pub composition_first: bool,
    /// Save the Desktop rect first (leaving Desktop).
    pub save_desktop_rect: bool,
    /// Save the expanded Floating rect first (expanded Floating to Desktop).
    pub save_floating_rect: bool,
    /// Settle the sizing border before the reparent (Desktop only).
    pub resizable_before_reparent: bool,
    pub shadow: bool,
    /// Minimum size in DIP.
    pub min_width: u32,
    pub min_height: u32,
    pub always_on_top: bool,
    pub resizable: bool,
    /// Refresh the composition after the mode is stored (all but Desktop).
    pub composition_after: bool,
}

/// The steps of a transition from the stored state to `target`.
pub open spec fn mode_plan_spec(settings: ProductSettings, target: ProductWindowMode) -> ModePlan {
    let desktop = target == ProductWindowMode::Desktop;
    let orb = target == ProductWindowMode::Floating && settings.floating_presentation == FloatingPresentation::Collapsed;
    ModePlan {
        composition_first: desktop,
        save_desktop_rect: settings.mode == ProductWindowMode::Desktop && !desktop,
        save_floating_rect: desktop && settings.mode == ProductWindowMode::Floating
            && settings.floating_presentation == FloatingPresentation::Expanded,
        resizable_before_reparent: desktop,
        shadow: !desktop && !orb,
        min_width: if orb { ORB_SIZE_DIP } else if target == ProductWindowMode::Sidebar { 320 } else { 360 },
        min_height: if orb { ORB_SIZE_DIP } else { 500 },
        always_on_top: !desktop && settings.always_on_top,
        resizable: resizable(target, settings),
        composition_after: !desktop,
    }
}

/// Plans a mode transition from the stored settings.
pub fn mode_plan(settings: &ProductSettings, target: ProductWindowMode) -> (p: ModePlan)
    ensures
        p == mode_plan_spec(*settings, target),
        target != ProductWindowMode::Desktop ==> p.always_on_top == settings.always_on_top,
        target == ProductWindowMode::Desktop ==> !p.always_on_top,
{
    let desktop = target == ProductWindowMode::Desktop;
    let orb = target == ProductWindowMode::Floating && settings.floating_presentation == FloatingPresentation::Collapsed;
    ModePlan {
        composition_first: desktop,
        save_desktop_rect: settings.mode == ProductWindowMode::Desktop && !desktop,
        save_floating_rect: desktop && settings.mode == ProductWindowMode::Floating
            && settings.floating_presentation == FloatingPresentation::Expanded,
        resizable_before_reparent: desktop,
        shadow: !desktop && !orb,
        min_width: if orb { ORB_SIZE_DIP } else if target == ProductWindowMode::Sidebar { 320 } else { 360 },
        min_height: if orb { ORB_SIZE_DIP } else { 500 },
        always_on_top: !desktop && settings.always_on_top,
        resizable: product_window_resizable(target, settings),
        composition_after: !desktop,
    }
}

/// A Desktop widget is never always-on-top and always has its effects
/// cleared before it is reparented.
pub proof fn desktop_is_never_topmost(settings: ProductSettings)
    ensures
        !mode_plan_spec(settings, ProductWindowMode::Desktop).always_on_top,
        mode_plan_spec(settings, ProductWindowMode::Desktop).composition_first,
        !mode_plan_spec(settings, ProductWindowMode::Desktop).composition_after,
{
}

/// Outside the Desktop the window keeps the user's always-on-top setting,
/// in the Sidebar and in both Floating presentations (the Orb included); on
/// the Desktop it is never topmost. Sidebar and expanded Floating cast a
/// shadow, the Orb and the Desktop do not; the Orb's minimum size is the
/// Orb itself, the Sidebar's 320×500 and the others' 360×500. Only the
/// Desktop transition clears effects first and reparents.
pub proof fn mode_plan_per_target(settings: ProductSettings, target: ProductWindowMode)
    ensures
        ({
            let p = mode_plan_spec(settings, target);
            let collapsed = settings.floating_presentation == FloatingPresentation::Collapsed;
            &&& target != ProductWindowMode::Desktop ==> p.always_on_top == settings.always_on_top
            &&& target == ProductWindowMode::Desktop ==> !p.always_on_top && !p.shadow && p.min_width == 360
                && p.min_height == 500 && p.composition_first && p.resizable_before_reparent && !p.composition_after
            &&& target == ProductWindowMode::Sidebar ==> p.shadow && p.min_width == 320 && p.min_height == 500
                && p.resizable && !p.composition_first && p.composition_after
            &&& target == ProductWindowMode::Floating && collapsed ==> !p.shadow && p.min_width == ORB_SIZE_DIP
                && p.min_height == ORB_SIZE_DIP && !p.resizable && p.composition_after
            &&& target == ProductWindowMode::Floating && !collapsed ==> p.shadow && p.min_width == 360
                && p.min_height == 500 && p.resizable == !settings.locked && p.composition_after
        }),
{
}

/// What a presentation change does.
#[derive(Clone, Copy, Debug, PartialEq, Eq, Structural)]
pub enum PresentationStep {
    /// Already in that presentation.
    Unchanged,
    /// Save the expanded rect, then shrink to the Orb (fixed size, no shadow).
    Collapse,
    /// Restore the expanded rect; resizable exactly while unlocked.
    Expand { resizable: bool },
}

/// Floating presentations exist only in Floating mode.
pub fn presentation_step(settings: &ProductSettings, target: FloatingPresentation) -> (r: Result<PresentationStep, String>)
    ensures
        settings.mode != ProductWindowMode::Floating
            ==> (r matches Err(e) && e@ == "Floating presentation is only available in Floating mode"@),
        settings.mode == ProductWindowMode::Floating ==> r == Ok::<PresentationStep, String>(
            if settings.floating_presentation == target {
                PresentationStep::Unchanged
            } else if target == FloatingPresentation::Collapsed {
                PresentationStep::Collapse
            } else {
                PresentationStep::Expand { resizable: !settings.locked }
            },
        ),
{
    if settings.mode != ProductWindowMode::Floating {
        return Err("Floating presentation is only available in Floating mode".to_string());
    }
    if settings.floating_presentation == target {
        return Ok(PresentationStep::Unchanged);
    }
    match target {
        FloatingPresentation::Collapsed => Ok(PresentationStep::Collapse),
        FloatingPresentation::Expanded => Ok(PresentationStep::Expand { resizable: !settings.locked }),
    }
}

/// The first link carrying `id` sits at index `i`.
pub open spec fn first_link_at(links: Seq<QuickLink>, id: Seq<char>, i: int) -> bool {
    &&& 0 <= i < links.len()
    &&& links[i].id@ == id
    &&& forall|j: int| 0 <= j < i ==> #[trigger] links[j].id@ != id
}

/// The URL a Quick Link opens: the first link with that id, revalidated.
pub fn quick_link_target(links: &Vec<QuickLink>, id: &str) -> (r: Result<String, String>)
    ensures
        (forall|i: int| 0 <= i < links@.len() ==> #[trigger] links@[i].id@ != id@)
            ==> (r matches Err(e) && e@ == "quick link not found: "@ + id@),
        forall|i: int| #[trigger] first_link_at(links@, id@, i) ==> match crate::settings::url_refusal(links@[i].url@) {
            Some(msg) => r matches Err(e) && e@ == msg,
            None => r matches Ok(u) && u@ == links@[i].url@,
        },
{
    let mut i: usize = 0;
    while i < links.len()
        invariant
            i <= links@.len(),
            forall|j: int| 0 <= j < i ==> #[trigger] links@[j].id@ != id@,
        decreases links.len() - i,
    {
        if str_eq(links[i].id.as_str(), id) {
            assert(first_link_at(links@, id@, i as int));
            assert forall|k: int| #[trigger] first_link_at(links@, id@, k) implies k == i by {
                if k < i {
                    assert(links@[k].id@ != id@);
                } else if k > i {
                    assert(links@[i as int].id@ != id@);
                }
            }
            let url = links[i].url.as_str();
            validate_quick_link_url(url)?;
            return Ok(owned(url));
        }
        i = i + 1;
    }
    assert forall|k: int| #[trigger] first_link_at(links@, id@, k) implies false by {
        assert(links@[k].id@ != id@);
    }
    Err(concat2("quick link not found: ", id))
}

/// What a `Moved` event persists.
#[derive(Clone, Copy, Debug, PartialEq, Eq, Structural)]
pub enum MoveEffect {
    /// A transition is applying, or the event is stale: nothing.
    Ignore,
    /// The expanded window was dragged to an edge: become the Sidebar there.
    SnapToSidebar(SidebarSide),
    /// Save the Orb anchor.
    PersistOrb,
    /// Save the expanded position.
    PersistExpanded,
    /// Save the Desktop rect.
    PersistDesktop,
    /// Sidebar positions are not persisted.
    Nothing,
}

/// Decides what a `Moved` event persists. `stale` is true when the window is
/// no longer at the reported position; `snap` is the edge the expanded window
/// was dropped on, if any.
pub fn moved_effect(busy: bool, stale: bool, settings: &ProductSettings, snap: Option<SidebarSide>) -> (r: MoveEffect)
    ensures
        r == if busy || stale {
            MoveEffect::Ignore
        } else if settings.mode == ProductWindowMode::Floating
            && settings.floating_presentation == FloatingPresentation::Expanded && !settings.locked && snap is Some {
            MoveEffect::SnapToSidebar(snap->0)
        } else if settings.mode == ProductWindowMode::Floating {
            if settings.floating_presentation == FloatingPresentation::Collapsed {
                MoveEffect::PersistOrb
            } else {
                MoveEffect::PersistExpanded
            }
        } else if settings.mode == ProductWindowMode::Desktop {
            MoveEffect::PersistDesktop
        } else {
            MoveEffect::Nothing
        },
{
    if busy || stale {
        return MoveEffect::Ignore;
    }
    if settings.mode == ProductWindowMode::Floating && settings.floating_presentation == FloatingPresentation::Expanded
        && !settings.locked {
        if let Some(side) = snap {
            return MoveEffect::SnapToSidebar(side);
        }
    }
    if settings.mode == ProductWindowMode::Floating {
        match settings.floating_presentation {
            FloatingPresentation::Collapsed => MoveEffect::PersistOrb,
            FloatingPresentation::Expanded => MoveEffect::PersistExpanded,
        }
    } else if settings.mode == ProductWindowMode::Desktop {
        MoveEffect::PersistDesktop
    } else {
        MoveEffect::Nothing
    }
}

/// What a `Resized` event persists.
#[derive(Clone, Copy, Debug, PartialEq, Eq, Structural)]
pub enum ResizeEffect {
    Ignore,
    /// The new width is the sidebar width (clamped to 320..=560 DIP).
    SidebarWidth,
    /// The new size is the expanded Floating size.
    ExpandedSize,
    /// Save the Desktop rect.
    PersistDesktop,
    /// The Orb's size is fixed.
    Nothing,
}

/// Decides what a `Resized` event persists.
pub fn resized_effect(busy: bool, stale: bool, settings: &ProductSettings) -> (r: ResizeEffect)
    ensures
        r == if busy || stale {
            ResizeEffect::Ignore
        } else {
            match settings.mode {
                ProductWindowMode::Sidebar => ResizeEffect::SidebarWidth,
                ProductWindowMode::Floating => if settings.floating_presentation == FloatingPresentation::Expanded {
                    ResizeEffect::ExpandedSize
                } else {
                    ResizeEffect::Nothing
                },
                ProductWindowMode::Desktop => ResizeEffect::PersistDesktop,
            }
        },
{
    if busy || stale {
        return ResizeEffect::Ignore;
    }
    match settings.mode {
        ProductWindowMode::Sidebar => ResizeEffect::SidebarWidth,
        ProductWindowMode::Floating => if settings.floating_presentation == FloatingPresentation::Expanded {
            ResizeEffect::ExpandedSize
        } else {
            ResizeEffect::Nothing
        },
        ProductWindowMode::Desktop => ResizeEffect::PersistDesktop,
    }
}

/// A monitor's work area in physical pixels.
#[derive(Clone, Debug)]
pub struct WorkArea {
    pub identity: Option<String>,
    pub x: i32,
    pub y: i32,
    pub width: u32,
    pub height: u32,
}

/// A window rectangle in physical pixels.
#[derive(Clone, Copy, Debug, PartialEq, Eq, Structural)]
pub struct WindowRect {
    pub x: i32,
    pub y: i32,
    pub width: u32,
    pub height: u32,
}

/// The area's size and far edges are `i32` pixel values, as the pixel
/// arithmetic on it (`x + width as i32`) needs.
pub open spec fn area_ok(a: WorkArea) -> bool {
    a.width <= i32::MAX && a.height <= i32::MAX && a.x + a.width <= i32::MAX && a.y + a.height <= i32::MAX
}

/// The rect's size and far edges are `i32` pixel values.
pub open spec fn rect_ok(r: WindowRect) -> bool {
    r.width <= i32::MAX && r.height <= i32::MAX && r.x + r.width <= i32::MAX && r.y + r.height <= i32::MAX
}

/// The point lies inside the work area.
pub open spec fn point_in_area_spec(x: int, y: int, a: WorkArea) -> bool {
    x >= a.x && x < a.x + a.width && y >= a.y && y < a.y + a.height
}

/// True when the point lies inside the work area.
pub fn point_in_area(x: i32, y: i32, area: &WorkArea) -> (r: bool)
    requires
        area_ok(*area),
    ensures
        r == point_in_area_spec(x as int, y as int, *area),
{
    x >= area.x && x < area.x + area.width as i32 && y >= area.y && y < area.y + area.height as i32
}

pub open spec fn max_int(a: int, b: int) -> int {
    if a >= b { a } else { b }
}

pub open spec fn min_int(a: int, b: int) -> int {
    if a <= b { a } else { b }
}

/// The area of the part of the window visible on the work area.
pub open spec fn visible_intersection_spec(w: WindowRect, a: WorkArea) -> int {
    let left = max_int(w.x as int, a.x as int);
    let top = max_int(w.y as int, a.y as int);
    let right = min_int(w.x + w.width, a.x + a.width);
    let bottom = min_int(w.y + w.height, a.y + a.height);
    max_int(right - left, 0) * max_int(bottom - top, 0)
}

fn visible_intersection(window: WindowRect, area: &WorkArea) -> (r: i64)
    requires
        rect_ok(window),
        area_ok(*area),
    ensures
        r as int == visible_intersection_spec(window, *area),
{
    let wx = window.x as i64;
    let wy = window.y as i64;
    let left = if wx >= area.x as i64 { wx } else { area.x as i64 };
    let top = if wy >= area.y as i64 { wy } else { area.y as i64 };
    let wr = wx + window.width as i64;
    let ar = area.x as i64 + area.width as i64;
    let right = if wr <= ar { wr } else { ar };
    let wb = wy + window.height as i64;
    let ab = area.y as i64 + area.height as i64;
    let bottom = if wb <= ab { wb } else { ab };
    let w = if right - left >= 0 { right - left } else { 0 };
    let h = if bottom - top >= 0 { bottom - top } else { 0 };
    assert(0 <= w <= i32::MAX && 0 <= h <= i32::MAX);
    assert(w * h <= 0x7fff_ffff * 0x7fff_ffff) by (nonlinear_arith)
        requires
            0 <= w <= 0x7fff_ffff,
            0 <= h <= 0x7fff_ffff,
    ;
    w * h
}

/// Some work area shows at least an 80×80 part of the rect.
pub open spec fn still_visible(saved: WindowRect, areas: Seq<WorkArea>) -> bool {
    exists|i: int| 0 <= i < areas.len() && #[trigger] visible_intersection_spec(saved, areas[i]) >= MIN_VISIBLE * MIN_VISIBLE
}

/// `a - b`, or 0 when `b` exceeds `a`.
pub open spec fn saturating_sub_spec(a: u32, b: u32) -> u32 {
    if a >= b { (a - b) as u32 } else { 0 }
}

/// A saved rect that is still visible (at least 80×80 on some monitor) is
/// kept; otherwise it is recovered to the fallback work area, 32 pixels in,
/// with its size limited to the area (but not below 360×500).
pub open spec fn validated_rect(saved: WindowRect, areas: Seq<WorkArea>, fallback: WorkArea) -> WindowRect {
    if still_visible(saved, areas) {
        saved
    } else {
        let w0 = if saved.width <= saturating_sub_spec(fallback.width, 32) { saved.width } else { saturating_sub_spec(fallback.width, 32) };
        let h0 = if saved.height <= saturating_sub_spec(fallback.height, 32) { saved.height } else { saturating_sub_spec(fallback.height, 32) };
        WindowRect {
            x: (fallback.x + 32) as i32,
            y: (fallback.y + 32) as i32,
            width: if w0 >= 360 { w0 } else { 360 },
            height: if h0 >= 500 { h0 } else { 500 },
        }
    }
}

/// Revalidates a saved rect against the current monitor topology.
pub fn validate_window_rect(saved: WindowRect, areas: &Vec<WorkArea>, fallback: &WorkArea) -> (r: WindowRect)
    requires
        rect_ok(saved),
        forall|i: int| 0 <= i < areas@.len() ==> area_ok(#[trigger] areas@[i]),
        !still_visible(saved, areas@) ==> fallback.x + 32 <= i32::MAX && fallback.y + 32 <= i32::MAX,
    ensures
        r == validated_rect(saved, areas@, *fallback),
        (exists|i: int| 0 <= i < areas@.len() && #[trigger] visible_intersection_spec(saved, areas@[i]) >= 6400) ==> r == saved,
{
    let mut i: usize = 0;
    while i < areas.len()
        invariant
            i <= areas@.len(),
            rect_ok(saved),
            forall|k: int| 0 <= k < areas@.len() ==> area_ok(#[trigger] areas@[k]),
            forall|k: int| 0 <= k < i ==> #[trigger] visible_intersection_spec(saved, areas@[k]) < MIN_VISIBLE * MIN_VISIBLE,
        decreases areas.len() - i,
    {
        if visible_intersection(saved, &areas[i]) >= 6400 {
            assert(visible_intersection_spec(saved, areas@[i as int]) >= MIN_VISIBLE * MIN_VISIBLE);
            return saved;
        }
        i = i + 1;
    }
    let fw = if fallback.width >= 32 { fallback.width - 32 } else { 0 };
    let fh = if fallback.height >= 32 { fallback.height - 32 } else { 0 };
    let w0 = if saved.width <= fw { saved.width } else { fw };
    let h0 = if saved.height <= fh { saved.height } else { fh };
    WindowRect {
        x: fallback.x + 32,
        y: fallback.y + 32,
        width: if w0 >= 360 { w0 } else { 360 },
        height: if h0 >= 500 { h0 } else { 500 },
    }
}

/// The rect is kept exactly when it is still visible, so a visible saved
/// rect survives revalidation unchanged.
pub proof fn visible_rect_is_kept(saved: WindowRect, areas: Seq<WorkArea>, fallback: WorkArea)
    requires
        still_visible(saved, areas),
    ensures
        validated_rect(saved, areas, fallback) == saved,
{
}

/// A saved rect of which some work area, at any position of the list, shows
/// an 80×80 square (`(px, py)` its top-left corner, inside both the rect and
/// the area) is kept unchanged.
pub proof fn rect_visible_on_any_monitor_is_kept(
    saved: WindowRect,
    areas: Seq<WorkArea>,
    fallback: WorkArea,
    i: int,
    px: int,
    py: int,
)
    requires
        0 <= i < areas.len(),
        saved.x <= px && px + 80 <= saved.x + saved.width,
        saved.y <= py && py + 80 <= saved.y + saved.height,
        areas[i].x <= px && px + 80 <= areas[i].x + areas[i].width,
        areas[i].y <= py && py + 80 <= areas[i].y + areas[i].height,
    ensures
        validated_rect(saved, areas, fallback) == saved,
{
    let w = saved;
    let a = areas[i];
    let width = min_int(w.x + w.width, a.x + a.width) - max_int(w.x as int, a.x as int);
    let height = min_int(w.y + w.height, a.y + a.height) - max_int(w.y as int, a.y as int);
    assert(width >= 80 && height >= 80);
    assert(width * height >= 6400) by (nonlinear_arith)
        requires
            width >= 80,
            height >= 80,
    ;
    assert(visible_intersection_spec(saved, areas[i]) >= MIN_VISIBLE * MIN_VISIBLE);
}

/// A saved rect that no work area shows at least 80×80 of is recovered onto
/// the fallback area: 32 pixels in from its top-left corner, at least
/// 360×500, and keeping its own size where that fits within the area less 32
/// pixels.
pub proof fn lost_rect_is_recovered_onto_the_fallback(saved: WindowRect, areas: Seq<WorkArea>, fallback: WorkArea)
    requires
        forall|i: int| 0 <= i < areas.len() ==> #[trigger] visible_intersection_spec(saved, areas[i]) < 6400,
        fallback.x + 32 <= i32::MAX && fallback.y + 32 <= i32::MAX,
    ensures
        ({
            let r = validated_rect(saved, areas, fallback);
            &&& r.x == fallback.x + 32 && r.y == fallback.y + 32
            &&& r.width >= 360 && r.height >= 500
            &&& (360 <= saved.width && saved.width + 32 <= fallback.width ==> r.width == saved.width)
            &&& (500 <= saved.height && saved.height + 32 <= fallback.height ==> r.height == saved.height)
            &&& (saved.width + 32 > fallback.width && fallback.width >= 392 ==> r.width + 32 == fallback.width)
            &&& (saved.height + 32 > fallback.height && fallback.height >= 532 ==> r.height + 32 == fallback.height)
        }),
{
}

/// The edge a window at `(x, y)` with `width` snaps to on one work area.
pub open spec fn snap_on(x: int, y: int, width: int, a: WorkArea) -> Option<SidebarSide> {
    if y < a.y - SNAP_THRESHOLD || y > a.y + a.height + SNAP_THRESHOLD {
        None
    } else if -SNAP_THRESHOLD <= x - a.x <= SNAP_THRESHOLD {
        Some(SidebarSide::Left)
    } else if -SNAP_THRESHOLD <= x + width - (a.x + a.width) <= SNAP_THRESHOLD {
        Some(SidebarSide::Right)
    } else {
        None
    }
}

/// The first work area (in order) whose edge the window is dropped on.
pub open spec fn snap_side_spec(x: int, y: int, width: int, areas: Seq<WorkArea>) -> Option<SidebarSide>
    decreases areas.len(),
{
    if areas.len() == 0 {
        None
    } else {
        match snap_on(x, y, width, areas[0]) {
            Some(s) => Some(s),
            None => snap_side_spec(x, y, width, areas.drop_first()),
        }
    }
}

/// A drop at `(x, y)` is near work area `a`'s left edge: vertically within
/// 24 pixels of the area, and its left edge within 24 pixels of the area's.
pub open spec fn near_left_edge(x: int, y: int, a: WorkArea) -> bool {
    a.y - 24 <= y <= a.y + a.height + 24 && a.x - 24 <= x <= a.x + 24
}

/// A drop at `(x, y)` of a window `width` wide is near work area `a`'s right
/// edge: vertically within 24 pixels of the area, and its right edge within
/// 24 pixels of the area's.
pub open spec fn near_right_edge(x: int, y: int, width: int, a: WorkArea) -> bool {
    a.y - 24 <= y <= a.y + a.height + 24 && a.x + a.width - 24 <= x + width <= a.x + a.width + 24
}

/// A drop snaps exactly when it is near an edge of some work area: to the
/// left when the first such area has it near its left edge, to the right
/// when that area has it only near its right edge; a drop near no area's
/// edge does not snap.
pub proof fn snap_follows_the_nearest_edges(x: int, y: int, width: int, areas: Seq<WorkArea>)
    ensures
        snap_side_spec(x, y, width, areas) is None <==> forall|i: int| 0 <= i < areas.len()
            ==> !near_left_edge(x, y, #[trigger] areas[i]) && !near_right_edge(x, y, width, areas[i]),
        snap_side_spec(x, y, width, areas) == Some(SidebarSide::Left) ==> exists|i: int| 0 <= i < areas.len()
            && near_left_edge(x, y, #[trigger] areas[i])
            && forall|j: int| 0 <= j < i ==> !near_left_edge(x, y, #[trigger] areas[j]) && !near_right_edge(x, y, width, areas[j]),
        snap_side_spec(x, y, width, areas) == Some(SidebarSide::Right) ==> exists|i: int| 0 <= i < areas.len()
            && near_right_edge(x, y, width, #[trigger] areas[i]) && !near_left_edge(x, y, areas[i])
            && forall|j: int| 0 <= j < i ==> !near_left_edge(x, y, #[trigger] areas[j]) && !near_right_edge(x, y, width, areas[j]),
    decreases areas.len(),
{
    if areas.len() > 0 {
        let rest = areas.drop_first();
        snap_follows_the_nearest_edges(x, y, width, rest);
        assert forall|i: int| 0 < i < areas.len() implies #[trigger] areas[i] == rest[i - 1] by {}
        if snap_on(x, y, width, areas[0]) is None {
            if snap_side_spec(x, y, width, rest) == Some(SidebarSide::Left) {
                let k = choose|k: int| 0 <= k < rest.len() && near_left_edge(x, y, #[trigger] rest[k])
                    && forall|j: int| 0 <= j < k ==> !near_left_edge(x, y, #[trigger] rest[j]) && !near_right_edge(x, y, width, rest[j]);
                assert(areas[k + 1] == rest[k]);
                assert forall|j: int| 0 <= j < k + 1 implies !near_left_edge(x, y, #[trigger] areas[j]) && !near_right_edge(x, y, width, areas[j]) by {
                    if j > 0 { assert(areas[j] == rest[j - 1]); }
                }
            }
            if snap_side_spec(x, y, width, rest) == Some(SidebarSide::Right) {
                let k = choose|k: int| 0 <= k < rest.len() && near_right_edge(x, y, width, #[trigger] rest[k]) && !near_left_edge(x, y, rest[k])
                    && forall|j: int| 0 <= j < k ==> !near_left_edge(x, y, #[trigger] rest[j]) && !near_right_edge(x, y, width, rest[j]);
                assert(areas[k + 1] == rest[k]);
                assert forall|j: int| 0 <= j < k + 1 implies !near_left_edge(x, y, #[trigger] areas[j]) && !near_right_edge(x, y, width, areas[j]) by {
                    if j > 0 { assert(areas[j] == rest[j - 1]); }
                }
            }
            if snap_side_spec(x, y, width, rest) is None {
                assert forall|i: int| 0 <= i < areas.len() implies !near_left_edge(x, y, #[trigger] areas[i]) && !near_right_edge(x, y, width, areas[i]) by {
                    if i > 0 { assert(areas[i] == rest[i - 1]); }
                }
            }
        } else {
            assert(near_left_edge(x, y, areas[0]) || near_right_edge(x, y, width, areas[0]));
        }
    }
}

/// Detects a drop within 24 pixels of a work area's left or right edge.
pub fn snap_side(x: i32, y: i32, window_width: u32, areas: &Vec<WorkArea>) -> (r: Option<SidebarSide>)
    ensures
        r == snap_side_spec(x as int, y as int, window_width as int, areas@),
{
    let mut i: usize = 0;
    assert(areas@.skip(0) =~= areas@);
    while i < areas.len()
        invariant
            i <= areas@.len(),
            snap_side_spec(x as int, y as int, window_width as int, areas@)
                == snap_side_spec(x as int, y as int, window_width as int, areas@.skip(i as int)),
        decreases areas.len() - i,
    {
        let a = &areas[i];
        assert(areas@.skip(i as int)[0] == *a);
        assert(areas@.skip(i as int).drop_first() =~= areas@.skip(i + 1));
        let px = x as i64;
        let py = y as i64;
        let ax = a.x as i64;
        let ay = a.y as i64;
        let t = SNAP_THRESHOLD as i64;
        let top = ay - t;
        let bottom = ay + a.height as i64 + t;
        if !(py < top || py > bottom) {
            let dl = px - ax;
            if -t <= dl && dl <= t {
                return Some(SidebarSide::Left);
            }
            let dr = px + window_width as i64 - (ax + a.width as i64);
            if -t <= dr && dr <= t {
                return Some(SidebarSide::Right);
            }
        }
        i = i + 1;
    }
    None
}

/// The x position of the Sidebar: the area's left edge, or its right edge
/// minus the sidebar width.
pub fn sidebar_x(side: SidebarSide, area: &WorkArea, width: u32) -> (r: i32)
    requires
        area_ok(*area),
        width <= area.width,
    ensures
        r == match side {
            SidebarSide::Left => area.x as int,
            SidebarSide::Right => area.x + area.width - width,
        },
{
    match side {
        SidebarSide::Left => area.x,
        SidebarSide::Right => area.x + area.width as i32 - width as i32,
    }
}

/// The first area whose identity is `identity`.
pub open spec fn area_with_identity(areas: Seq<WorkArea>, identity: Seq<char>, i: int) -> bool {
    &&& 0 <= i < areas.len()
    &&& areas[i].identity matches Some(id) && id@ == identity
    &&& forall|j: int| 0 <= j < i ==> !(#[trigger] areas[j].identity matches Some(id) && id@ == identity)
}

/// Area `k` carries the saved identity (and is the first to).
pub open spec fn identity_hit(identity: Option<&str>, areas: Seq<WorkArea>, k: int) -> bool {
    match identity {
        Some(id) => area_with_identity(areas, id@, k),
        None => false,
    }
}

/// Area `k` contains the saved point as converted for it.
pub open spec fn point_hit(points: Seq<Option<(i32, i32)>>, areas: Seq<WorkArea>, k: int) -> bool {
    k < points.len() && match points[k] {
        Some(p) => point_in_area_spec(p.0 as int, p.1 as int, areas[k]),
        None => false,
    }
}

/// Chooses the work area of a saved window: the monitor with the saved
/// identity wins over saved coordinates; otherwise the first area containing
/// the saved point (`points[i]` is the saved position converted with area
/// `i`'s scale). Returns the index of the chosen area.
pub fn select_work_area(identity: Option<&str>, areas: &Vec<WorkArea>, points: &Vec<Option<(i32, i32)>>) -> (r: Option<usize>)
    requires
        forall|i: int| 0 <= i < areas@.len() ==> area_ok(#[trigger] areas@[i]),
    ensures
        match identity {
            Some(id) => (exists|i: int| #[trigger] area_with_identity(areas@, id@, i))
                ==> (r matches Some(k) && area_with_identity(areas@, id@, k as int)),
            None => true,
        },
        r matches Some(k) ==> k < areas@.len() && (identity_hit(identity, areas@, k as int) || point_hit(points@, areas@, k as int)),
        (forall|k: int| !#[trigger] identity_hit(identity, areas@, k)) ==> match r {
            Some(k) => forall|j: int| 0 <= j < k ==> !#[trigger] point_hit(points@, areas@, j),
            None => forall|j: int| 0 <= j < areas@.len() ==> !#[trigger] point_hit(points@, areas@, j),
        },
{
    if let Some(id) = identity {
        let mut i: usize = 0;
        while i < areas.len()
            invariant
                i <= areas@.len(),
                identity == Some(id),
                forall|j: int| 0 <= j < i ==> !(#[trigger] areas@[j].identity matches Some(x) && x@ == id@),
            decreases areas.len() - i,
        {
            let matched = match &areas[i].identity {
                Some(x) => str_eq(x.as_str(), id),
                None => false,
            };
            if matched {
                assert(area_with_identity(areas@, id@, i as int));
                return Some(i);
            }
            i = i + 1;
        }
        assert forall|k: int| #[trigger] area_with_identity(areas@, id@, k) implies false by {
            assert(!(areas@[k].identity matches Some(x) && x@ == id@));
        }
    }
    assert(forall|k: int| !#[trigger] identity_hit(identity, areas@, k));
    let mut i: usize = 0;
    while i < areas.len() && i < points.len()
        invariant
            i <= areas@.len(),
            forall|k: int| !#[trigger] identity_hit(identity, areas@, k),
            match identity {
                Some(id) => !(exists|k: int| #[trigger] area_with_identity(areas@, id@, k)),
                None => true,
            },
            forall|k: int| 0 <= k < areas@.len() ==> area_ok(#[trigger] areas@[k]),
            forall|j: int| 0 <= j < i ==> !#[trigger] point_hit(points@, areas@, j),
        decreases areas.len() - i,
    {
        if let Some(p) = points[i] {
            if point_in_area(p.0, p.1, &areas[i]) {
                return Some(i);
            }
        }
        i = i + 1;
    }
    None
}

/// `v` limited to `[lo, hi]` (as `Ord::clamp` does for `lo <= hi`).
pub open spec fn clamp_int(v: int, lo: int, hi: int) -> int {
    if v < lo { lo } else if v > hi { hi } else { v }
}

fn clamp_i64(v: i64, lo: i64, hi: i64) -> (r: i64)
    requires
        lo <= hi,
    ensures
        r == clamp_int(v as int, lo as int, hi as int),
{
    if v < lo { lo } else if v > hi { hi } else { v }
}

/// Where the Orb sits on `area` (all values physical): a square of
/// `orb_px` limited to the area, at the saved position or, without one,
/// `margin_px` in from the bottom-right corner, always inside the area.
pub open spec fn orb_placement_spec(area: WorkArea, orb_px: int, margin_px: int, saved_x: Option<i32>, saved_y: Option<i32>) -> WindowRect {
    let size = min_int(min_int(orb_px, area.width as int), area.height as int);
    let rx = match saved_x { Some(x) => x as int, None => area.x + area.width - size - margin_px };
    let ry = match saved_y { Some(y) => y as int, None => area.y + area.height - size - margin_px };
    WindowRect {
        x: clamp_int(rx, area.x as int, area.x + area.width - size) as i32,
        y: clamp_int(ry, area.y as int, area.y + area.height - size) as i32,
        width: size as u32,
        height: size as u32,
    }
}

/// Places the Orb.
pub fn orb_placement(area: &WorkArea, orb_px: u32, margin_px: i32, saved_x: Option<i32>, saved_y: Option<i32>) -> (r: WindowRect)
    requires
        area_ok(*area),
    ensures
        r == orb_placement_spec(*area, orb_px as int, margin_px as int, saved_x, saved_y),
        area.x <= r.x && r.x + r.width <= area.x + area.width,
        area.y <= r.y && r.y + r.height <= area.y + area.height,
{
    let mut size = orb_px;
    if area.width < size {
        size = area.width;
    }
    if area.height < size {
        size = area.height;
    }
    let ax = area.x as i64;
    let ay = area.y as i64;
    let rx: i64 = match saved_x {
        Some(x) => x as i64,
        None => ax + area.width as i64 - size as i64 - margin_px as i64,
    };
    let ry: i64 = match saved_y {
        Some(y) => y as i64,
        None => ay + area.height as i64 - size as i64 - margin_px as i64,
    };
    let x = clamp_i64(rx, ax, ax + area.width as i64 - size as i64);
    let y = clamp_i64(ry, ay, ay + area.height as i64 - size as i64);
    WindowRect { x: x as i32, y: y as i32, width: size, height: size }
}

/// The Orb is a square no larger than the requested size or the area, as
/// large as the smallest of them, and lies inside the area; a saved position
/// at which it fits is kept exactly, and without one it sits `margin_px`
/// in from the area's bottom-right corner when that fits.
pub proof fn orb_fits_and_keeps_a_fitting_position(area: WorkArea, orb_px: int, margin_px: int, saved_x: Option<i32>, saved_y: Option<i32>)
    requires
        0 <= orb_px <= u32::MAX,
        area_ok(area),
    ensures
        ({
            let r = orb_placement_spec(area, orb_px, margin_px, saved_x, saved_y);
            &&& r.width == r.height
            &&& r.width <= orb_px && r.width <= area.width && r.width <= area.height
            &&& (r.width == orb_px || r.width == area.width || r.width == area.height)
            &&& area.x <= r.x && r.x + r.width <= area.x + area.width
            &&& area.y <= r.y && r.y + r.height <= area.y + area.height
            &&& (saved_x is Some && area.x <= saved_x->0 && saved_x->0 + r.width <= area.x + area.width ==> r.x == saved_x->0)
            &&& (saved_y is Some && area.y <= saved_y->0 && saved_y->0 + r.height <= area.y + area.height ==> r.y == saved_y->0)
            &&& (saved_x is None && 0 <= margin_px && r.width + margin_px <= area.width
                ==> r.x + r.width + margin_px == area.x + area.width)
            &&& (saved_y is None && 0 <= margin_px && r.height + margin_px <= area.height
                ==> r.y + r.height + margin_px == area.y + area.height)
        }),
{
}

/// Where the expanded Floating window opens from the Orb (all values
/// physical): the window keeps the Orb's corner that faces the area's
/// centre (the Orb's right edge when the Orb is right of centre, its bottom
/// edge when below), and is then held inside the area.
pub open spec fn expanded_placement_spec(area: WorkArea, orb: WindowRect, width_px: int, height_px: int) -> WindowRect {
    let w = min_int(width_px, area.width as int);
    let h = min_int(height_px, area.height as int);
    let rx = if orb.x + orb.width / 2 >= area.x + area.width / 2 { orb.x + orb.width - w } else { orb.x as int };
    let ry = if orb.y + orb.height / 2 >= area.y + area.height / 2 { orb.y + orb.height - h } else { orb.y as int };
    WindowRect {
        x: clamp_int(rx, area.x as int, area.x + area.width - w) as i32,
        y: clamp_int(ry, area.y as int, area.y + area.height - h) as i32,
        width: w as u32,
        height: h as u32,
    }
}

/// The expanded window is as large as requested but no larger than the area,
/// lies inside the area, and, where it fits, shares the Orb's right edge
/// when the Orb's centre is right of the area's (its left edge otherwise)
/// and the Orb's bottom edge when the Orb's centre is below the area's (its
/// top edge otherwise).
pub proof fn expanded_window_grows_from_the_orb(area: WorkArea, orb: WindowRect, width_px: int, height_px: int)
    requires
        area_ok(area),
        0 <= width_px <= u32::MAX,
        0 <= height_px <= u32::MAX,
    ensures
        ({
            let r = expanded_placement_spec(area, orb, width_px, height_px);
            let right_half = orb.x + orb.width / 2 >= area.x + area.width / 2;
            let lower_half = orb.y + orb.height / 2 >= area.y + area.height / 2;
            &&& r.width <= width_px && r.width <= area.width && (r.width == width_px || r.width == area.width)
            &&& r.height <= height_px && r.height <= area.height && (r.height == height_px || r.height == area.height)
            &&& area.x <= r.x && r.x + r.width <= area.x + area.width
            &&& area.y <= r.y && r.y + r.height <= area.y + area.height
            &&& (right_half && area.x <= orb.x + orb.width - r.width && orb.x + orb.width <= area.x + area.width
                ==> r.x + r.width == orb.x + orb.width)
            &&& (!right_half && area.x <= orb.x && orb.x + r.width <= area.x + area.width ==> r.x == orb.x)
            &&& (lower_half && area.y <= orb.y + orb.height - r.height && orb.y + orb.height <= area.y + area.height
                ==> r.y + r.height == orb.y + orb.height)
            &&& (!lower_half && area.y <= orb.y && orb.y + r.height <= area.y + area.height ==> r.y == orb.y)
        }),
{
}

/// Places the expanded Floating window next to the Orb.
pub fn expanded_placement(area: &WorkArea, orb: WindowRect, width_px: u32, height_px: u32) -> (r: WindowRect)
    requires
        area_ok(*area),
    ensures
        r == expanded_placement_spec(*area, orb, width_px as int, height_px as int),
        area.x <= r.x && r.x + r.width <= area.x + area.width,
        area.y <= r.y && r.y + r.height <= area.y + area.height,
{
    let w = if width_px <= area.width { width_px } else { area.width };
    let h = if height_px <= area.height { height_px } else { area.height };
    let ox = orb.x as i64;
    let oy = orb.y as i64;
    let ax = area.x as i64;
    let ay = area.y as i64;
    let orb_cx = ox + (orb.width / 2) as i64;
    let orb_cy = oy + (orb.height / 2) as i64;
    let area_cx = ax + (area.width / 2) as i64;
    let area_cy = ay + (area.height / 2) as i64;
    let rx = if orb_cx >= area_cx { ox + orb.width as i64 - w as i64 } else { ox };
    let ry = if orb_cy >= area_cy { oy + orb.height as i64 - h as i64 } else { oy };
    let x = clamp_i64(rx, ax, ax + area.width as i64 - w as i64);
    let y = clamp_i64(ry, ay, ay + area.height as i64 - h as i64);
    WindowRect { x: x as i32, y: y as i32, width: w, height: h }
}

} // verus!
