//! Product actions (tray menu, context menu and frontend commands) and the
//! settings patch pipeline: which action a name selects, what each action
//! decides from the current settings, and how a patch from the Settings
//! panel is validated and applied.
use vstd::prelude::*;
use crate::locale::Language;
use crate::settings::{
    clamp_spec, link_view, links_view, normalized_link, url_refusal, validate_quick_link_url, FloatingPresentation,
    ProductSettings, ProductWindowMode, QuickLink, RenderingBackend, SidebarSide, TemperatureUnit,
};
use crate::text::{concat2, owned, str_eq, trim, trim_exec};

verus! {

/// Identifier of the resident tray icon.
pub const TRAY_ID: &'static str = "alan-desktop-tray";

/// The one page the native menu may open.
pub const PROJECT_URL: &'static str = "https://github.com/alanfloyd-dev/desktop-todo-widget";

/// Event carrying the product view state after every action.
pub const PRODUCT_STATE_EVENT: &'static str = "product-state";

/// Only the exact project page, over HTTPS, is launchable.
pub fn validated_project_url(url: &str) -> (r: bool)
    ensures
        r == (url@ == PROJECT_URL@),
{
    proof {
        reveal_strlit("https://github.com/alanfloyd-dev/desktop-todo-widget");
        reveal_strlit("https://");
        assert(PROJECT_URL@.take(8) =~= "https://"@);
    }
    str_eq(url, PROJECT_URL) && crate::text::starts_with(url, "https://")
}

/// A product action, by its stable name.
#[derive(Clone, Copy, Debug, PartialEq, Eq, Structural)]
pub enum ProductAction {
    Mode(ProductWindowMode),
    Presentation(FloatingPresentation),
    Side(SidebarSide),
    ToggleLock,
    ToggleAlwaysOnTop,
    Settings,
    Show,
    ProjectPage,
    Quit,
}

/// The action a name selects.
pub open spec fn action_named(name: Seq<char>) -> Option<ProductAction> {
    if name == "mode.sidebar"@ {
        Some(ProductAction::Mode(ProductWindowMode::Sidebar))
    } else if name == "mode.floating"@ {
        Some(ProductAction::Mode(ProductWindowMode::Floating))
    } else if name == "mode.desktop"@ {
        Some(ProductAction::Mode(ProductWindowMode::Desktop))
    } else if name == "floating.expand"@ {
        Some(ProductAction::Presentation(FloatingPresentation::Expanded))
    } else if name == "floating.collapse"@ {
        Some(ProductAction::Presentation(FloatingPresentation::Collapsed))
    } else if name == "side.left"@ {
        Some(ProductAction::Side(SidebarSide::Left))
    } else if name == "side.right"@ {
        Some(ProductAction::Side(SidebarSide::Right))
    } else if name == "lock.toggle"@ {
        Some(ProductAction::ToggleLock)
    } else if name == "always_on_top.toggle"@ {
        Some(ProductAction::ToggleAlwaysOnTop)
    } else if name == "settings"@ {
        Some(ProductAction::Settings)
    } else if name == "show"@ {
        Some(ProductAction::Show)
    } else if name == "github"@ {
        Some(ProductAction::ProjectPage)
    } else if name == "quit"@ {
        Some(ProductAction::Quit)
    } else {
        None
    }
}

/// Reads an action name; an unknown name is refused.
pub fn parse_product_action(action: &str) -> (r: Result<ProductAction, String>)
    ensures
        match action_named(action@) {
            Some(a) => r == Ok::<ProductAction, String>(a),
            None => r matches Err(e) && e@ == "unknown product action: "@ + action@,
        },
{
    if str_eq(action, "mode.sidebar") {
        Ok(ProductAction::Mode(ProductWindowMode::Sidebar))
    } else if str_eq(action, "mode.floating") {
        Ok(ProductAction::Mode(ProductWindowMode::Floating))
    } else if str_eq(action, "mode.desktop") {
        Ok(ProductAction::Mode(ProductWindowMode::Desktop))
    } else if str_eq(action, "floating.expand") {
        Ok(ProductAction::Presentation(FloatingPresentation::Expanded))
    } else if str_eq(action, "floating.collapse") {
        Ok(ProductAction::Presentation(FloatingPresentation::Collapsed))
    } else if str_eq(action, "side.left") {
        Ok(ProductAction::Side(SidebarSide::Left))
    } else if str_eq(action, "side.right") {
        Ok(ProductAction::Side(SidebarSide::Right))
    } else if str_eq(action, "lock.toggle") {
        Ok(ProductAction::ToggleLock)
    } else if str_eq(action, "always_on_top.toggle") {
        Ok(ProductAction::ToggleAlwaysOnTop)
    } else if str_eq(action, "settings") {
        Ok(ProductAction::Settings)
    } else if str_eq(action, "show") {
        Ok(ProductAction::Show)
    } else if str_eq(action, "github") {
        Ok(ProductAction::ProjectPage)
    } else if str_eq(action, "quit") {
        Ok(ProductAction::Quit)
    } else {
        Err(concat2("unknown product action: ", action))
    }
}

/// Toggling always-on-top is refused in Desktop mode (the widget lives in
/// the desktop band); otherwise the new value is the negation.
pub fn always_on_top_toggle(mode: ProductWindowMode, current: bool) -> (r: Result<bool, String>)
    ensures
        mode == ProductWindowMode::Desktop ==> (r matches Err(e) && e@ == "Always on top is unavailable in Desktop mode"@),
        mode != ProductWindowMode::Desktop ==> r == Ok::<bool, String>(!current),
{
    if mode == ProductWindowMode::Desktop {
        return Err("Always on top is unavailable in Desktop mode".to_string());
    }
    Ok(!current)
}

/// Opening Settings from the tray first expands a collapsed Floating window,
/// since Settings exists only inside the widget.
pub fn settings_needs_expand(mode: ProductWindowMode, presentation: FloatingPresentation) -> (r: bool)
    ensures
        r == (mode == ProductWindowMode::Floating && presentation == FloatingPresentation::Collapsed),
{
    mode == ProductWindowMode::Floating && presentation == FloatingPresentation::Collapsed
}

/// Changing the sidebar side re-applies the mode only while in Sidebar.
pub fn side_change_reapplies_mode(mode: ProductWindowMode) -> (r: bool)
    ensures
        r == (mode == ProductWindowMode::Sidebar),
{
    mode == ProductWindowMode::Sidebar
}

/// Why a Quick Links list may not be stored: the first link with a blank id,
/// a blank name, or an unusable (trimmed) URL, in list order.
pub open spec fn links_refusal(ls: Seq<(Seq<char>, Seq<char>, Seq<char>)>) -> Option<Seq<char>>
    decreases ls.len(),
{
    if ls.len() == 0 {
        None
    } else if trim(ls[0].0).len() == 0 {
        Some("quick link is missing its id"@)
    } else if trim(ls[0].1).len() == 0 {
        Some("quick link name cannot be empty"@)
    } else if url_refusal(trim(ls[0].2)) is Some {
        url_refusal(trim(ls[0].2))
    } else {
        links_refusal(ls.drop_first())
    }
}

/// Rejects a Quick Links list with a row that would have no label or no
/// launchable URL. Duplicate names and URLs are the user's call.
pub fn validate_quick_links(links: &Vec<QuickLink>) -> (r: Result<(), String>)
    ensures
        match links_refusal(links_view(links@)) {
            Some(msg) => r matches Err(e) && e@ == msg,
            None => r is Ok,
        },
{
    let ghost all = links_view(links@);
    let mut i: usize = 0;
    assert(all.skip(0) =~= all);
    while i < links.len()
        invariant
            i <= links@.len(),
            all == links_view(links@),
            links_refusal(all) == links_refusal(all.skip(i as int)),
        decreases links.len() - i,
    {
        let link = &links[i];
        assert(all.skip(i as int)[0] == link_view(*link));
        assert(all.skip(i as int).drop_first() =~= all.skip(i + 1));
        if trim_exec(link.id.as_str()).unicode_len() == 0 {
            return Err("quick link is missing its id".to_string());
        }
        if trim_exec(link.name.as_str()).unicode_len() == 0 {
            return Err("quick link name cannot be empty".to_string());
        }
        validate_quick_link_url(trim_exec(link.url.as_str()))?;
        i = i + 1;
    }
    Ok(())
}

/// A list that passes validation is kept whole by normalization.
pub proof fn valid_links_survive_normalization(ls: Seq<(Seq<char>, Seq<char>, Seq<char>)>, i: int)
    requires
        links_refusal(ls) is None,
        0 <= i < ls.len(),
    ensures
        normalized_link(ls[i]) is Some,
    decreases ls.len(),
{
    if i > 0 {
        assert(ls.drop_first()[i - 1] == ls[i]);
        valid_links_survive_normalization(ls.drop_first(), i - 1);
    }
}

/// The non-numeric part of a settings patch from the Settings panel; each
/// present member replaces the stored value.
#[derive(Debug)]
pub struct SettingsPatch {
    pub day_rollover: Option<String>,
    pub weather_location_label: Option<String>,
    pub weather_timezone: Option<String>,
    pub weather_country: Option<String>,
    pub weather_admin1: Option<String>,
    pub temperature_unit: Option<TemperatureUnit>,
    pub appearance: Option<String>,
    pub avatar_asset_id: Option<Option<String>>,
    pub sidebar_width: Option<u32>,
    pub display_name: Option<String>,
    pub quick_links: Option<Vec<QuickLink>>,
    pub rendering_backend: Option<RenderingBackend>,
    pub language: Option<Language>,
}

/// The text a trimmed patch field stores.
pub open spec fn trimmed_or(patch: Option<String>, stored: Seq<char>) -> Seq<char> {
    match patch {
        Some(v) => trim(v@),
        None => stored,
    }
}

fn replace_text(target: &mut String, value: Option<String>)
    ensures
        final(target)@ == match value { Some(v) => v@, None => old(target)@ },
{
    if let Some(v) = value {
        *target = v;
    }
}

fn replace_trimmed(target: &mut String, value: Option<String>)
    ensures
        final(target)@ == trimmed_or(value, old(target)@),
{
    if let Some(v) = value {
        *target = owned(trim_exec(v.as_str()));
    }
}

impl SettingsPatch {
    /// Applies the patch: location texts and the display name are trimmed, the
    /// sidebar width is clamped to 320..=560, everything else is stored as
    /// given. Absent members leave the stored value alone.
    pub fn apply(self, settings: &mut ProductSettings)
        ensures
            final(settings).day_rollover@ == match self.day_rollover { Some(v) => v@, None => old(settings).day_rollover@ },
            final(settings).weather_location_label@ == trimmed_or(self.weather_location_label, old(settings).weather_location_label@),
            final(settings).weather_timezone@ == trimmed_or(self.weather_timezone, old(settings).weather_timezone@),
            final(settings).weather_country@ == trimmed_or(self.weather_country, old(settings).weather_country@),
            final(settings).weather_admin1@ == trimmed_or(self.weather_admin1, old(settings).weather_admin1@),
            final(settings).temperature_unit == match self.temperature_unit { Some(v) => v, None => old(settings).temperature_unit },
            final(settings).appearance@ == match self.appearance { Some(v) => v@, None => old(settings).appearance@ },
            final(settings).avatar_asset_id == match self.avatar_asset_id { Some(v) => v, None => old(settings).avatar_asset_id },
            final(settings).sidebar_width == match self.sidebar_width {
                Some(v) => clamp_spec(v, 320, 560),
                None => old(settings).sidebar_width,
            },
            final(settings).rendering_backend == match self.rendering_backend { Some(v) => v, None => old(settings).rendering_backend },
            final(settings).language == match self.language { Some(v) => v, None => old(settings).language },
            final(settings).display_name@ == trimmed_or(self.display_name, old(settings).display_name@),
            final(settings).quick_links@ == match self.quick_links { Some(v) => v@, None => old(settings).quick_links@ },
            final(settings).geometry_units_version == old(settings).geometry_units_version,
            final(settings).mode == old(settings).mode,
            final(settings).x == old(settings).x,
            final(settings).y == old(settings).y,
            final(settings).width == old(settings).width,
            final(settings).height == old(settings).height,
            final(settings).monitor_identity == old(settings).monitor_identity,
            final(settings).floating_presentation == old(settings).floating_presentation,
            final(settings).floating_orb_x == old(settings).floating_orb_x,
            final(settings).floating_orb_y == old(settings).floating_orb_y,
            final(settings).floating_orb_monitor_identity == old(settings).floating_orb_monitor_identity,
            final(settings).desktop_x == old(settings).desktop_x,
            final(settings).desktop_y == old(settings).desktop_y,
            final(settings).desktop_width == old(settings).desktop_width,
            final(settings).desktop_height == old(settings).desktop_height,
            final(settings).sidebar_side == old(settings).sidebar_side,
            final(settings).always_on_top == old(settings).always_on_top,
            final(settings).locked == old(settings).locked,
            final(settings).homepage_label == old(settings).homepage_label,
            final(settings).homepage_url == old(settings).homepage_url,
    {
        let SettingsPatch {
            day_rollover,
            weather_location_label,
            weather_timezone,
            weather_country,
            weather_admin1,
            temperature_unit,
            appearance,
            avatar_asset_id,
            sidebar_width,
            display_name,
            quick_links,
            rendering_backend,
            language,
        } = self;
        replace_text(&mut settings.day_rollover, day_rollover);
        replace_trimmed(&mut settings.weather_location_label, weather_location_label);
        replace_trimmed(&mut settings.weather_timezone, weather_timezone);
        replace_trimmed(&mut settings.weather_country, weather_country);
        replace_trimmed(&mut settings.weather_admin1, weather_admin1);
        if let Some(v) = temperature_unit {
            settings.temperature_unit = v;
        }
        replace_text(&mut settings.appearance, appearance);
        if let Some(v) = avatar_asset_id {
            settings.avatar_asset_id = v;
        }
        if let Some(v) = sidebar_width {
            settings.sidebar_width = if v < 320 { 320 } else if v > 560 { 560 } else { v };
        }
        if let Some(v) = rendering_backend {
            settings.rendering_backend = v;
        }
        if let Some(v) = language {
            settings.language = v;
        }
        replace_trimmed(&mut settings.display_name, display_name);
        if let Some(v) = quick_links {
            settings.quick_links = v;
        }
    }
}

} // verus!
