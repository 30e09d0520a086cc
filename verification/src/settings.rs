//! Product settings: the window, language and profile preferences of the
//! settings document, the Quick Links list, and the normalization every load
//! and update applies.
//!
//! The document's floating-point members (weather coordinates and the
//! numeric appearance values) are carried by the host beside these fields.
use vstd::prelude::*;
use crate::appearance::{managed_asset_id, normalize_avatar_asset_id, AssetKind};
use crate::locale::Language;
use crate::text::{owned, str_eq, trim, trim_exec};

verus! {

/// Persisted name of a legacy homepage that had no label of its own.
pub const DEFAULT_QUICK_LINK_NAME: &'static str = "Homepage";

/// Stable identifier the legacy homepage migration reuses.
pub const LEGACY_HOMEPAGE_LINK_ID: &'static str = "legacy-homepage";

/// One user-managed Quick Link.
#[derive(Clone, Debug, PartialEq, Eq)]
pub struct QuickLink {
    pub id: String,
    pub name: String,
    pub url: String,
}

/// The text of a Quick Link: `(id, name, url)`.
pub open spec fn link_view(l: QuickLink) -> (Seq<char>, Seq<char>, Seq<char>) {
    (l.id@, l.name@, l.url@)
}

/// The texts of a list of Quick Links.
pub open spec fn links_view(ls: Seq<QuickLink>) -> Seq<(Seq<char>, Seq<char>, Seq<char>)> {
    ls.map_values(|l: QuickLink| link_view(l))
}

/// What `url::Url::parse` yields for `text`: `None` when it does not parse,
/// otherwise the parsed URL's scheme and whether it has a host.
pub uninterp spec fn url_parse(text: Seq<char>) -> Option<(Seq<char>, bool)>;

/// Calls `url::Url::parse` and reports the scheme and host presence of the
/// result; the contract claims only that they are a function of the text.
#[verifier::external_body]
fn parse_url(text: &str) -> (r: Option<(String, bool)>)
    ensures
        match r {
            Some((scheme, host)) => url_parse(text@) == Some((scheme@, host)),
            None => url_parse(text@) is None,
        },
{
    match url::Url::parse(text) {
        Ok(parsed) => Some((parsed.scheme().to_string(), parsed.host().is_some())),
        Err(_) => None,
    }
}

/// Why a Quick Link URL is refused, or nothing: it must parse, use `http` or
/// `https`, and name a host.
pub open spec fn url_refusal(url: Seq<char>) -> Option<Seq<char>> {
    match url_parse(url) {
        None => Some("link URL must be a valid URL"@),
        Some((scheme, host)) => if !(scheme == "http"@ || scheme == "https"@) {
            Some("link URL must start with http:// or https://"@)
        } else if !host {
            Some("link URL must include a host"@)
        } else {
            None
        },
    }
}

/// Decides, from the outcome of parsing `url`, whether it is a usable Quick
/// Link URL.
pub fn quick_link_url_verdict(parsed: Option<(String, bool)>) -> (r: Result<(), String>)
    ensures
        match parsed {
            None => r matches Err(e) && e@ == "link URL must be a valid URL"@,
            Some((scheme, host)) => if !(scheme@ == "http"@ || scheme@ == "https"@) {
                r matches Err(e) && e@ == "link URL must start with http:// or https://"@
            } else if !host {
                r matches Err(e) && e@ == "link URL must include a host"@
            } else {
                r is Ok
            },
        },
{
    match parsed {
        None => Err("link URL must be a valid URL".to_string()),
        Some((scheme, host)) => {
            if !(str_eq(scheme.as_str(), "http") || str_eq(scheme.as_str(), "https")) {
                Err("link URL must start with http:// or https://".to_string())
            } else if !host {
                Err("link URL must include a host".to_string())
            } else {
                Ok(())
            }
        },
    }
}

/// The only URL shapes a Quick Link may hold: `http` or `https` with a host.
/// One rule serves both saving and opening a link.
pub fn validate_quick_link_url(url: &str) -> (r: Result<(), String>)
    ensures
        match url_refusal(url@) {
            Some(msg) => r matches Err(e) && e@ == msg,
            None => r is Ok,
        },
{
    quick_link_url_verdict(parse_url(url))
}

#[derive(Clone, Copy, Debug, PartialEq, Eq, Structural)]
pub enum ProductWindowMode {
    Sidebar,
    Floating,
    Desktop,
}

#[derive(Clone, Copy, Debug, PartialEq, Eq, Structural)]
pub enum SidebarSide {
    Left,
    Right,
}

#[derive(Clone, Copy, Debug, PartialEq, Eq, Structural)]
pub enum TemperatureUnit {
    Celsius,
    Fahrenheit,
}

#[derive(Clone, Copy, Debug, PartialEq, Eq, Structural)]
pub enum FloatingPresentation {
    Collapsed,
    Expanded,
}

/// WebView2 hosting backend: `Standard` (windowed controller, full UI
/// Automation; the default) or `Enhanced` (composition controller).
#[derive(Clone, Copy, Debug, PartialEq, Eq, Structural)]
pub enum RenderingBackend {
    Standard,
    Enhanced,
}

impl ProductWindowMode {
    /// The persisted name.
    pub fn as_str(self) -> (r: &'static str)
        ensures
            r@ == match self {
                ProductWindowMode::Sidebar => "sidebar"@,
                ProductWindowMode::Floating => "floating"@,
                ProductWindowMode::Desktop => "desktop"@,
            },
    {
        match self {
            ProductWindowMode::Sidebar => "sidebar",
            ProductWindowMode::Floating => "floating",
            ProductWindowMode::Desktop => "desktop",
        }
    }

    /// Reads a persisted name.
    pub fn from_name(value: &str) -> (r: Result<Self, String>)
        ensures
            value@ == "sidebar"@ ==> r == Ok::<Self, String>(ProductWindowMode::Sidebar),
            value@ == "floating"@ ==> r == Ok::<Self, String>(ProductWindowMode::Floating),
            value@ == "desktop"@ ==> r == Ok::<Self, String>(ProductWindowMode::Desktop),
            !(value@ == "sidebar"@ || value@ == "floating"@ || value@ == "desktop"@)
                ==> (r matches Err(e) && e@ == "unknown product window mode: "@ + value@),
    {
        proof {
            reveal_strlit("sidebar");
            reveal_strlit("floating");
            reveal_strlit("desktop");
            assert("sidebar"@[0] != "desktop"@[0]);
            assert("sidebar"@.len() != "floating"@.len());
            assert("floating"@.len() != "desktop"@.len());
        }
        if str_eq(value, "sidebar") {
            Ok(ProductWindowMode::Sidebar)
        } else if str_eq(value, "floating") {
            Ok(ProductWindowMode::Floating)
        } else if str_eq(value, "desktop") {
            Ok(ProductWindowMode::Desktop)
        } else {
            Err(crate::text::concat2("unknown product window mode: ", value))
        }
    }
}

impl SidebarSide {
    /// Reads a persisted name.
    pub fn from_name(value: &str) -> (r: Result<Self, String>)
        ensures
            value@ == "left"@ ==> r == Ok::<Self, String>(SidebarSide::Left),
            value@ == "right"@ ==> r == Ok::<Self, String>(SidebarSide::Right),
            !(value@ == "left"@ || value@ == "right"@) ==> (r matches Err(e) && e@ == "unknown sidebar side: "@ + value@),
    {
        proof {
            reveal_strlit("left");
            reveal_strlit("right");
            assert("left"@.len() != "right"@.len());
        }
        if str_eq(value, "left") {
            Ok(SidebarSide::Left)
        } else if str_eq(value, "right") {
            Ok(SidebarSide::Right)
        } else {
            Err(crate::text::concat2("unknown sidebar side: ", value))
        }
    }
}

impl RenderingBackend {
    /// The persisted name.
    pub fn as_str(self) -> (r: &'static str)
        ensures
            r@ == match self {
                RenderingBackend::Standard => "standard"@,
                RenderingBackend::Enhanced => "enhanced"@,
            },
    {
        match self {
            RenderingBackend::Standard => "standard",
            RenderingBackend::Enhanced => "enhanced",
        }
    }

    /// True when this backend hosts the WebView through the composition
    /// controller.
    pub fn uses_composition_hosting(self) -> (r: bool)
        ensures
            r == (self == RenderingBackend::Enhanced),
    {
        match self {
            RenderingBackend::Standard => false,
            RenderingBackend::Enhanced => true,
        }
    }

    /// Reads a persisted name.
    pub fn from_name(value: &str) -> (r: Result<Self, String>)
        ensures
            value@ == "standard"@ ==> r == Ok::<Self, String>(RenderingBackend::Standard),
            value@ == "enhanced"@ ==> r == Ok::<Self, String>(RenderingBackend::Enhanced),
            !(value@ == "standard"@ || value@ == "enhanced"@)
                ==> (r matches Err(e) && e@ == "unsupported rendering backend: "@ + value@),
    {
        proof {
            reveal_strlit("standard");
            reveal_strlit("enhanced");
            assert("standard"@[0] != "enhanced"@[0]);
        }
        if str_eq(value, "standard") {
            Ok(RenderingBackend::Standard)
        } else if str_eq(value, "enhanced") {
            Ok(RenderingBackend::Enhanced)
        } else {
            Err(crate::text::concat2("unsupported rendering backend: ", value))
        }
    }
}

/// Persisted names read back as the backend they were written from.
pub proof fn rendering_backend_name_round_trips(b: RenderingBackend)
    ensures
        ({
            let name = match b {
                RenderingBackend::Standard => "standard"@,
                RenderingBackend::Enhanced => "enhanced"@,
            };
            (name == "standard"@ <==> b == RenderingBackend::Standard)
                && (name == "enhanced"@ <==> b == RenderingBackend::Enhanced)
        }),
{
    reveal_strlit("standard");
    reveal_strlit("enhanced");
    assert("standard"@[0] != "enhanced"@[0]);
}

impl TemperatureUnit {
    /// The persisted name.
    pub fn as_str(self) -> (r: &'static str)
        ensures
            r@ == match self {
                TemperatureUnit::Celsius => "celsius"@,
                TemperatureUnit::Fahrenheit => "fahrenheit"@,
            },
    {
        match self {
            TemperatureUnit::Celsius => "celsius",
            TemperatureUnit::Fahrenheit => "fahrenheit",
        }
    }
}

/// The settings document's non-numeric members.
#[derive(Clone, Debug)]
pub struct ProductSettings {
    /// 0 for documents written before geometry was stored in DIPs.
    pub geometry_units_version: u8,
    pub mode: ProductWindowMode,
    pub rendering_backend: RenderingBackend,
    pub x: Option<i32>,
    pub y: Option<i32>,
    pub width: u32,
    pub height: u32,
    pub monitor_identity: Option<String>,
    pub floating_presentation: FloatingPresentation,
    pub floating_orb_x: Option<i32>,
    pub floating_orb_y: Option<i32>,
    pub floating_orb_monitor_identity: Option<String>,
    pub desktop_x: Option<i32>,
    pub desktop_y: Option<i32>,
    pub desktop_width: u32,
    pub desktop_height: u32,
    pub sidebar_side: SidebarSide,
    pub sidebar_width: u32,
    pub always_on_top: bool,
    pub locked: bool,
    pub day_rollover: String,
    pub weather_location_label: String,
    pub weather_timezone: String,
    pub weather_country: String,
    pub weather_admin1: String,
    pub temperature_unit: TemperatureUnit,
    pub language: Language,
    pub appearance: String,
    pub display_name: String,
    pub avatar_asset_id: Option<String>,
    /// The Quick Links, in display order.
    pub quick_links: Vec<QuickLink>,
    /// Read-only bridge from documents that had one footer homepage.
    pub homepage_label: String,
    pub homepage_url: String,
}

/// Geometry version of documents that predate the field.
pub fn legacy_geometry_units_version() -> (r: u8)
    ensures
        r == 0,
{
    0
}

impl Default for ProductSettings {
    /// A first run: Floating (collapsed), the Standard backend, the system
    /// language, a neutral `User` profile and no Quick Links.
    fn default() -> (s: Self)
        ensures
            s.geometry_units_version == 1,
            s.mode == ProductWindowMode::Floating,
            s.rendering_backend == RenderingBackend::Standard,
            s.x is None && s.y is None,
            s.width == 620 && s.height == 720,
            s.monitor_identity is None,
            s.floating_presentation == FloatingPresentation::Collapsed,
            s.floating_orb_x is None && s.floating_orb_y is None,
            s.floating_orb_monitor_identity is None,
            s.desktop_x is None && s.desktop_y is None,
            s.desktop_width == 420 && s.desktop_height == 700,
            s.sidebar_side == SidebarSide::Left,
            s.sidebar_width == 380,
            !s.always_on_top && !s.locked,
            s.day_rollover@ == "04:00"@,
            s.weather_location_label@.len() == 0,
            s.weather_timezone@.len() == 0,
            s.weather_country@.len() == 0,
            s.weather_admin1@.len() == 0,
            s.temperature_unit == TemperatureUnit::Celsius,
            s.language == Language::System,
            s.appearance@ == "geological_observatory"@,
            s.display_name@ == "User"@,
            s.avatar_asset_id is None,
            s.quick_links@.len() == 0,
            s.homepage_label@ == DEFAULT_QUICK_LINK_NAME@,
            s.homepage_url@.len() == 0,
    {
        ProductSettings {
            geometry_units_version: 1,
            mode: ProductWindowMode::Floating,
            rendering_backend: RenderingBackend::Standard,
            x: None,
            y: None,
            width: 620,
            height: 720,
            monitor_identity: None,
            floating_presentation: FloatingPresentation::Collapsed,
            floating_orb_x: None,
            floating_orb_y: None,
            floating_orb_monitor_identity: None,
            desktop_x: None,
            desktop_y: None,
            desktop_width: 420,
            desktop_height: 700,
            sidebar_side: SidebarSide::Left,
            sidebar_width: 380,
            always_on_top: false,
            locked: false,
            day_rollover: "04:00".to_string(),
            weather_location_label: String::new(),
            weather_timezone: String::new(),
            weather_country: String::new(),
            weather_admin1: String::new(),
            temperature_unit: TemperatureUnit::Celsius,
            language: Language::System,
            appearance: "geological_observatory".to_string(),
            display_name: "User".to_string(),
            avatar_asset_id: None,
            quick_links: Vec::new(),
            homepage_label: owned(DEFAULT_QUICK_LINK_NAME),
            homepage_url: String::new(),
        }
    }
}

/// `v` limited to `[lo, hi]`.
pub open spec fn clamp_spec(v: u32, lo: u32, hi: u32) -> u32 {
    if v < lo { lo } else if v > hi { hi } else { v }
}

fn clamp(v: u32, lo: u32, hi: u32) -> (r: u32)
    ensures
        r == clamp_spec(v, lo, hi),
{
    if v < lo { lo } else if v > hi { hi } else { v }
}

/// A Quick Link after trimming, or nothing when it cannot be rendered or
/// opened (no id, no name, or an unusable URL).
pub open spec fn normalized_link(l: (Seq<char>, Seq<char>, Seq<char>)) -> Option<(Seq<char>, Seq<char>, Seq<char>)> {
    let id = trim(l.0);
    let name = trim(l.1);
    let url = trim(l.2);
    if name.len() > 0 && id.len() > 0 && url_refusal(url) is None {
        Some((id, name, url))
    } else {
        None
    }
}

/// The kept, trimmed links in their original order.
pub open spec fn normalized_links(ls: Seq<(Seq<char>, Seq<char>, Seq<char>)>) -> Seq<(Seq<char>, Seq<char>, Seq<char>)>
    decreases ls.len(),
{
    if ls.len() == 0 {
        Seq::empty()
    } else {
        let rest = normalized_links(ls.drop_last());
        match normalized_link(ls.last()) {
            Some(l) => rest.push(l),
            None => rest,
        }
    }
}

/// What the legacy homepage migration produces: with an empty list and a
/// usable trimmed URL, one link (`legacy-homepage`, the trimmed label or
/// `Homepage`); otherwise the list unchanged.
pub open spec fn migrated_links(
    links: Seq<(Seq<char>, Seq<char>, Seq<char>)>,
    label: Seq<char>,
    url: Seq<char>,
) -> Seq<(Seq<char>, Seq<char>, Seq<char>)> {
    let u = trim(url);
    if links.len() == 0 && u.len() > 0 && url_refusal(u) is None {
        let name = trim(label);
        seq![(LEGACY_HOMEPAGE_LINK_ID@, if name.len() == 0 { DEFAULT_QUICK_LINK_NAME@ } else { name }, u)]
    } else {
        links
    }
}

impl ProductSettings {
    /// Turns a pre-Quick-Links document's homepage into one Quick Link, only
    /// when the list is empty and the URL is usable, and consumes the legacy
    /// pair either way: it is read for this one migration and never written
    /// back, so a list the user later empties is never re-seeded from it.
    pub fn migrate_legacy_homepage(&mut self)
        ensures
            links_view(final(self).quick_links@) == migrated_links(
                links_view(old(self).quick_links@),
                old(self).homepage_label@,
                old(self).homepage_url@,
            ),
            final(self).homepage_label@.len() == 0,
            final(self).homepage_url@.len() == 0,
            *final(self) == (ProductSettings {
                quick_links: final(self).quick_links,
                homepage_label: final(self).homepage_label,
                homepage_url: final(self).homepage_url,
                ..*old(self)
            }),
    {
        let url = owned(trim_exec(self.homepage_url.as_str()));
        let label = owned(trim_exec(self.homepage_label.as_str()));
        self.homepage_url = String::new();
        self.homepage_label = String::new();
        if self.quick_links.len() != 0 || url.unicode_len() == 0 {
            return;
        }
        if validate_quick_link_url(url.as_str()).is_err() {
            return;
        }
        let name = if label.unicode_len() == 0 { owned(DEFAULT_QUICK_LINK_NAME) } else { label };
        let link = QuickLink { id: owned(LEGACY_HOMEPAGE_LINK_ID), name, url };
        self.quick_links.push(link);
        assert(links_view(self.quick_links@) =~= migrated_links(
            links_view(old(self).quick_links@),
            old(self).homepage_label@,
            old(self).homepage_url@,
        ));
    }

    /// Trims every Quick Link and drops those that cannot be rendered or
    /// opened.
    pub fn normalize_quick_links(&mut self)
        ensures
            links_view(final(self).quick_links@) == normalized_links(links_view(old(self).quick_links@)),
            *final(self) == (ProductSettings { quick_links: final(self).quick_links, ..*old(self) }),
    {
        let ghost original = links_view(self.quick_links@);
        let mut kept: Vec<QuickLink> = Vec::new();
        let mut i: usize = 0;
        assert(original.take(0) =~= Seq::<(Seq<char>, Seq<char>, Seq<char>)>::empty());
        while i < self.quick_links.len()
            invariant
                i <= self.quick_links@.len(),
                original == links_view(self.quick_links@),
                links_view(kept@) == normalized_links(original.take(i as int)),
            decreases self.quick_links.len() - i,
        {
            let link = &self.quick_links[i];
            let id = owned(trim_exec(link.id.as_str()));
            let name = owned(trim_exec(link.name.as_str()));
            let url = owned(trim_exec(link.url.as_str()));
            assert(original.take(i + 1).drop_last() =~= original.take(i as int));
            assert(original.take(i + 1).last() == link_view(*link));
            if name.unicode_len() != 0 && id.unicode_len() != 0 && validate_quick_link_url(url.as_str()).is_ok() {
                let ghost before = links_view(kept@);
                kept.push(QuickLink { id, name, url });
                assert(links_view(kept@) =~= before.push((trim(link.id@), trim(link.name@), trim(link.url@))));
            }
            i = i + 1;
        }
        assert(original.take(i as int) =~= original);
        self.quick_links = kept;
    }

    /// Brings a loaded or updated document into range: window sizes are
    /// clamped, the legacy homepage migrates, Quick Links are normalized, an
    /// avatar reference that is not a managed avatar is dropped, and the
    /// display name is trimmed.
    pub fn normalize(&mut self)
        ensures
            final(self).width == clamp_spec(old(self).width, 360, 1100),
            final(self).height == clamp_spec(old(self).height, 500, 1200),
            final(self).desktop_width == clamp_spec(old(self).desktop_width, 360, 1100),
            final(self).desktop_height == clamp_spec(old(self).desktop_height, 500, 1200),
            final(self).sidebar_width == clamp_spec(old(self).sidebar_width, 320, 560),
            links_view(final(self).quick_links@) == normalized_links(migrated_links(
                links_view(old(self).quick_links@),
                old(self).homepage_label@,
                old(self).homepage_url@,
            )),
            match old(self).avatar_asset_id {
                Some(id) => if managed_asset_id(id@, AssetKind::Avatar) {
                    final(self).avatar_asset_id == Some(id)
                } else {
                    final(self).avatar_asset_id is None
                },
                None => final(self).avatar_asset_id is None,
            },
            final(self).display_name@ == trim(old(self).display_name@),
            final(self).homepage_label@.len() == 0,
            final(self).homepage_url@.len() == 0,
            *final(self) == (ProductSettings {
                homepage_label: final(self).homepage_label,
                homepage_url: final(self).homepage_url,
                width: final(self).width,
                height: final(self).height,
                desktop_width: final(self).desktop_width,
                desktop_height: final(self).desktop_height,
                sidebar_width: final(self).sidebar_width,
                quick_links: final(self).quick_links,
                avatar_asset_id: final(self).avatar_asset_id,
                display_name: final(self).display_name,
                ..*old(self)
            }),
    {
        self.width = clamp(self.width, 360, 1100);
        self.height = clamp(self.height, 500, 1200);
        self.desktop_width = clamp(self.desktop_width, 360, 1100);
        self.desktop_height = clamp(self.desktop_height, 500, 1200);
        self.sidebar_width = clamp(self.sidebar_width, 320, 560);
        self.migrate_legacy_homepage();
        self.normalize_quick_links();
        normalize_avatar_asset_id(&mut self.avatar_asset_id);
        self.display_name = owned(trim_exec(self.display_name.as_str()));
    }
}


proof fn lemma_normalized_link_fixed(l: (Seq<char>, Seq<char>, Seq<char>))
    requires
        normalized_link(l) is Some,
    ensures
        normalized_link(normalized_link(l)->0) == normalized_link(l),
{
    crate::text::lemma_trim_idempotent(l.0);
    crate::text::lemma_trim_idempotent(l.1);
    crate::text::lemma_trim_idempotent(l.2);
}

/// Normalizing Quick Links twice changes nothing more than normalizing once.
pub proof fn quick_link_normalization_is_idempotent(ls: Seq<(Seq<char>, Seq<char>, Seq<char>)>)
    ensures
        normalized_links(normalized_links(ls)) == normalized_links(ls),
    decreases ls.len(),
{
    if ls.len() > 0 {
        quick_link_normalization_is_idempotent(ls.drop_last());
        let rest = normalized_links(ls.drop_last());
        match normalized_link(ls.last()) {
            Some(l) => {
                lemma_normalized_link_fixed(ls.last());
                assert(rest.push(l).drop_last() =~= rest);
            },
            None => {},
        }
    }
}

/// The legacy pair, once consumed, adds nothing: with an empty pair the
/// migration leaves every list as it is, so a list the user emptied after a
/// normalization stays empty under the next one.
pub proof fn consumed_pair_never_reseeds(links: Seq<(Seq<char>, Seq<char>, Seq<char>)>)
    ensures
        migrated_links(links, Seq::empty(), Seq::empty()) == links,
        links.len() == 0 ==> normalized_links(migrated_links(links, Seq::empty(), Seq::empty())).len() == 0,
{
    let empty = Seq::<char>::empty();
    assert(trim(empty).len() == 0) by {
        crate::text::lemma_leading_ws(empty);
    }
}

/// Normalizing a document twice changes nothing more than normalizing it
/// once: the second run finds the legacy pair consumed, its Quick Links
/// already normalized and its sizes and display name already in range.
pub proof fn normalization_is_idempotent(
    links: Seq<(Seq<char>, Seq<char>, Seq<char>)>,
    label: Seq<char>,
    url: Seq<char>,
    display_name: Seq<char>,
    width: u32,
    sidebar_width: u32,
)
    ensures
        normalized_links(migrated_links(normalized_links(migrated_links(links, label, url)), Seq::empty(), Seq::empty()))
            == normalized_links(migrated_links(links, label, url)),
        trim(trim(display_name)) == trim(display_name),
        clamp_spec(clamp_spec(width, 360, 1100), 360, 1100) == clamp_spec(width, 360, 1100),
        clamp_spec(clamp_spec(sidebar_width, 320, 560), 320, 560) == clamp_spec(sidebar_width, 320, 560),
{
    let once = normalized_links(migrated_links(links, label, url));
    consumed_pair_never_reseeds(once);
    quick_link_normalization_is_idempotent(migrated_links(links, label, url));
    crate::text::lemma_trim_idempotent(display_name);
}

} // verus!
