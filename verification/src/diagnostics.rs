//! The support diagnostics text: an allowlist of technical facts that a user
//! can copy into a bug report. Personal settings (display name, avatar,
//! Quick Links, weather location) never reach it.
use vstd::prelude::*;
use crate::appearance::{BackgroundType, ResolvedContrast, TextContrast};
use crate::settings::{FloatingPresentation, ProductSettings, ProductWindowMode};
use crate::text::{concat2, decimal, decimal_string, owned, parse_unsigned, parse_unsigned_exec, signed_decimal_string};
use crate::weather::WeatherDiagnosticSnapshot;

verus! {

/// The native window facts diagnostics report.
#[derive(Debug)]
pub struct SupportWindowSnapshot {
    pub parent_class: String,
    pub attachment_valid: bool,
    pub always_on_top: bool,
    pub x: i32,
    pub y: i32,
    pub width: u32,
    pub height: u32,
}

/// Everything diagnostics report besides the window settings: versions,
/// monitor, database facts, weather and appearance state.
#[derive(Debug)]
pub struct DiagnosticInput {
    pub app_version: String,
    pub windows_version: String,
    pub webview2_version: String,
    pub monitor: String,
    pub schema_version: i64,
    pub task_count: i64,
    pub current_task_day: String,
    pub weather: WeatherDiagnosticSnapshot,
    pub background_type: BackgroundType,
    pub background_available: bool,
    pub text_contrast: TextContrast,
    pub resolved_contrast: ResolvedContrast,
    pub avatar_configured: bool,
    pub native: SupportWindowSnapshot,
}

/// A signed integer as `{}` writes it.
pub open spec fn int_text(n: int) -> Seq<char> {
    if n < 0 { seq!['-'] + decimal((-n) as nat) } else { decimal(n as nat) }
}

pub open spec fn bool_text(b: bool) -> Seq<char> {
    if b { "true"@ } else { "false"@ }
}

pub open spec fn yes_no(b: bool) -> Seq<char> {
    if b { "yes"@ } else { "no"@ }
}

/// The `{:?}` names of the reported enums.
pub open spec fn mode_name(m: ProductWindowMode) -> Seq<char> {
    match m {
        ProductWindowMode::Sidebar => "Sidebar"@,
        ProductWindowMode::Floating => "Floating"@,
        ProductWindowMode::Desktop => "Desktop"@,
    }
}

pub open spec fn presentation_name(p: FloatingPresentation) -> Seq<char> {
    match p {
        FloatingPresentation::Collapsed => "Collapsed"@,
        FloatingPresentation::Expanded => "Expanded"@,
    }
}

pub open spec fn background_name(b: BackgroundType) -> Seq<char> {
    match b {
        BackgroundType::Glass => "Glass"@,
        BackgroundType::Solid => "Solid"@,
        BackgroundType::Gradient => "Gradient"@,
        BackgroundType::Image => "Image"@,
        BackgroundType::Wallpaper => "Wallpaper"@,
    }
}

pub open spec fn contrast_name(c: TextContrast) -> Seq<char> {
    match c {
        TextContrast::Auto => "Auto"@,
        TextContrast::Light => "Light"@,
        TextContrast::Dark => "Dark"@,
        TextContrast::Custom => "Custom"@,
    }
}

pub open spec fn resolved_contrast_name(c: ResolvedContrast) -> Seq<char> {
    match c {
        ResolvedContrast::Light => "light"@,
        ResolvedContrast::Dark => "dark"@,
    }
}

/// A saved Orb coordinate, or `auto`.
pub open spec fn orb_text(v: Option<i32>) -> Seq<char> {
    match v {
        Some(n) => int_text(n as int),
        None => "auto"@,
    }
}

/// The cache age in seconds (`123s`), or `unavailable`.
pub open spec fn age_text(v: Option<i64>) -> Seq<char> {
    match v {
        Some(n) => int_text(n as int) + "s"@,
        None => "unavailable"@,
    }
}

/// The lines of the diagnostics, cut where a value is filled in.
pub open spec fn diagnostics_pieces(s: ProductSettings, i: DiagnosticInput) -> Seq<Seq<char>> {
    seq![
        "Alan Desktop diagnostics\nApp version: "@, i.app_version@,
        "\nWindows: "@, i.windows_version@,
        "\nWebView2: "@, i.webview2_version@,
        "\nWindow mode: "@, mode_name(s.mode),
        "\nParent class: "@, i.native.parent_class@,
        "\nBounds: "@, int_text(i.native.x as int), ","@, int_text(i.native.y as int), " · "@,
        int_text(i.native.width as int), "x"@, int_text(i.native.height as int),
        "\nMonitor: "@, i.monitor@,
        "\nAttachment: "@, if i.native.attachment_valid { "valid"@ } else { "invalid"@ },
        "\nLocked: "@, bool_text(s.locked),
        "\nTopmost: "@, bool_text(i.native.always_on_top),
        "\nDatabase schema: "@, int_text(i.schema_version as int),
        "\nTask count: "@, int_text(i.task_count as int),
        "\nCurrent task day: "@, i.current_task_day@,
        "\nWeather provider: Open-Meteo\nWeather configured: "@, yes_no(i.weather.configured),
        "\nWeather cache: "@, i.weather.cache_status@,
        "\nWeather cache age: "@, age_text(i.weather.cache_age_seconds),
        "\nWeather last refresh: "@, i.weather.last_refresh@,
        "\nAppearance background: "@, background_name(i.background_type),
        "\nAppearance available: "@, yes_no(i.background_available),
        "\nContrast mode: "@, contrast_name(i.text_contrast),
        "\nResolved contrast: "@, resolved_contrast_name(i.resolved_contrast),
        "\nAvatar configured: "@, yes_no(i.avatar_configured),
        "\nFloating presentation: "@, presentation_name(s.floating_presentation),
        "\nFloating Orb bounds: "@, orb_text(s.floating_orb_x), ","@, orb_text(s.floating_orb_y), " · "@,
        "56"@, "x"@, "56"@, " DIP"@
    ]
}

/// The pieces joined in order.
pub open spec fn joined(pieces: Seq<Seq<char>>) -> Seq<char>
    decreases pieces.len(),
{
    if pieces.len() == 0 {
        Seq::empty()
    } else {
        joined(pieces.drop_last()) + pieces.last()
    }
}

/// The diagnostics text.
pub open spec fn diagnostics_text(s: ProductSettings, i: DiagnosticInput) -> Seq<char> {
    joined(diagnostics_pieces(s, i))
}

fn join_pieces(pieces: &Vec<String>) -> (r: String)
    ensures
        r@ == joined(pieces@.map_values(|p: String| p@)),
{
    let ghost views = pieces@.map_values(|p: String| p@);
    let mut out = String::new();
    let mut i: usize = 0;
    proof {
        reveal_strlit("");
        assert(views.take(0) =~= Seq::<Seq<char>>::empty());
    }
    while i < pieces.len()
        invariant
            i <= pieces@.len(),
            views == pieces@.map_values(|p: String| p@),
            out@ == joined(views.take(i as int)),
        decreases pieces.len() - i,
    {
        assert(views.take(i + 1).drop_last() =~= views.take(i as int));
        out = concat2(out.as_str(), pieces[i].as_str());
        i = i + 1;
    }
    assert(views.take(i as int) =~= views);
    out
}

fn int_string(n: i64) -> (r: String)
    ensures
        r@ == int_text(n as int),
{
    signed_decimal_string(n)
}

fn mode_str(m: ProductWindowMode) -> (r: &'static str)
    ensures
        r@ == mode_name(m),
{
    match m {
        ProductWindowMode::Sidebar => "Sidebar",
        ProductWindowMode::Floating => "Floating",
        ProductWindowMode::Desktop => "Desktop",
    }
}

fn presentation_str(p: FloatingPresentation) -> (r: &'static str)
    ensures
        r@ == presentation_name(p),
{
    match p {
        FloatingPresentation::Collapsed => "Collapsed",
        FloatingPresentation::Expanded => "Expanded",
    }
}

fn background_str(b: BackgroundType) -> (r: &'static str)
    ensures
        r@ == background_name(b),
{
    match b {
        BackgroundType::Glass => "Glass",
        BackgroundType::Solid => "Solid",
        BackgroundType::Gradient => "Gradient",
        BackgroundType::Image => "Image",
        BackgroundType::Wallpaper => "Wallpaper",
    }
}

fn contrast_str(c: TextContrast) -> (r: &'static str)
    ensures
        r@ == contrast_name(c),
{
    match c {
        TextContrast::Auto => "Auto",
        TextContrast::Light => "Light",
        TextContrast::Dark => "Dark",
        TextContrast::Custom => "Custom",
    }
}

fn yes_no_str(b: bool) -> (r: &'static str)
    ensures
        r@ == yes_no(b),
{
    if b { "yes" } else { "no" }
}

fn bool_str(b: bool) -> (r: &'static str)
    ensures
        r@ == bool_text(b),
{
    if b { "true" } else { "false" }
}

fn orb_string(v: Option<i32>) -> (r: String)
    ensures
        r@ == orb_text(v),
{
    match v {
        Some(n) => int_string(n as i64),
        None => "auto".to_string(),
    }
}

fn age_string(v: Option<i64>) -> (r: String)
    ensures
        r@ == age_text(v),
{
    match v {
        Some(n) => {
            let t = int_string(n);
            concat2(t.as_str(), "s")
        },
        None => "unavailable".to_string(),
    }
}

/// Renders the diagnostics of the current session.
pub fn render_diagnostics(settings: &ProductSettings, input: &DiagnosticInput) -> (r: String)
    ensures
        r@ == diagnostics_text(*settings, *input),
{
    let mut p: Vec<String> = Vec::new();
    p.push("Alan Desktop diagnostics\nApp version: ".to_string());
    p.push(owned(input.app_version.as_str()));
    p.push("\nWindows: ".to_string());
    p.push(owned(input.windows_version.as_str()));
    p.push("\nWebView2: ".to_string());
    p.push(owned(input.webview2_version.as_str()));
    p.push("\nWindow mode: ".to_string());
    p.push(mode_str(settings.mode).to_string());
    p.push("\nParent class: ".to_string());
    p.push(owned(input.native.parent_class.as_str()));
    p.push("\nBounds: ".to_string());
    p.push(int_string(input.native.x as i64));
    p.push(",".to_string());
    p.push(int_string(input.native.y as i64));
    p.push(" · ".to_string());
    p.push(int_string(input.native.width as i64));
    p.push("x".to_string());
    p.push(int_string(input.native.height as i64));
    p.push("\nMonitor: ".to_string());
    p.push(owned(input.monitor.as_str()));
    p.push("\nAttachment: ".to_string());
    p.push((if input.native.attachment_valid { "valid" } else { "invalid" }).to_string());
    p.push("\nLocked: ".to_string());
    p.push(bool_str(settings.locked).to_string());
    p.push("\nTopmost: ".to_string());
    p.push(bool_str(input.native.always_on_top).to_string());
    p.push("\nDatabase schema: ".to_string());
    p.push(int_string(input.schema_version));
    p.push("\nTask count: ".to_string());
    p.push(int_string(input.task_count));
    p.push("\nCurrent task day: ".to_string());
    p.push(owned(input.current_task_day.as_str()));
    p.push("\nWeather provider: Open-Meteo\nWeather configured: ".to_string());
    p.push(yes_no_str(input.weather.configured).to_string());
    p.push("\nWeather cache: ".to_string());
    p.push(input.weather.cache_status.to_string());
    p.push("\nWeather cache age: ".to_string());
    p.push(age_string(input.weather.cache_age_seconds));
    p.push("\nWeather last refresh: ".to_string());
    p.push(owned(input.weather.last_refresh.as_str()));
    p.push("\nAppearance background: ".to_string());
    p.push(background_str(input.background_type).to_string());
    p.push("\nAppearance available: ".to_string());
    p.push(yes_no_str(input.background_available).to_string());
    p.push("\nContrast mode: ".to_string());
    p.push(contrast_str(input.text_contrast).to_string());
    p.push("\nResolved contrast: ".to_string());
    p.push(input.resolved_contrast.as_str().to_string());
    p.push("\nAvatar configured: ".to_string());
    p.push(yes_no_str(input.avatar_configured).to_string());
    p.push("\nFloating presentation: ".to_string());
    p.push(presentation_str(settings.floating_presentation).to_string());
    p.push("\nFloating Orb bounds: ".to_string());
    p.push(orb_string(settings.floating_orb_x));
    p.push(",".to_string());
    p.push(orb_string(settings.floating_orb_y));
    p.push(" · ".to_string());
    p.push("56".to_string());
    p.push("x".to_string());
    p.push("56".to_string());
    p.push(" DIP".to_string());
    assert(p@.map_values(|s: String| s@) =~= diagnostics_pieces(*settings, *input));
    join_pieces(&p)
}

/// The diagnostics are an allowlist: two documents that agree on the window
/// mode, the lock, the Floating presentation and the Orb position give the
/// same text, whatever their display name, avatar, Quick Links, homepage or
/// weather location.
pub proof fn diagnostics_ignore_private_settings(a: ProductSettings, b: ProductSettings, input: DiagnosticInput)
    requires
        a.mode == b.mode,
        a.locked == b.locked,
        a.floating_presentation == b.floating_presentation,
        a.floating_orb_x == b.floating_orb_x,
        a.floating_orb_y == b.floating_orb_y,
    ensures
        diagnostics_text(a, input) == diagnostics_text(b, input),
{
    assert(diagnostics_pieces(a, input) =~= diagnostics_pieces(b, input));
}

/// The Windows release and build a registry build number names: build 22000
/// and later is Windows 11. `build` is the `CurrentBuildNumber` text (`None`
/// when it could not be read) and `ubr` the update revision, when read.
pub open spec fn windows_build_text(build: Option<Seq<char>>, ubr: Option<u32>) -> Option<Seq<char>> {
    match build {
        None => None,
        Some(b) => match parse_unsigned(b, u32::MAX as int) {
            None => None,
            Some(n) => {
                let product = if n >= 22000 { "Windows 11"@ } else { "Windows 10"@ };
                match ubr {
                    Some(u) => Some(product + " · build "@ + b + "."@ + decimal(u as nat)),
                    None => Some(product + " · build "@ + b),
                }
            },
        },
    }
}

/// Names the Windows release from the registry's build facts.
pub fn windows_build_from_registry(build: Option<&str>, ubr: Option<u32>) -> (r: Option<String>)
    ensures
        match windows_build_text(match build { Some(b) => Some(b@), None => None }, ubr) {
            Some(t) => r matches Some(s) && s@ == t,
            None => r is None,
        },
{
    let b = match build {
        Some(b) => b,
        None => {
            return None;
        },
    };
    let n = match parse_unsigned_exec(b, u32::MAX) {
        Some(n) => n,
        None => {
            return None;
        },
    };
    let product = if n >= 22000 { "Windows 11" } else { "Windows 10" };
    let head = concat2(product, " · build ");
    let with_build = concat2(head.as_str(), b);
    match ubr {
        Some(u) => {
            let dot = concat2(with_build.as_str(), ".");
            let rev = decimal_string(u as u128);
            Some(concat2(dot.as_str(), rev.as_str()))
        },
        None => Some(with_build),
    }
}

} // verus!
