use desktop_todo::appearance::{BackgroundType, ResolvedContrast, TextContrast};
use desktop_todo::diagnostics::{render_diagnostics, windows_build_from_registry, DiagnosticInput, SupportWindowSnapshot};
use desktop_todo::platform::composition::{
    kept_material_record, material_route, material_window, next_generation, ContextStore, MaterialFacts,
    WindowContextFacts,
};
use desktop_todo::platform::material::ResolvedMaterial;
use desktop_todo::platform::NativeHost;
use desktop_todo::settings::{ProductSettings, QuickLink};
use desktop_todo::weather::WeatherDiagnosticSnapshot;

fn input() -> DiagnosticInput {
    DiagnosticInput {
        app_version: "0.1.0".into(),
        windows_version: "Windows 11 build 12345".into(),
        webview2_version: "123.0".into(),
        monitor: "DISPLAY1".into(),
        schema_version: 2,
        task_count: 4,
        current_task_day: "2026-08-29".into(),
        weather: WeatherDiagnosticSnapshot {
            configured: true,
            cache_status: "stale",
            cache_age_seconds: Some(7_200),
            last_refresh: "network-error".into(),
        },
        background_type: BackgroundType::Glass,
        background_available: true,
        text_contrast: TextContrast::Auto,
        resolved_contrast: ResolvedContrast::Light,
        avatar_configured: false,
        native: SupportWindowSnapshot {
            parent_class: "SHELLDLL_DefView".into(),
            attachment_valid: true,
            always_on_top: false,
            x: 20,
            y: 30,
            width: 620,
            height: 720,
        },
    }
}

#[test]
fn support_diagnostics_use_an_allowlist_and_redact_private_settings() {
    let settings = ProductSettings {
        weather_location_label: "Private City".into(),
        homepage_url: "https://private.example/secret".into(),
        display_name: "Private Person".into(),
        avatar_asset_id: Some("avatar-00000000-0000-0000-0000-000000000000-private.png".into()),
        quick_links: vec![QuickLink { id: "q".into(), name: "Mine".into(), url: "https://private.example/q".into() }],
        ..ProductSettings::default()
    };
    let rendered = render_diagnostics(&settings, &input());
    assert!(rendered.contains("Window mode: Floating"));
    assert!(rendered.contains("Database schema: 2"));
    assert!(rendered.contains("Task count: 4"));
    assert!(rendered.contains("Current task day: 2026-08-29"));
    assert!(rendered.contains("Weather provider: Open-Meteo"));
    assert!(rendered.contains("Weather configured: yes"));
    assert!(rendered.contains("Weather cache: stale"));
    assert!(rendered.contains("Weather cache age: 7200s"));
    assert!(rendered.contains("Appearance background: Glass"));
    assert!(rendered.contains("Avatar configured: no"));
    assert!(rendered.contains("Bounds: 20,30 · 620x720"));
    assert!(rendered.contains("Floating Orb bounds: auto,auto · 56x56 DIP"));
    for private in ["Private City", "private.example", "Private Person", "00000000-0000-0000-0000-000000000000-private"] {
        assert!(!rendered.contains(private));
    }
    assert!(rendered.starts_with("Alan Desktop diagnostics\nApp version: 0.1.0\nWindows: "));
}

#[test]
fn diagnostics_report_a_saved_orb_position() {
    let settings = ProductSettings { floating_orb_x: Some(-12), floating_orb_y: Some(400), locked: true, ..ProductSettings::default() };
    let rendered = render_diagnostics(&settings, &input());
    assert!(rendered.contains("Floating Orb bounds: -12,400 · 56x56 DIP"));
    assert!(rendered.contains("Locked: true"));
}

#[test]
fn windows_release_follows_the_build_number() {
    assert_eq!(windows_build_from_registry(Some("22631"), Some(4460)).as_deref(), Some("Windows 11 · build 22631.4460"));
    assert_eq!(windows_build_from_registry(Some("19045"), None).as_deref(), Some("Windows 10 · build 19045"));
    assert_eq!(windows_build_from_registry(Some("insider"), Some(1)), None);
    assert_eq!(windows_build_from_registry(None, Some(1)), None);
}

#[test]
fn only_expanded_floating_glass_takes_the_native_material_path() {
    assert_eq!(material_route(true, NativeHost::FloatingExpanded), None);
    assert_eq!(material_route(true, NativeHost::FloatingCollapsed), Some(ResolvedMaterial::TransparentOrb));
    assert_eq!(material_route(false, NativeHost::FloatingExpanded), Some(ResolvedMaterial::ExistingProductMaterial));
    assert_eq!(
        kept_material_record(true, ResolvedMaterial::TransparentOrb, NativeHost::FloatingCollapsed),
        "[native-material] requested_material=Glass resolved_material=TransparentOrb native_backend=none window_mode=FloatingCollapsed"
    );
    assert_eq!(material_window(None, 7), Ok(7));
    assert_eq!(material_window(Some(7), 7), Ok(7));
    assert!(material_window(Some(7), 8).is_err());
    assert_eq!(next_generation(41), 42);
}

#[test]
fn composition_host_reports_and_guards_its_window() {
    let detached = ContextStore { context: None };
    assert_eq!(
        detached.diagnostic_summary(),
        "desktop_window_target_created=false set_target=false controller_state=detached"
    );
    assert_eq!(detached.resize_webview("main", 5), Ok(false));
    let live = ContextStore {
        context: Some(WindowContextFacts {
            hwnd: 5,
            visual_present: true,
            material: Some(MaterialFacts { target_attached: true, state: "Active".into() }),
        }),
    };
    assert_eq!(
        live.diagnostic_summary(),
        "desktop_window_target_created=true root_visual_retained=true set_target=true controller_state=Active"
    );
    assert_eq!(live.resize_webview("main", 5), Ok(true));
    assert_eq!(live.resize_webview("other", 9), Ok(false));
    assert_eq!(live.resize_webview("main", 9).unwrap_err(), "composition resize HWND mismatch");
}
