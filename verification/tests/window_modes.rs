use desktop_todo::appearance::BackgroundType;
use desktop_todo::locale::Language;
use desktop_todo::product_commands::{
    always_on_top_toggle, parse_product_action, settings_needs_expand, side_change_reapplies_mode, ProductAction,
    SettingsPatch,
};
use desktop_todo::product_window::{
    composition_fallback, mode_plan, moved_effect, presentation_step, quick_link_target, resized_effect, MoveEffect,
    PresentationStep, ResizeEffect, ORB_SIZE_DIP,
};
use desktop_todo::settings::{
    FloatingPresentation, ProductSettings, ProductWindowMode, QuickLink, RenderingBackend, SidebarSide, TemperatureUnit,
};

fn settings(mode: ProductWindowMode, presentation: FloatingPresentation) -> ProductSettings {
    let mut s = ProductSettings::default();
    s.mode = mode;
    s.floating_presentation = presentation;
    s
}

#[test]
fn tray_action_names_select_actions() {
    assert_eq!(parse_product_action("mode.desktop"), Ok(ProductAction::Mode(ProductWindowMode::Desktop)));
    assert_eq!(parse_product_action("floating.collapse"), Ok(ProductAction::Presentation(FloatingPresentation::Collapsed)));
    assert_eq!(parse_product_action("side.right"), Ok(ProductAction::Side(SidebarSide::Right)));
    assert_eq!(parse_product_action("github"), Ok(ProductAction::ProjectPage));
    assert_eq!(parse_product_action("quit"), Ok(ProductAction::Quit));
    assert_eq!(parse_product_action("reboot"), Err("unknown product action: reboot".to_string()));
}

#[test]
fn always_on_top_is_a_toggle_outside_desktop_mode() {
    assert_eq!(always_on_top_toggle(ProductWindowMode::Floating, false), Ok(true));
    assert_eq!(always_on_top_toggle(ProductWindowMode::Sidebar, true), Ok(false));
    assert_eq!(
        always_on_top_toggle(ProductWindowMode::Desktop, false),
        Err("Always on top is unavailable in Desktop mode".to_string())
    );
    assert!(settings_needs_expand(ProductWindowMode::Floating, FloatingPresentation::Collapsed));
    assert!(!settings_needs_expand(ProductWindowMode::Floating, FloatingPresentation::Expanded));
    assert!(!settings_needs_expand(ProductWindowMode::Desktop, FloatingPresentation::Collapsed));
    assert!(side_change_reapplies_mode(ProductWindowMode::Sidebar));
    assert!(!side_change_reapplies_mode(ProductWindowMode::Floating));
}

#[test]
fn a_settings_patch_trims_clamps_and_leaves_absent_fields_alone() {
    let mut s = ProductSettings::default();
    let patch = SettingsPatch {
        day_rollover: Some("05:30".to_string()),
        weather_location_label: Some("  Hangzhou ".to_string()),
        weather_timezone: None,
        weather_country: Some(" China".to_string()),
        weather_admin1: None,
        temperature_unit: Some(TemperatureUnit::Fahrenheit),
        appearance: None,
        avatar_asset_id: Some(Some("avatar-x".to_string())),
        sidebar_width: Some(900),
        display_name: Some("  Ada  ".to_string()),
        quick_links: Some(vec![QuickLink { id: "a".into(), name: "A".into(), url: "https://a.example".into() }]),
        rendering_backend: Some(RenderingBackend::Enhanced),
        language: Some(Language::English),
    };
    patch.apply(&mut s);
    assert_eq!(s.day_rollover, "05:30");
    assert_eq!(s.weather_location_label, "Hangzhou");
    assert_eq!(s.weather_country, "China");
    assert_eq!(s.weather_timezone, "");
    assert_eq!(s.temperature_unit, TemperatureUnit::Fahrenheit);
    assert_eq!(s.appearance, "geological_observatory");
    assert_eq!(s.avatar_asset_id.as_deref(), Some("avatar-x"));
    assert_eq!(s.sidebar_width, 560);
    assert_eq!(s.display_name, "Ada");
    assert_eq!(s.quick_links.len(), 1);
    assert_eq!(s.rendering_backend, RenderingBackend::Enhanced);
    assert_eq!(s.language, Language::English);
    assert_eq!(s.mode, ProductWindowMode::Floating);
}

#[test]
fn glass_falls_back_to_css_materials_per_presentation() {
    let glass = BackgroundType::Glass;
    assert_eq!(composition_fallback(ProductWindowMode::Desktop, FloatingPresentation::Expanded, glass), "translucent-graphite");
    assert_eq!(composition_fallback(ProductWindowMode::Floating, FloatingPresentation::Collapsed, glass), "transparent-orb-tint");
    assert_eq!(composition_fallback(ProductWindowMode::Floating, FloatingPresentation::Expanded, glass), "selected-css-material");
}

#[test]
fn entering_desktop_mode_clears_effects_first_and_is_never_topmost() {
    let mut s = settings(ProductWindowMode::Floating, FloatingPresentation::Expanded);
    s.always_on_top = true;
    let plan = mode_plan(&s, ProductWindowMode::Desktop);
    assert!(plan.composition_first && plan.save_floating_rect && plan.resizable_before_reparent);
    assert!(!plan.always_on_top && !plan.shadow && !plan.composition_after);
    assert_eq!((plan.min_width, plan.min_height), (360, 500));

    let orb = mode_plan(&settings(ProductWindowMode::Desktop, FloatingPresentation::Collapsed), ProductWindowMode::Floating);
    assert!(orb.save_desktop_rect && !orb.composition_first && !orb.shadow && orb.composition_after);
    assert_eq!((orb.min_width, orb.min_height), (ORB_SIZE_DIP, ORB_SIZE_DIP));

    let sidebar = mode_plan(&settings(ProductWindowMode::Floating, FloatingPresentation::Collapsed), ProductWindowMode::Sidebar);
    assert_eq!(sidebar.min_width, 320);
    assert!(sidebar.shadow);
}

#[test]
fn floating_presentations_exist_only_in_floating_mode() {
    let expanded = settings(ProductWindowMode::Floating, FloatingPresentation::Expanded);
    assert_eq!(presentation_step(&expanded, FloatingPresentation::Expanded), Ok(PresentationStep::Unchanged));
    assert_eq!(presentation_step(&expanded, FloatingPresentation::Collapsed), Ok(PresentationStep::Collapse));
    let mut orb = settings(ProductWindowMode::Floating, FloatingPresentation::Collapsed);
    orb.locked = true;
    assert_eq!(presentation_step(&orb, FloatingPresentation::Expanded), Ok(PresentationStep::Expand { resizable: false }));
    assert_eq!(
        presentation_step(&settings(ProductWindowMode::Sidebar, FloatingPresentation::Collapsed), FloatingPresentation::Expanded),
        Err("Floating presentation is only available in Floating mode".to_string())
    );
}

#[test]
fn quick_links_open_by_id_and_are_revalidated() {
    let links = vec![
        QuickLink { id: "docs".into(), name: "Docs".into(), url: "https://docs.example.com".into() },
        QuickLink { id: "bad".into(), name: "Bad".into(), url: "file:///etc/passwd".into() },
    ];
    assert_eq!(quick_link_target(&links, "docs"), Ok("https://docs.example.com".to_string()));
    assert!(quick_link_target(&links, "bad").is_err());
    assert_eq!(quick_link_target(&links, "gone"), Err("quick link not found: gone".to_string()));
}

#[test]
fn window_events_persist_what_the_presentation_owns() {
    let expanded = settings(ProductWindowMode::Floating, FloatingPresentation::Expanded);
    assert_eq!(moved_effect(true, false, &expanded, None), MoveEffect::Ignore);
    assert_eq!(moved_effect(false, true, &expanded, None), MoveEffect::Ignore);
    assert_eq!(moved_effect(false, false, &expanded, Some(SidebarSide::Right)), MoveEffect::SnapToSidebar(SidebarSide::Right));
    assert_eq!(moved_effect(false, false, &expanded, None), MoveEffect::PersistExpanded);
    let mut locked = expanded.clone();
    locked.locked = true;
    assert_eq!(moved_effect(false, false, &locked, Some(SidebarSide::Left)), MoveEffect::PersistExpanded);
    let orb = settings(ProductWindowMode::Floating, FloatingPresentation::Collapsed);
    assert_eq!(moved_effect(false, false, &orb, None), MoveEffect::PersistOrb);
    let desktop = settings(ProductWindowMode::Desktop, FloatingPresentation::Collapsed);
    assert_eq!(moved_effect(false, false, &desktop, None), MoveEffect::PersistDesktop);
    let sidebar = settings(ProductWindowMode::Sidebar, FloatingPresentation::Collapsed);
    assert_eq!(moved_effect(false, false, &sidebar, None), MoveEffect::Nothing);

    assert_eq!(resized_effect(false, false, &sidebar), ResizeEffect::SidebarWidth);
    assert_eq!(resized_effect(false, false, &expanded), ResizeEffect::ExpandedSize);
    assert_eq!(resized_effect(false, false, &orb), ResizeEffect::Nothing);
    assert_eq!(resized_effect(false, false, &desktop), ResizeEffect::PersistDesktop);
    assert_eq!(resized_effect(true, false, &desktop), ResizeEffect::Ignore);
}
