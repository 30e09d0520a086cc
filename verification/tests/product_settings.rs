use desktop_todo::product_commands::{validate_quick_links, validated_project_url, PROJECT_URL};
use desktop_todo::settings::{
    validate_quick_link_url, FloatingPresentation, ProductSettings, ProductWindowMode, QuickLink, RenderingBackend,
    DEFAULT_QUICK_LINK_NAME, LEGACY_HOMEPAGE_LINK_ID,
};

fn link(id: &str, name: &str, url: &str) -> QuickLink {
    QuickLink { id: id.into(), name: name.into(), url: url.into() }
}

#[test]
fn only_the_project_page_is_launchable() {
    assert!(validated_project_url(PROJECT_URL));
    assert_eq!(PROJECT_URL, "https://github.com/alanfloyd-dev/desktop-todo-widget");
    for rejected in [
        "",
        "https://github.com/alanfloyd-dev/desktop-todo-widget/issues",
        "https://github.com/alanfloyd-dev/desktop-todo-widget/",
        "https://example.com",
        "http://github.com/alanfloyd-dev/desktop-todo-widget",
        "file:///C:/Windows/System32/cmd.exe",
        "https://github.com/alanfloyd-dev/desktop-todo-widget & calc.exe",
    ] {
        assert!(!validated_project_url(rejected), "{rejected} must not be launchable from the native menu");
    }
}

#[test]
fn quick_links_reject_only_unusable_rows() {
    assert!(validate_quick_links(&vec![
        link("a", "Docs", "https://example.com/docs"),
        link("b", "Docs", "https://example.com/docs"),
    ])
    .is_ok());
    assert!(validate_quick_links(&vec![]).is_ok());
    assert!(validate_quick_links(&vec![link("a", "   ", "https://example.com")]).is_err());
    assert!(validate_quick_links(&vec![link(" ", "Docs", "https://example.com")]).is_err());
    assert!(validate_quick_links(&vec![link("a", "Docs", "javascript:alert(1)")]).is_err());
}

#[test]
fn quick_link_refusals_name_the_broken_field() {
    assert_eq!(
        validate_quick_links(&vec![link(" ", "Docs", "https://example.com")]).unwrap_err(),
        "quick link is missing its id"
    );
    assert_eq!(
        validate_quick_links(&vec![link("a", "  ", "https://example.com")]).unwrap_err(),
        "quick link name cannot be empty"
    );
}

#[test]
fn rendering_backend_round_trips_and_parses_from_str() {
    assert_eq!(ProductSettings::default().rendering_backend, RenderingBackend::Standard);
    assert_eq!(RenderingBackend::from_name("standard").expect("standard"), RenderingBackend::Standard);
    assert_eq!(RenderingBackend::from_name("enhanced").expect("enhanced"), RenderingBackend::Enhanced);
    assert!(RenderingBackend::from_name("composition").is_err());
    assert!(RenderingBackend::Enhanced.uses_composition_hosting());
    assert!(!RenderingBackend::Standard.uses_composition_hosting());
    assert_eq!(RenderingBackend::Enhanced.as_str(), "enhanced");
    assert_eq!(RenderingBackend::Standard.as_str(), "standard");
}

#[test]
fn window_mode_names_round_trip() {
    for mode in [ProductWindowMode::Sidebar, ProductWindowMode::Floating, ProductWindowMode::Desktop] {
        assert_eq!(ProductWindowMode::from_name(mode.as_str()).expect("mode"), mode);
    }
    assert!(ProductWindowMode::from_name("fullscreen").is_err());
}

#[test]
fn quick_links_default_shape_is_an_empty_list() {
    let settings = ProductSettings::default();
    assert!(settings.quick_links.is_empty());
    assert_eq!(settings.floating_presentation, FloatingPresentation::Collapsed);
    assert_eq!(settings.display_name, "User");
}

fn legacy(label: &str, url: &str) -> ProductSettings {
    ProductSettings { homepage_label: label.into(), homepage_url: url.into(), ..ProductSettings::default() }
}

#[test]
fn legacy_homepage_migrates_to_one_quick_link_once() {
    let mut settings = legacy("Personal Site", "https://www.example.net");
    settings.normalize();
    assert_eq!(settings.quick_links, vec![link(LEGACY_HOMEPAGE_LINK_ID, "Personal Site", "https://www.example.net")]);
    settings.normalize();
    assert_eq!(settings.quick_links.len(), 1);
}

#[test]
fn legacy_homepage_without_a_label_gets_the_neutral_name() {
    let mut settings = legacy("", "https://example.com");
    settings.normalize();
    assert_eq!(settings.quick_links.len(), 1);
    assert_eq!(settings.quick_links[0].name, DEFAULT_QUICK_LINK_NAME);
}

#[test]
fn legacy_homepage_with_no_url_migrates_to_nothing() {
    let mut settings = legacy("Homepage", "");
    settings.normalize();
    assert!(settings.quick_links.is_empty());
}

#[test]
fn legacy_homepage_with_an_unusable_url_is_not_migrated() {
    let mut settings = legacy("Something", "javascript:alert(1)");
    settings.normalize();
    assert!(settings.quick_links.is_empty());
}

#[test]
fn an_existing_list_is_never_re_seeded_from_the_legacy_pair() {
    let mut settings = legacy("Personal Site", "https://www.example.net");
    settings.normalize();
    assert_eq!(settings.quick_links.len(), 1);

    settings.quick_links.clear();
    settings.normalize_quick_links();
    assert!(settings.quick_links.is_empty());

    settings.quick_links = vec![link("kept", "Kept", "https://example.com/kept")];
    settings.normalize();
    assert_eq!(settings.quick_links.len(), 1);
    assert_eq!(settings.quick_links[0].id, "kept");
}

#[test]
fn normalizing_drops_unusable_quick_links_and_trims_the_rest() {
    let mut settings = ProductSettings {
        quick_links: vec![
            link("  keep  ", "  Docs  ", "  https://example.com/docs  "),
            link("no-name", "   ", "https://example.com"),
            link("bad-url", "Bad", "file:///C:/private.txt"),
            link("", "No id", "https://example.com"),
        ],
        ..ProductSettings::default()
    };
    settings.normalize();
    assert_eq!(settings.quick_links, vec![link("keep", "Docs", "https://example.com/docs")]);
}

#[test]
fn normalizing_twice_changes_nothing_more() {
    let mut settings = ProductSettings {
        width: 5000,
        sidebar_width: 10,
        quick_links: vec![link(" a ", " A ", " https://example.com/a "), link("b", "", "https://example.com")],
        avatar_asset_id: Some("../avatar.png".into()),
        ..ProductSettings::default()
    };
    settings.normalize();
    let once = settings.clone();
    settings.normalize();
    assert_eq!(settings.quick_links, once.quick_links);
    assert_eq!(settings.width, once.width);
    assert_eq!(settings.width, 1100);
    assert_eq!(settings.sidebar_width, 320);
    assert_eq!(settings.avatar_asset_id, None);
}

#[test]
fn url_validation_accepts_only_http_and_https_with_a_host() {
    for accepted in ["https://example.com/", "http://localhost:3000/", "https://example.com/path?query=1#fragment"] {
        assert!(validate_quick_link_url(accepted).is_ok(), "{accepted} should be accepted");
    }
    for rejected in [
        "",
        "example.com",
        "/relative/path",
        "javascript:alert(1)",
        "file:///C:/private.txt",
        "data:text/html,<h1>x</h1>",
        "shell:startup",
        "mailto:someone@example.com",
        "ftp://example.com/file",
        "https://",
        "https:// example.com",
    ] {
        assert!(validate_quick_link_url(rejected).is_err(), "{rejected} should be rejected");
    }
}

#[test]
fn a_list_emptied_after_migration_stays_empty_under_normalize() {
    let mut settings = legacy("Personal Site", "https://www.example.net");
    settings.normalize();
    assert_eq!(settings.quick_links.len(), 1);
    assert!(settings.homepage_url.is_empty() && settings.homepage_label.is_empty());
    settings.quick_links.clear();
    settings.normalize();
    assert!(settings.quick_links.is_empty());
}
