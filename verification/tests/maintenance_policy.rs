use desktop_todo::maintenance::elevation::{refuse_elevated, token_is_elevated};
use desktop_todo::maintenance::error::ErrorKind;
use desktop_todo::maintenance::lock::{current_user_sddl, enter_app, gate_name};
use desktop_todo::maintenance::paths::{
    check_handle, pin_parents, Ancestor, HandleFacts, Paths, FILE_ATTRIBUTE_DIRECTORY, FILE_ATTRIBUTE_REPARSE_POINT,
};
use sha2::Digest;
use desktop_todo::maintenance::lifecycle::{
    product_version, require_no_legacy_processes, version_greater, FixedVersionInfo, ProcessFacts, VersionResource,
};

#[test]
fn any_nonzero_elevation_state_refuses() {
    assert!(!token_is_elevated(0));
    assert!(token_is_elevated(1));
    assert!(token_is_elevated(0xffff_ffff));
}

#[test]
fn version_ordering_is_semantic_and_fails_closed() {
    assert!(version_greater("1.3.0", "1.2.9"));
    assert!(version_greater("1.10.0", "1.9.0"));
    assert!(version_greater("2.0.0", "1.99.99"));
    assert!(!version_greater("1.1.0", "1.1.0"));
    assert!(!version_greater("1.0.9", "1.1.0"));
    // Unparseable input must refuse the operation, never silently allow it.
    assert!(version_greater("1.2", "1.1.0"));
    assert!(version_greater("banana", "1.1.0"));
}

#[test]
fn elevated_token_is_refused_with_its_own_kind() {
    assert!(refuse_elevated(0).is_ok());
    let error = refuse_elevated(7).unwrap_err();
    assert_eq!(error.kind, ErrorKind::ElevatedExecution);
    assert!(error.detail.contains("without administrator elevation"));
}

fn resource(size: u32, fixed: Option<FixedVersionInfo>, translation: bool, name: Option<&str>) -> VersionResource {
    VersionResource {
        info_size: size,
        fixed,
        has_translation: translation,
        product_name: name.map(|n| n.to_string()),
    }
}

fn info(ms: u32, ls: u32) -> Option<FixedVersionInfo> {
    Some(FixedVersionInfo { signature: 0xfeef04bd, product_version_ms: ms, product_version_ls: ls })
}

#[test]
fn product_version_reads_major_minor_patch() {
    let ok = resource(512, info((1 << 16) | 12, 3 << 16), true, Some("desktop-todo-widget"));
    assert_eq!(product_version(&ok).unwrap(), "1.12.3");
}

#[test]
fn product_version_refuses_each_broken_resource_in_order() {
    let cases = [
        (resource(0, None, false, None), "Missing or oversized PE version information"),
        (resource(1024 * 1024 + 1, info(1 << 16, 0), true, Some("desktop-todo-widget")), "Missing or oversized PE version information"),
        (resource(512, None, true, Some("desktop-todo-widget")), "Invalid PE version resource"),
        (resource(512, info(1 << 16, 1), true, Some("desktop-todo-widget")), "Unsupported PE version"),
        (
            resource(
                512,
                Some(FixedVersionInfo { signature: 1, product_version_ms: 1 << 16, product_version_ls: 0 }),
                true,
                Some("desktop-todo-widget"),
            ),
            "Unsupported PE version",
        ),
        (resource(512, info(1 << 16, 0), false, Some("desktop-todo-widget")), "Missing PE product identity"),
        (resource(512, info(1 << 16, 0), true, None), "Missing PE ProductName"),
        (resource(512, info(1 << 16, 0), true, Some("other-product")), "Unexpected PE ProductName"),
    ];
    for (input, detail) in cases {
        let error = product_version(&input).unwrap_err();
        assert_eq!(error.kind, ErrorKind::InvalidInstallation);
        assert_eq!(error.detail, detail);
    }
}

#[test]
fn the_maintenance_gate_is_named_after_the_lower_case_install_root() {
    let paths = Paths::sandbox("C:\\Users\\Tester\\Gate", "6f1c2a9e-3b4d-4e5f-8a7b-9c0d1e2f3a4b");
    let same_root = Paths::sandbox("c:\\users\\tester\\gate", "6f1c2a9e-3b4d-4e5f-8a7b-9c0d1e2f3a4b");
    let expected = format!(
        "Local\\desktop-todo-maintenance-{:x}",
        sha2::Sha256::digest(paths.install().to_lowercase().as_bytes())
    );
    assert_eq!(gate_name(&paths), expected);
    assert_eq!(gate_name(&same_root), gate_name(&paths));
    assert_eq!(gate_name(&paths).len(), "Local\\desktop-todo-maintenance-".len() + 64);
}

#[test]
fn app_lease_requires_a_settled_installation() {
    assert_eq!(current_user_sddl("S-1-5-21-1"), "D:P(A;;GA;;;SY)(A;;GA;;;S-1-5-21-1)");
    assert!(enter_app(false, &None, false).is_ok());
    assert_eq!(enter_app(true, &None, false).unwrap_err().detail, "Uninstall is incomplete. Run the maintenance helper again.");
    assert_eq!(
        enter_app(false, &None, true).unwrap_err().detail,
        "Managed receipt missing; run the trusted installer or uninstall helper."
    );
}

#[test]
fn running_product_instances_block_maintenance() {
    let desktop = Paths::from_known_folders("C:\\Users\\t\\AppData\\Local", "C:\\Users\\t\\AppData\\Roaming", "C:\\Users\\t\\Programs");
    let others = vec![ProcessFacts { name: "explorer.exe".into(), image: None }];
    assert!(require_no_legacy_processes(&desktop, &others).is_ok());
    let running = vec![ProcessFacts { name: "Desktop-Todo-Widget.EXE".into(), image: Some("D:\\portable\\desktop-todo-widget.exe".into()) }];
    let error = require_no_legacy_processes(&desktop, &running).unwrap_err();
    assert_eq!(error.kind, ErrorKind::MainProcessStillRunning);
    assert_eq!(error.detail, "Quit all desktop-todo-widget instances from their tray menus, then retry");
    let hidden = vec![ProcessFacts { name: "alan-desktop.exe".into(), image: None }];
    assert_eq!(
        require_no_legacy_processes(&desktop, &hidden).unwrap_err().detail,
        "A product-named process cannot be inspected; close it before maintenance"
    );
    // A QA sandbox only waits for its own runtime.
    let sandbox = Paths::sandbox("C:\\qa\\case", "6f1c2a9e-3b4d-4e5f-8a7b-9c0d1e2f3a4b");
    assert!(require_no_legacy_processes(&sandbox, &running).is_ok());
    let own = vec![ProcessFacts { name: "desktop-todo-widget.exe".into(), image: Some("C:\\QA\\case\\install\\desktop-todo-widget.exe".into()) }];
    assert!(require_no_legacy_processes(&sandbox, &own).is_err());
}

#[test]
fn roots_are_pinned_only_through_plain_directories() {
    use_pins();
}

fn use_pins() {
    let dir = HandleFacts { attributes: FILE_ATTRIBUTE_DIRECTORY, links: 1 };
    let junction = HandleFacts { attributes: FILE_ATTRIBUTE_DIRECTORY | FILE_ATTRIBUTE_REPARSE_POINT, links: 1 };
    assert!(check_handle(dir, true).is_ok());
    assert!(check_handle(HandleFacts { attributes: 0, links: 1 }, false).is_ok());
    assert!(check_handle(HandleFacts { attributes: 0, links: 2 }, false).is_err());
    assert!(check_handle(dir, false).is_err());
    assert_eq!(check_handle(junction, true).unwrap_err().detail, "Reparse point, hard link or unexpected file type");

    let path = "C:\\Users\\t\\AppData\\Local\\Programs\\desktop-todo-widget";
    let plain = vec![Ancestor::Opened(dir), Ancestor::Opened(dir), Ancestor::NotFound];
    assert!(pin_parents(path, &plain).is_ok());
    let redirected = vec![Ancestor::Opened(dir), Ancestor::Opened(junction), Ancestor::NotFound];
    assert_eq!(pin_parents(path, &redirected).unwrap_err().kind, ErrorKind::UnsafePath);
    // Nothing beyond a missing ancestor is looked at.
    let missing = vec![Ancestor::Opened(dir), Ancestor::NotFound, Ancestor::Opened(junction)];
    assert!(pin_parents(path, &missing).is_ok());
    let failed = vec![Ancestor::Failed("C:\\Users: access denied".to_string())];
    assert_eq!(pin_parents(path, &failed).unwrap_err().detail, "Cannot pin C:\\Users: access denied");
    assert_eq!(pin_parents("relative", &plain).unwrap_err().detail, "Only absolute local drive paths are supported");
    assert_eq!(pin_parents("C:\\a\\..\\b", &plain).unwrap_err().detail, "Relative path component");

    let paths = Paths::from_known_folders("C:\\Users\\t\\AppData\\Local", "C:\\Users\\t\\AppData\\Roaming", "C:\\Users\\t\\Programs");
    assert!(paths.validate().is_ok());
    let ok = vec![Ancestor::Opened(dir)];
    let pinned = paths.clone().with_ancestors(ok.clone(), ok.clone(), ok.clone(), ok.clone());
    assert!(pinned.validate().is_ok());
    let bad = vec![Ancestor::Opened(junction)];
    let redirected = paths.with_ancestors(ok.clone(), bad, ok.clone(), ok);
    let refused = redirected.validate().unwrap_err();
    assert_eq!(refused.kind, ErrorKind::UnsafePath);
    assert_eq!(refused.detail, "Reparse point, hard link or unexpected file type");
}
