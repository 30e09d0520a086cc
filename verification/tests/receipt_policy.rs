use desktop_todo::maintenance::error::ErrorKind;
use desktop_todo::maintenance::paths::Paths;
use desktop_todo::maintenance::receipt::{validate_uuid, FileRecord, Lifecycle, Receipt};
use desktop_todo::maintenance::resources::{asset_file, data_file, Resource};

const ID: &str = "6f1c2a9e-3b4d-4e5f-8a7b-9c0d1e2f3a4b";

fn record(identity: Resource) -> FileRecord {
    FileRecord { identity, version: "1.1.0".into(), size: 2, sha256: "a".repeat(64) }
}

fn fixture() -> (Paths, Receipt) {
    let paths = Paths::sandbox("C:\\Users\\tester\\dtw-core-tests\\case", ID);
    let files = vec![record(Resource::MainExecutable), record(Resource::MaintenanceHelper)];
    let receipt = Receipt::new(&paths, "1.1.0", files, true, ID.to_string(), "2026-08-29T10:00:00Z".to_string());
    (paths, receipt)
}

#[test]
fn fresh_receipt_is_valid() {
    let (p, r) = fixture();
    assert!(r.validate(&p).is_ok());
    assert_eq!(r.lifecycle_state, Lifecycle::Installing);
    assert_eq!(r.maintenance.receipt_generation, 1);
}

#[test]
fn rejects_bad_receipts_and_duplicate_fields() {
    let (p, r) = fixture();
    let mutations: [(fn(&mut Receipt), ErrorKind); 6] = [
        (|r: &mut Receipt| r.schema_version = 2, ErrorKind::UnsupportedReceiptSchema),
        (|r: &mut Receipt| r.app_id = "other".into(), ErrorKind::AppIdMismatch),
        (|r: &mut Receipt| r.install_root = "C:\\Windows".into(), ErrorKind::InstallRootMismatch),
        (|r: &mut Receipt| r.data_root = "C:\\".into(), ErrorKind::DataRootMismatch),
        (|r: &mut Receipt| r.installation_id = "bad".into(), ErrorKind::ReceiptMalformed),
        (|r: &mut Receipt| r.runtime_resources[1].identity = Resource::MainExecutable, ErrorKind::ReceiptMalformed),
    ];
    for (mutate, kind) in mutations {
        let mut bad = r.clone();
        mutate(&mut bad);
        assert_eq!(bad.validate(&p).unwrap_err().kind, kind);
    }
}

#[test]
fn roots_compare_without_case() {
    let (p, mut r) = fixture();
    r.install_root = r.install_root.to_uppercase();
    assert!(r.validate(&p).is_ok());
}

#[test]
fn saving_advances_the_generation_and_stamps_the_time() {
    let (p, mut r) = fixture();
    r.prepare_save(&p, "2026-08-30T08:00:00Z".to_string()).unwrap();
    assert_eq!(r.maintenance.receipt_generation, 2);
    assert_eq!(r.updated_at, "2026-08-30T08:00:00Z");
    assert!(r.prepare_save(&p, "2026-08-30 08:00".to_string()).is_err());
}

#[test]
fn exact_resources_and_assets() {
    assert_eq!(Resource::from_filename("DESKTOP-TODO-WIDGET.EXE"), Some(Resource::MainExecutable));
    assert_eq!(Resource::from_filename("license_zh.md"), Some(Resource::LicenseZh));
    for name in ["other.dll", "notes.md", "desktop-todo-widget.exe.bak", "../desktop-todo-widget.exe"] {
        assert!(Resource::from_filename(name).is_none());
    }
    assert!(data_file("alan-desktop.sqlite3-wal"));
    assert!(!asset_file("background-unknown.png"));
    assert!(asset_file(&format!("avatar-{ID}.png")));
}

#[test]
fn support_identities_never_count_as_runtime() {
    assert!(Resource::MainExecutable.runtime() && Resource::MaintenanceHelper.runtime());
    for support in [Resource::Readme, Resource::ReadmeZh, Resource::License, Resource::LicenseZh, Resource::ThirdPartyNotices] {
        assert!(!support.runtime(), "{support:?} must stay support-only");
        let (p, _) = fixture();
        let receipt = Receipt::new(&p, "1.1.0", vec![record(support)], false, ID.to_string(), "2026-08-29T10:00:00Z".to_string());
        assert!(receipt.validate(&p).is_err());
    }
}

#[test]
fn identifiers_must_be_canonical_and_not_nil() {
    assert!(validate_uuid(ID).is_ok());
    assert!(validate_uuid(&ID.to_uppercase()).is_err());
    assert!(validate_uuid("00000000-0000-0000-0000-000000000000").is_err());
    assert!(validate_uuid("6f1c2a9e3b4d4e5f8a7b9c0d1e2f3a4b").is_err());
    assert!(validate_uuid("bad").is_err());
}

#[test]
fn each_rejection_carries_its_own_text() {
    let (p, r) = fixture();
    let mut other_app = r.clone();
    other_app.app_id = "other".into();
    assert_eq!(other_app.validate(&p).unwrap_err().detail, "Receipt appId mismatch");
    let mut bad_id = r.clone();
    bad_id.installation_id = "not-a-uuid".into();
    assert_eq!(bad_id.validate(&p).unwrap_err().detail, "Invalid canonical UUID");
    let mut future = r.clone();
    future.schema_version = 9;
    assert_eq!(future.validate(&p).unwrap_err().detail, "Unsupported receipt schema/protocol");
    assert_eq!(validate_uuid("6F1C2A9E-3B4D-4E5F-8A7B-9C0D1E2F3A4B").unwrap_err().detail, "Invalid canonical UUID");
}
