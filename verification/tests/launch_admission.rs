use desktop_todo::admission::{admission_precheck, admit_launch, block_lock, block_receipt, AdmissionBlock, HandoffLatch, StartupContext};
use desktop_todo::maintenance::error::Error;
use desktop_todo::maintenance::paths::Paths;
use desktop_todo::maintenance::receipt::{FileRecord, Lifecycle, Receipt};
use desktop_todo::maintenance::resources::Resource;

const ID: &str = "0b4f7c2e-9d1a-4c3b-8e5f-6a7b8c9d0e1f";
const ROOT: &str = "C:\\Users\\tester\\admission-tests\\case";

fn fixture() -> Paths {
    Paths::sandbox(ROOT, ID)
}

fn installed_receipt(paths: &Paths) -> Receipt {
    let files = [Resource::MainExecutable, Resource::MaintenanceHelper]
        .map(|identity| FileRecord { identity, version: "1.1.0".into(), size: 2, sha256: "a".repeat(64) })
        .to_vec();
    let mut receipt = Receipt::new(paths, "1.1.0", files, false, ID.to_string(), "2026-08-29T10:00:00Z".to_string());
    receipt.lifecycle_state = Lifecycle::Installed;
    receipt
}

/// What admission makes of a receipt as loaded from disk.
fn classify(paths: &Paths, receipt: Option<Receipt>, helper_present: bool, image_dir: Option<&str>) -> Result<StartupContext, AdmissionBlock> {
    let loaded: Result<Option<Receipt>, Error> = match receipt {
        Some(r) => r.validate(paths).map(|()| Some(r)),
        None => Ok(None),
    };
    let receipt = admission_precheck(false, loaded)?;
    admit_launch(paths, receipt, helper_present, image_dir).map(|a| a.context)
}

#[test]
fn missing_receipt_is_unmanaged_and_gate_is_released() {
    let p = fixture();
    let admitted = admit_launch(&p, None, false, Some("C:\\dev-bin")).unwrap();
    assert_eq!(admitted.context, StartupContext::Unmanaged);
    assert_eq!(admitted.installation_id, None);
}

#[test]
fn valid_installed_receipt_admits_managed_runtime_from_install_root() {
    let p = fixture();
    let receipt = installed_receipt(&p);
    let install = p.install().to_string();
    let admitted = admit_launch(&p, Some(receipt), true, Some(&install)).unwrap();
    assert_eq!(admitted.context, StartupContext::Managed);
    assert_eq!(admitted.installation_id.as_deref(), Some(ID));
    let upper = install.to_uppercase();
    assert_eq!(classify(&p, Some(installed_receipt(&p)), true, Some(&upper)).unwrap(), StartupContext::Managed);
}

#[test]
fn valid_receipt_outside_install_root_is_development() {
    let p = fixture();
    assert_eq!(classify(&p, Some(installed_receipt(&p)), true, Some("C:\\dev-bin")).unwrap(), StartupContext::Development);
    assert_eq!(classify(&p, Some(installed_receipt(&p)), true, None).unwrap(), StartupContext::Development);
}

#[test]
fn wrong_app_id_fails_closed() {
    let p = fixture();
    let mut r = installed_receipt(&p);
    r.app_id = "com.other.product".into();
    assert!(matches!(classify(&p, Some(r), true, None), Err(AdmissionBlock::AppIdMismatch)));
}

#[test]
fn wrong_install_root_fails_closed() {
    let p = fixture();
    let mut r = installed_receipt(&p);
    r.install_root = "C:\\Windows".into();
    assert!(matches!(classify(&p, Some(r), true, None), Err(AdmissionBlock::InstallRootMismatch)));
}

#[test]
fn wrong_data_root_fails_closed() {
    let p = fixture();
    let mut r = installed_receipt(&p);
    r.data_root = "C:\\Users\\elsewhere".into();
    assert!(matches!(classify(&p, Some(r), true, None), Err(AdmissionBlock::DataRootMismatch)));
}

#[test]
fn unsupported_schema_fails_closed() {
    let p = fixture();
    let mut r = installed_receipt(&p);
    r.schema_version = 2;
    assert!(matches!(classify(&p, Some(r), true, None), Err(AdmissionBlock::UnsupportedReceiptSchema)));
}

#[test]
fn malformed_receipt_fails_closed_not_unmanaged() {
    let p = fixture();
    let mut r = installed_receipt(&p);
    r.installation_id = "not-an-id".into();
    assert!(matches!(classify(&p, Some(r), true, None), Err(AdmissionBlock::ReceiptMalformed(_))));
}

#[test]
fn transitional_lifecycle_blocks_normal_launch() {
    let p = fixture();
    for (state, name) in [
        (Lifecycle::Installing, "Installing"),
        (Lifecycle::Updating, "Updating"),
        (Lifecycle::Uninstalling, "Uninstalling"),
        (Lifecycle::RecoveryRequired, "RecoveryRequired"),
    ] {
        let mut r = installed_receipt(&p);
        r.lifecycle_state = state;
        match classify(&p, Some(r), true, None) {
            Err(AdmissionBlock::LifecycleBusy(s)) => assert_eq!(s, name),
            other => panic!("state {name} must block normal launch, got {other:?}"),
        }
    }
}

#[test]
fn helper_without_receipt_is_broken_managed_state() {
    let p = fixture();
    assert!(matches!(classify(&p, None, true, Some("C:\\dev-bin")), Err(AdmissionBlock::ManagedReceiptMissing)));
}

#[test]
fn main_exe_without_receipt_is_legacy_unmanaged() {
    let p = fixture();
    assert_eq!(classify(&p, None, false, Some("C:\\dev-bin")).unwrap(), StartupContext::Unmanaged);
}

#[test]
fn active_uninstall_journal_blocks_launch() {
    let p = fixture();
    match admission_precheck(true, Ok(Some(installed_receipt(&p)))) {
        Err(AdmissionBlock::DurableMaintenanceState(detail)) => assert_eq!(detail, "active uninstall journal"),
        other => panic!("journal must block, got {other:?}"),
    }
}

#[test]
fn uninstall_handoff_requires_managed_admission() {
    let mut latch = HandoffLatch::new();
    assert_eq!(latch.begin(StartupContext::Unmanaged), Err("not-managed"));
    assert_eq!(latch.begin(StartupContext::Development), Err("not-managed"));
}

#[test]
fn managed_handoff_launches_canonical_helper_then_exits_once() {
    let mut latch = HandoffLatch::new();
    assert_eq!(latch.begin(StartupContext::Managed), Ok(()));
    assert_eq!(latch.begin(StartupContext::Managed), Err("already-started"));
}

#[test]
fn handoff_failures_keep_the_app_alive_and_the_entry_usable() {
    let mut latch = HandoffLatch::new();
    assert_eq!(latch.begin(StartupContext::Managed), Ok(()));
    latch.release();
    assert_eq!(latch.begin(StartupContext::Managed), Ok(()));
}

#[test]
fn a_held_maintenance_lock_is_reported_with_its_cause() {
    let error = Error::new(desktop_todo::maintenance::error::ErrorKind::LockUnavailable, "gate busy".to_string());
    match block_lock(&error) {
        AdmissionBlock::MaintenanceLockHeld(detail) => assert_eq!(detail, "LockUnavailable: gate busy"),
        other => panic!("unexpected block {other:?}"),
    }
}

#[test]
fn receipt_load_failures_map_to_their_refusals() {
    match block_receipt(Error::new(desktop_todo::maintenance::error::ErrorKind::ReceiptMalformed, "bad json".to_string())) {
        AdmissionBlock::ReceiptMalformed(detail) => assert_eq!(detail, "bad json"),
        other => panic!("unexpected block {other:?}"),
    }
    assert!(matches!(block_receipt(Error::new(desktop_todo::maintenance::error::ErrorKind::AppIdMismatch, String::new())), AdmissionBlock::AppIdMismatch));
    assert!(matches!(
        block_receipt(Error::new(desktop_todo::maintenance::error::ErrorKind::UnsupportedReceiptSchema, String::new())),
        AdmissionBlock::UnsupportedReceiptSchema
    ));
    match block_receipt(Error::new(desktop_todo::maintenance::error::ErrorKind::Io, "denied".to_string())) {
        AdmissionBlock::UnsafeInstallation(detail) => assert_eq!(detail, "Io: denied"),
        other => panic!("unexpected block {other:?}"),
    }
}

#[test]
fn managed_handoff_spawns_the_canonical_helper_once_and_rearms_on_failure() {
    let root = "C:\\Users\\t\\AppData\\Local\\Programs\\desktop-todo-widget";
    let helper = format!("{root}\\desktop-todo-maintenance.exe");
    let mut latch = HandoffLatch::new();
    assert_eq!(latch.begin_handoff(StartupContext::Development, root, true), Err("not-managed"));
    assert_eq!(latch.begin_handoff(StartupContext::Managed, root, false), Err("helper-unavailable"));
    assert_eq!(latch.begin_handoff(StartupContext::Managed, root, true), Ok(helper.clone()));
    assert_eq!(latch.finish_handoff(false), Err("launch-failed"));
    assert_eq!(latch.begin_handoff(StartupContext::Managed, root, true), Ok(helper));
    assert_eq!(latch.finish_handoff(true), Ok(()));
    assert_eq!(latch.begin_handoff(StartupContext::Managed, root, true), Err("already-started"));
}
