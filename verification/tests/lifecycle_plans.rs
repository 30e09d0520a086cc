use sha2::Digest;
use desktop_todo::maintenance::error::{Error, ErrorKind};
use desktop_todo::maintenance::lifecycle::{
    can_remove_data, check_version, complete_install, conservative_discovery, fingerprint, finish_install, finish_outcome,
    install, install_plan, install_source_check, package_payload, payload_record, remove_data, require_product_version,
    runtime_removal_check, support_disposal, support_documents, uninstall_locked, uninstall_plan, uninstall_start,
    CopiedDocument, DataMode, Fingerprint, FixedVersionInfo, InstallCopies, InstallSurvey, Outcome, ProcessFacts,
    RuntimeFile, RuntimeOnDisk, SupportDisposal, UninstallFindings, UninstallJournal, UninstallRun, UninstallStart,
    UninstallSurvey, VersionResource, FIXED_INFO_SIGNATURE,
};
use desktop_todo::maintenance::paths::{Ancestor, HandleFacts, Paths, FILE_ATTRIBUTE_DIRECTORY, FILE_ATTRIBUTE_REPARSE_POINT};
use desktop_todo::maintenance::receipt::{FileRecord, Lifecycle, Receipt};
use desktop_todo::maintenance::resources::Resource;

const ID: &str = "6f1c2a9e-3b4d-4e5f-8a7b-9c0d1e2f3a4b";
const OTHER_ID: &str = "0b9e8d7c-6a5b-4c3d-9e2f-1a0b9c8d7e6f";
const SOURCE: &str = "D:\\Downloads\\desktop-todo-widget";
const NOW: &str = "2026-08-29T10:00:00Z";

fn paths() -> Paths {
    Paths::sandbox("C:\\Users\\tester\\dtw-core-tests\\case", ID)
}

fn record(identity: Resource, fill: char) -> FileRecord {
    FileRecord { identity, version: "1.2.0".into(), size: 2, sha256: fill.to_string().repeat(64) }
}

fn view(records: &[FileRecord]) -> Vec<(Resource, String, u64, String)> {
    records.iter().map(|r| (r.identity, r.version.clone(), r.size, r.sha256.clone())).collect()
}

fn fingerprint_of(r: &FileRecord) -> Fingerprint {
    Fingerprint { size: r.size, sha256: r.sha256.clone() }
}

fn payload() -> Vec<FileRecord> {
    vec![record(Resource::MainExecutable, 'a'), record(Resource::MaintenanceHelper, 'b')]
}

fn image(major: u32, minor: u32, patch: u32) -> VersionResource {
    VersionResource {
        info_size: 1024,
        fixed: Some(FixedVersionInfo {
            signature: FIXED_INFO_SIGNATURE,
            product_version_ms: (major << 16) | minor,
            product_version_ls: patch << 16,
        }),
        has_translation: true,
        product_name: Some("desktop-todo-widget".to_string()),
    }
}

fn survey(previous: Option<Receipt>, existing: Vec<Option<RuntimeOnDisk>>, support_on_disk: Vec<Option<Fingerprint>>) -> InstallSurvey {
    InstallSurvey {
        package_main: image(1, 2, 0),
        package_helper: image(1, 2, 0),
        processes: vec![],
        uninstall_pending: false,
        previous,
        payload: payload(),
        existing,
        support_on_disk,
    }
}

fn installed(version: &str, documents: Vec<FileRecord>) -> Receipt {
    let mut receipt = Receipt::new(&paths(), version, payload(), true, ID.to_string(), "2026-01-01T00:00:00Z".to_string());
    finish_install(&mut receipt, documents);
    receipt
}

#[test]
fn a_fresh_install_plans_an_installing_receipt() {
    let receipt = install_plan(&paths(), SOURCE, survey(None, vec![None, None], vec![]), "1.2.0", true, ID.to_string(), NOW.to_string())
        .unwrap();
    assert_eq!(receipt.lifecycle_state, Lifecycle::Installing);
    assert_eq!(receipt.current_version.as_deref(), Some("1.2.0"));
    assert_eq!(receipt.installation_id, ID);
    assert_eq!(receipt.installed_at, NOW);
    assert_eq!(receipt.maintenance.receipt_generation, 1);
    assert_eq!(view(&receipt.runtime_resources), view(&payload()));
    assert!(receipt.support_resources.is_empty());
    assert!(receipt.validate(&paths()).is_ok());
}

#[test]
fn an_install_is_refused_while_an_uninstall_is_pending_or_on_a_downgrade() {
    let mut pending = survey(None, vec![None, None], vec![]);
    pending.uninstall_pending = true;
    let error = install_plan(&paths(), SOURCE, pending, "1.2.0", true, ID.to_string(), NOW.to_string()).unwrap_err();
    assert_eq!((error.kind, error.detail.as_str()), (ErrorKind::InvalidInstallation, "Resume incomplete uninstall first"));

    let newer = installed("1.3.0", vec![]);
    let error = install_plan(&paths(), SOURCE, survey(Some(newer), vec![None, None], vec![]), "1.2.0", true, ID.to_string(), NOW.to_string())
        .unwrap_err();
    assert_eq!(error.detail, "Downgrade refused: the installation has 1.3.0, this installer is 1.2.0");

    let mut broken = installed("1.2.0", vec![]);
    broken.lifecycle_state = Lifecycle::RecoveryRequired;
    let error = install_plan(&paths(), SOURCE, survey(Some(broken), vec![None, None], vec![]), "1.2.0", true, ID.to_string(), NOW.to_string())
        .unwrap_err();
    assert_eq!(error.detail, "Installation requires recovery/uninstall");
}

#[test]
fn a_foreign_runtime_file_blocks_the_install_but_a_legacy_build_does_not() {
    let foreign = RuntimeOnDisk { fingerprint: Fingerprint { size: 9, sha256: "f".repeat(64) }, product_version: None };
    let error = install_plan(&paths(), SOURCE, survey(None, vec![Some(foreign), None], vec![]), "1.2.0", true, ID.to_string(), NOW.to_string())
        .unwrap_err();
    assert_eq!(error.detail, "Existing runtime ownership/hash conflict");

    let legacy = RuntimeOnDisk {
        fingerprint: Fingerprint { size: 9, sha256: "f".repeat(64) },
        product_version: Some("1.1.0".to_string()),
    };
    assert!(install_plan(&paths(), SOURCE, survey(None, vec![Some(legacy), None], vec![]), "1.2.0", true, ID.to_string(), NOW.to_string()).is_ok());

    let same = RuntimeOnDisk { fingerprint: fingerprint_of(&payload()[1]), product_version: None };
    assert!(install_plan(&paths(), SOURCE, survey(None, vec![None, Some(same)], vec![]), "1.2.0", true, ID.to_string(), NOW.to_string()).is_ok());
}

#[test]
fn a_reinstall_keeps_identity_and_only_verifiable_documents() {
    let readme = record(Resource::Readme, 'c');
    let license = record(Resource::License, 'd');
    let previous = installed("1.2.0", vec![readme.clone(), license.clone()]);
    let on_disk = vec![Some(fingerprint_of(&readme)), Some(Fingerprint { size: 3, sha256: "e".repeat(64) })];
    let receipt = install_plan(&paths(), SOURCE, survey(Some(previous), vec![None, None], on_disk), "1.2.0", false, OTHER_ID.to_string(), NOW.to_string())
        .unwrap();
    assert_eq!(receipt.installation_id, ID);
    assert_eq!(receipt.installed_at, "2026-01-01T00:00:00Z");
    assert_eq!(receipt.updated_at, NOW);
    assert_eq!(view(&receipt.support_resources), view(&[readme]));
}

#[test]
fn finishing_an_install_appends_documents_and_settles_the_state() {
    let mut receipt = Receipt::new(&paths(), "1.2.0", payload(), true, ID.to_string(), NOW.to_string());
    let docs: Vec<FileRecord> = support_documents().into_iter().map(|r| record(r, 'c')).collect();
    finish_install(&mut receipt, docs.clone());
    assert_eq!(receipt.lifecycle_state, Lifecycle::Installed);
    assert_eq!(view(&receipt.support_resources), view(&docs));
    assert_eq!(support_documents().len(), 5);
    assert_eq!(support_documents()[0], Resource::Readme);
}

#[test]
fn the_package_must_not_be_run_from_the_installed_directory() {
    let p = paths();
    let own_root = p.install().to_uppercase();
    let error = install_plan(&p, &own_root, survey(None, vec![None, None], vec![]), "1.2.0", true, ID.to_string(), NOW.to_string())
        .unwrap_err();
    assert_eq!(error.kind, ErrorKind::InvalidInstallation);
    assert!(error.detail.contains("not the installed directory"));
    assert!(install_source_check(&p, "D:\\Downloads\\package").is_ok());
    let upper = p.install().to_uppercase();
    assert_eq!(install_source_check(&p, &upper).unwrap_err().kind, ErrorKind::InvalidInstallation);
}

#[test]
fn product_versions_must_agree() {
    assert!(require_product_version("1.2.0", "1.2.0", true).is_ok());
    assert_eq!(require_product_version("1.1.0", "1.2.0", true).unwrap_err().detail, "Installed version mismatch");
    assert_eq!(require_product_version("1.1.0", "1.2.0", false).unwrap_err().detail, "Package and helper ProductVersion differ");
}

fn absent() -> UninstallSurvey {
    UninstallSurvey { main_present: false, helper_present: false, receipt_present: false, journal_present: false, registration_owned: false }
}

#[test]
fn an_uninstall_with_a_trusted_receipt_proceeds_and_marks_it() {
    let receipt = installed("1.2.0", vec![]);
    match uninstall_start(Ok(Some(receipt)), DataMode::RemoveUserData, &absent()).unwrap() {
        UninstallStart::Proceed(Some(r)) => assert_eq!(r.lifecycle_state, Lifecycle::Uninstalling),
        other => panic!("unexpected start {other:?}"),
    }
    let mut updating = installed("1.2.0", vec![]);
    updating.lifecycle_state = Lifecycle::Updating;
    let error = uninstall_start(Ok(Some(updating)), DataMode::KeepUserData, &absent()).unwrap_err();
    assert_eq!(error.detail, "Unsupported recovery state; preserved");
}

#[test]
fn an_uninstall_without_a_receipt_needs_corroboration() {
    assert!(matches!(uninstall_start(Ok(None), DataMode::KeepUserData, &absent()), Ok(UninstallStart::NothingInstalled)));
    let error = uninstall_start(Ok(None), DataMode::RemoveUserData, &absent()).unwrap_err();
    assert_eq!(error.detail, "Valid receipt required for data deletion; local data kept");
    let stray = UninstallSurvey { main_present: true, ..absent() };
    assert_eq!(
        uninstall_start(Ok(None), DataMode::KeepUserData, &stray).unwrap_err().detail,
        "No corroborated managed installation; no files deleted"
    );
    let registered = UninstallSurvey { main_present: true, registration_owned: true, ..absent() };
    assert!(matches!(uninstall_start(Ok(None), DataMode::KeepUserData, &registered), Ok(UninstallStart::Proceed(None))));
    // A malformed receipt is set aside; a failure of another kind aborts.
    let malformed = Err(Error::new(ErrorKind::ReceiptMalformed, "bad".to_string()));
    assert!(matches!(uninstall_start(malformed, DataMode::KeepUserData, &registered), Ok(UninstallStart::Proceed(None))));
    let io = Err(Error::new(ErrorKind::Io, "disk".to_string()));
    assert_eq!(uninstall_start(io, DataMode::KeepUserData, &registered).unwrap_err().kind, ErrorKind::Io);
    assert!(conservative_discovery(ErrorKind::DataRootMismatch));
    assert!(!conservative_discovery(ErrorKind::Io));
    assert!(!can_remove_data(&Ok(None)));
    assert!(can_remove_data(&Ok(Some(installed("1.2.0", vec![])))));
}

#[test]
fn runtime_and_support_files_are_deleted_only_with_their_recorded_bytes() {
    let receipt = installed("1.2.0", vec![]);
    let main = fingerprint_of(&receipt.runtime_resources[0]);
    assert!(runtime_removal_check(&receipt, Resource::MainExecutable, &main).is_ok());
    let changed = Fingerprint { size: 2, sha256: "9".repeat(64) };
    let error = runtime_removal_check(&receipt, Resource::MainExecutable, &changed).unwrap_err();
    assert_eq!((error.kind, error.detail.as_str()), (ErrorKind::RuntimeRemovalFailure, "Runtime changed; preserved for manual repair"));
    assert_eq!(runtime_removal_check(&receipt, Resource::Readme, &main).unwrap_err().detail, "Missing runtime record");

    let readme = record(Resource::Readme, 'c');
    assert!(matches!(support_disposal(&readme, None), SupportDisposal::Absent));
    assert!(matches!(support_disposal(&readme, Some(fingerprint_of(&readme))), SupportDisposal::Remove));
    match support_disposal(&readme, Some(changed)) {
        SupportDisposal::Preserve(note) => assert_eq!(note, "Modified document README.md"),
        other => panic!("unexpected disposal {other:?}"),
    }
}

#[test]
fn an_unremoved_install_directory_is_reported() {
    let mut outcome = Outcome::empty();
    finish_outcome(&mut outcome, true);
    assert!(outcome.preserved.is_empty());
    finish_outcome(&mut outcome, false);
    assert_eq!(outcome.preserved, vec!["Unknown files remain in installation directory".to_string()]);
}

#[test]
fn data_cleanup_deletes_only_product_files() {
    let entries: Vec<String> =
        ["alan-desktop.sqlite3", "notes.txt", "assets", "alan-desktop.sqlite3-wal"].iter().map(|s| s.to_string()).collect();
    let assets: Vec<String> = [format!("avatar-{ID}.png"), "holiday.jpg".to_string()].to_vec();
    let mut outcome = Outcome::empty();
    let plan = remove_data(&entries, &assets, &mut outcome);
    assert_eq!(plan.files, vec!["alan-desktop.sqlite3".to_string(), "alan-desktop.sqlite3-wal".to_string()]);
    assert!(plan.sweep_assets);
    assert_eq!(plan.assets, vec![format!("avatar-{ID}.png")]);
    assert_eq!(outcome.preserved, vec!["Unknown data resource preserved".to_string(), "Unknown asset preserved".to_string()]);

    let mut quiet = Outcome::empty();
    let no_assets = remove_data(&vec!["alan-desktop.sqlite3".to_string()], &assets, &mut quiet);
    assert!(!no_assets.sweep_assets && no_assets.assets.is_empty() && quiet.preserved.is_empty());
}

#[test]
fn the_uninstall_journal_is_honoured_only_for_this_installation() {
    let p = paths();
    let receipt = Some(installed("1.2.0", vec![]));
    let journal = UninstallJournal::new(&p, &receipt, "runtime");
    assert_eq!(journal.installation_id.as_deref(), Some(ID));
    assert!(journal.check(&p, 512).is_ok());
    assert_eq!(journal.check(&p, 262145).unwrap_err().detail, "Uninstall journal mismatch");
    let elsewhere = Paths::sandbox("C:\\Users\\tester\\dtw-core-tests\\other", ID);
    assert_eq!(journal.check(&elsewhere, 512).unwrap_err().kind, ErrorKind::InvalidInstallation);
    let mut odd = UninstallJournal::new(&p, &None, "runtime");
    odd.installation_id = Some("not-an-id".to_string());
    assert_eq!(odd.check(&p, 512).unwrap_err().kind, ErrorKind::ReceiptMalformed);
}

#[test]
fn fingerprints_are_the_size_and_sha256_of_the_bytes() {
    let bytes = b"MZ runtime image";
    let f = fingerprint(bytes);
    assert_eq!(f.size, bytes.len() as u64);
    assert_eq!(f.sha256, format!("{:x}", sha2::Sha256::digest(bytes)));
    assert_ne!(f.sha256, String::from_utf8_lossy(bytes));
    let record = payload_record(Resource::MainExecutable, "1.2.0", bytes);
    assert_eq!((record.identity, record.version.as_str(), record.size), (Resource::MainExecutable, "1.2.0", bytes.len() as u64));
    assert_eq!(record.sha256, f.sha256);
    let payload = package_payload("1.2.0", bytes, b"helper image");
    assert_eq!(view(&payload), vec![
        (Resource::MainExecutable, "1.2.0".to_string(), bytes.len() as u64, f.sha256.clone()),
        (Resource::MaintenanceHelper, "1.2.0".to_string(), 12, format!("{:x}", sha2::Sha256::digest(b"helper image"))),
    ]);
}

fn on_disk(r: &FileRecord) -> Option<RuntimeFile> {
    Some(RuntimeFile { fingerprint: fingerprint_of(r), version_refusal: None })
}

#[test]
fn keeping_user_data_removes_the_runtime_and_receipt_and_reports_the_rest() {
    let readme = record(Resource::Readme, 'c');
    let receipt = installed("1.2.0", vec![readme.clone()]);
    let runtime = vec![None, on_disk(&receipt.runtime_resources[1])];
    let changed_readme = vec![Some(Fingerprint { size: 7, sha256: "e".repeat(64) })];
    let entries = vec!["alan-desktop.sqlite3".to_string(), "unknown.txt".to_string()];
    let plan = uninstall_plan(
        &Some(receipt),
        DataMode::KeepUserData,
        vec!["Unknown shortcut preserved".to_string()],
        &runtime,
        &changed_readme,
        &entries,
        &vec![],
    )
    .unwrap();
    assert_eq!(plan.remove_runtime, vec![Resource::MainExecutable, Resource::MaintenanceHelper]);
    assert!(plan.remove_support.is_empty());
    assert!(plan.data.is_none(), "kept data is never touched");
    assert!(plan.remove_receipt && plan.remove_journal);
    assert_eq!(
        plan.outcome.preserved,
        vec!["Unknown shortcut preserved".to_string(), "Modified document README.md".to_string()]
    );
    let mut outcome = plan.outcome;
    finish_outcome(&mut outcome, false);
    assert_eq!(outcome.preserved.last().unwrap(), "Unknown files remain in installation directory");
}

#[test]
fn removing_user_data_deletes_only_the_products_files() {
    let readme = record(Resource::Readme, 'c');
    let receipt = installed("1.2.0", vec![readme.clone()]);
    let runtime = vec![on_disk(&receipt.runtime_resources[0]), on_disk(&receipt.runtime_resources[1])];
    let entries = vec!["alan-desktop.sqlite3".to_string(), "unknown.txt".to_string()];
    let plan = uninstall_plan(
        &Some(receipt),
        DataMode::RemoveUserData,
        vec![],
        &runtime,
        &vec![Some(fingerprint_of(&readme))],
        &entries,
        &vec![],
    )
    .unwrap();
    assert_eq!(plan.remove_support, vec![Resource::Readme]);
    let data = plan.data.expect("data cleanup");
    assert_eq!(data.files, vec!["alan-desktop.sqlite3".to_string()]);
    assert_eq!(plan.outcome.preserved, vec!["Unknown data resource preserved".to_string()]);
}

#[test]
fn a_changed_runtime_refuses_before_any_data_action() {
    let receipt = installed("1.2.0", vec![]);
    let changed = Some(RuntimeFile { fingerprint: Fingerprint { size: 2, sha256: "9".repeat(64) }, version_refusal: None });
    let error = uninstall_plan(
        &Some(receipt),
        DataMode::RemoveUserData,
        vec![],
        &vec![changed, None],
        &vec![],
        &vec!["alan-desktop.sqlite3".to_string()],
        &vec![],
    )
    .unwrap_err();
    assert_eq!((error.kind, error.detail.as_str()), (ErrorKind::RuntimeRemovalFailure, "Runtime changed; preserved for manual repair"));

    let foreign = Some(RuntimeFile {
        fingerprint: Fingerprint { size: 2, sha256: "9".repeat(64) },
        version_refusal: Some(Error::new(ErrorKind::InvalidInstallation, "Unexpected PE ProductName".to_string())),
    });
    let error = uninstall_plan(&None, DataMode::KeepUserData, vec![], &vec![None, foreign], &vec![], &vec![], &vec![])
        .unwrap_err();
    assert_eq!(error.detail, "Unexpected PE ProductName");
}

fn faithful_copies() -> InstallCopies {
    InstallCopies {
        runtime: payload().iter().map(fingerprint_of).collect(),
        documents: vec![],
        installed_main: image(1, 2, 0),
        installed_helper: image(1, 2, 0),
        integration: Ok(()),
    }
}

#[test]
fn a_completed_install_is_installed_and_validates() {
    let readme = record(Resource::Readme, 'c');
    let mut copies = faithful_copies();
    copies.documents.push(CopiedDocument { record: readme.clone(), copy: fingerprint_of(&readme) });
    let receipt = install(&paths(), SOURCE, survey(None, vec![None, None], vec![]), "1.2.0", true, ID.to_string(), NOW.to_string(), copies)
        .unwrap();
    assert_eq!(receipt.lifecycle_state, Lifecycle::Installed);
    assert_eq!(receipt.current_version.as_deref(), Some("1.2.0"));
    assert_eq!(receipt.app_id, "net.alanfloyd.desktop");
    assert_eq!(receipt.installation_id, ID);
    assert_eq!(receipt.updated_at, NOW);
    // Planned at generation 1, then saved twice: before copying and once installed.
    assert_eq!(receipt.maintenance.receipt_generation, 3);
    assert_eq!(receipt.maintenance.updater_protocol, 1);
    assert!(receipt.maintenance.active_session_id.is_none());
    assert!(receipt.maintenance.committed_manifest_sha256.is_none());
    assert_eq!(view(&receipt.runtime_resources), view(&payload()));
    assert_eq!(view(&receipt.support_resources), view(&[readme]));
    assert!(receipt.integration_resources[1].present);
    assert!(receipt.validate(&paths()).is_ok());
    assert!(can_remove_data(&Ok(Some(receipt))));
}

#[test]
fn an_install_whose_copies_or_images_differ_is_not_completed() {
    let mut changed = faithful_copies();
    changed.runtime[1] = Fingerprint { size: 2, sha256: "9".repeat(64) };
    let error = install(&paths(), SOURCE, survey(None, vec![None, None], vec![]), "1.2.0", true, ID.to_string(), NOW.to_string(), changed)
        .unwrap_err();
    assert_eq!((error.kind, error.detail.as_str()), (ErrorKind::InvalidInstallation, "Payload changed while copying"));

    let mut old_image = faithful_copies();
    old_image.installed_helper = image(1, 1, 0);
    let error = install(&paths(), SOURCE, survey(None, vec![None, None], vec![]), "1.2.0", true, ID.to_string(), NOW.to_string(), old_image)
        .unwrap_err();
    assert_eq!(error.detail, "Installed version mismatch");

    let mut unreconciled = faithful_copies();
    unreconciled.integration = Err(Error::new(ErrorKind::IntegrationFailure, "Shortcut conflict; preserved".to_string()));
    let error = install(&paths(), SOURCE, survey(None, vec![None, None], vec![]), "1.2.0", true, ID.to_string(), NOW.to_string(), unreconciled)
        .unwrap_err();
    assert_eq!(error.kind, ErrorKind::IntegrationFailure);

    let plan = Receipt::new(&paths(), "1.2.0", payload(), true, ID.to_string(), NOW.to_string());
    let mut bad_document = faithful_copies();
    let readme = record(Resource::Readme, 'c');
    bad_document.documents.push(CopiedDocument { record: readme, copy: Fingerprint { size: 1, sha256: "0".repeat(64) } });
    assert_eq!(complete_install(&paths(), plan, "1.2.0", bad_document, NOW.to_string()).unwrap_err().detail, "Payload changed while copying");
}

#[test]
fn an_install_checks_the_package_the_processes_and_the_roots_first() {
    let mut mixed = survey(None, vec![None, None], vec![]);
    mixed.package_helper = image(1, 1, 0);
    let error = install_plan(&paths(), SOURCE, mixed, "1.2.0", true, ID.to_string(), NOW.to_string()).unwrap_err();
    assert_eq!(error.detail, "Package and helper ProductVersion differ");

    let mut unnamed = survey(None, vec![None, None], vec![]);
    unnamed.package_main.product_name = Some("something-else".to_string());
    let error = install_plan(&paths(), SOURCE, unnamed, "1.2.0", true, ID.to_string(), NOW.to_string()).unwrap_err();
    assert_eq!(error.detail, "Unexpected PE ProductName");
    assert!(check_version(&image(1, 2, 0), "1.2.0", true).is_ok());

    let mut running = survey(None, vec![None, None], vec![]);
    running.processes.push(ProcessFacts { name: "desktop-todo-widget.exe".to_string(), image: None });
    let error = install_plan(&paths(), SOURCE, running, "1.2.0", true, ID.to_string(), NOW.to_string()).unwrap_err();
    assert_eq!(error.kind, ErrorKind::MainProcessStillRunning);

    let dir = HandleFacts { attributes: FILE_ATTRIBUTE_DIRECTORY, links: 1 };
    let junction = HandleFacts { attributes: FILE_ATTRIBUTE_DIRECTORY | FILE_ATTRIBUTE_REPARSE_POINT, links: 1 };
    let redirected = paths().with_ancestors(vec![Ancestor::Opened(dir), Ancestor::Opened(junction)], vec![], vec![], vec![]);
    let error = install(&redirected, SOURCE, survey(None, vec![None, None], vec![]), "1.2.0", true, ID.to_string(), NOW.to_string(), faithful_copies())
        .unwrap_err();
    assert_eq!((error.kind, error.detail.as_str()), (ErrorKind::UnsafePath, "Reparse point, hard link or unexpected file type"));
}

fn findings(receipt: &Receipt, runtime: Vec<Option<RuntimeFile>>, entries: &[&str]) -> UninstallFindings {
    UninstallFindings {
        integration_notes: vec![],
        runtime,
        support_on_disk: receipt.support_resources.iter().map(|r| Some(fingerprint_of(r))).collect(),
        data_entries: entries.iter().map(|e| e.to_string()).collect(),
        assets: vec![],
    }
}

fn present() -> UninstallSurvey {
    UninstallSurvey { main_present: true, helper_present: true, receipt_present: true, ..absent() }
}

#[test]
fn a_whole_uninstall_keeps_or_removes_data_as_asked() {
    let receipt = installed("1.2.0", vec![]);
    // The main executable may already be gone; unknown files stay.
    let runtime = vec![None, on_disk(&receipt.runtime_resources[1])];
    let found = findings(&receipt, runtime, &["alan-desktop.sqlite3", "unknown.txt"]);
    let run = uninstall_locked(&paths(), &None, &vec![], Ok(Some(receipt)), DataMode::KeepUserData, &present(), NOW.to_string(), found)
        .unwrap();
    match run {
        UninstallRun::Planned(Some(saved), plan) => {
            assert_eq!(saved.lifecycle_state, Lifecycle::Uninstalling);
            assert_eq!(saved.updated_at, NOW);
            assert_eq!(plan.remove_runtime, vec![Resource::MainExecutable, Resource::MaintenanceHelper]);
            assert!(plan.data.is_none() && plan.remove_receipt && plan.remove_journal);
            let mut outcome = plan.outcome;
            finish_outcome(&mut outcome, false);
            assert!(!outcome.preserved.is_empty());
        },
        other => panic!("unexpected run {other:?}"),
    }

    let receipt = installed("1.2.0", vec![]);
    let runtime = vec![on_disk(&receipt.runtime_resources[0]), on_disk(&receipt.runtime_resources[1])];
    let found = findings(&receipt, runtime, &["alan-desktop.sqlite3", "unknown.txt"]);
    match uninstall_locked(&paths(), &None, &vec![], Ok(Some(receipt)), DataMode::RemoveUserData, &present(), NOW.to_string(), found)
        .unwrap()
    {
        UninstallRun::Planned(_, plan) => {
            let data = plan.data.expect("data cleanup");
            assert_eq!(data.files, vec!["alan-desktop.sqlite3".to_string()]);
            assert_eq!(plan.outcome.preserved, vec!["Unknown data resource preserved".to_string()]);
        },
        other => panic!("unexpected run {other:?}"),
    }
}

#[test]
fn a_whole_uninstall_refuses_a_changed_runtime_and_foreign_journals() {
    let receipt = installed("1.2.0", vec![]);
    let changed = Some(RuntimeFile { fingerprint: Fingerprint { size: 2, sha256: "9".repeat(64) }, version_refusal: None });
    let found = findings(&receipt, vec![changed, on_disk(&receipt.runtime_resources[1])], &["alan-desktop.sqlite3"]);
    let error = uninstall_locked(&paths(), &None, &vec![], Ok(Some(receipt)), DataMode::RemoveUserData, &present(), NOW.to_string(), found)
        .unwrap_err();
    assert_eq!((error.kind, error.detail.as_str()), (ErrorKind::RuntimeRemovalFailure, "Runtime changed; preserved for manual repair"));

    let receipt = installed("1.2.0", vec![]);
    let elsewhere = Paths::sandbox("C:\\Users\\tester\\dtw-core-tests\\other", ID);
    let journal = Some((UninstallJournal::new(&elsewhere, &None, "Finalizing"), 200));
    let found = findings(&receipt, vec![], &[]);
    let error = uninstall_locked(&paths(), &journal, &vec![], Ok(Some(receipt)), DataMode::KeepUserData, &present(), NOW.to_string(), found)
        .unwrap_err();
    assert_eq!(error.detail, "Uninstall journal mismatch");

    let receipt = installed("1.2.0", vec![]);
    let found = findings(&receipt, vec![], &[]);
    let nothing = uninstall_locked(&paths(), &None, &vec![], Ok(None), DataMode::KeepUserData, &absent(), NOW.to_string(), found);
    assert!(matches!(nothing, Ok(UninstallRun::NothingInstalled)));
}
