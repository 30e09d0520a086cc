use desktop_todo::maintenance::command::{parse_command, Command};
use desktop_todo::maintenance::consent::{
    completion_message, consent_choice, consent_step, radio_count, ConsentStep, DELETE_RADIO, KEEP_RADIO,
    UNINSTALL_BUTTON,
};
use desktop_todo::maintenance::error::ErrorKind;
use desktop_todo::maintenance::integration::{
    display_icon, reconcile_preflight, registration, registration_owned, shortcut_owned, uninstall_command, removal_residuals, shortcut_disposal, wants_shortcut,
    RegistrationState, ShortcutDisposal,
};
use desktop_todo::maintenance::lifecycle::DataMode;
use desktop_todo::maintenance::paths::{canonical_data_root, Paths};
use desktop_todo::maintenance::receipt::{FileRecord, Receipt};
use desktop_todo::maintenance::resources::Resource;

const ID: &str = "6f1c2a9e-3b4d-4e5f-8a7b-9c0d1e2f3a4b";

fn paths() -> Paths {
    Paths::from_known_folders("C:\\Users\\t\\AppData\\Local", "C:\\Users\\t\\AppData\\Roaming", "C:\\Users\\t\\Programs")
}

fn receipt(shortcut: bool) -> Receipt {
    let files = vec![FileRecord { identity: Resource::MainExecutable, version: "1.2.0".into(), size: 2, sha256: "a".repeat(64) }];
    Receipt::new(&paths(), "1.2.0", files, shortcut, ID.to_string(), "2026-08-29T10:00:00Z".to_string())
}

fn args(values: &[&str]) -> Vec<String> {
    values.iter().map(|v| v.to_string()).collect()
}

#[test]
fn the_helper_accepts_exactly_three_command_lines() {
    assert_eq!(parse_command(&args(&["--uninstall"])).unwrap(), Command::Uninstall);
    assert_eq!(parse_command(&args(&["--install"])).unwrap(), Command::Install { shortcut: true });
    assert_eq!(parse_command(&args(&["--install", "--no-start-menu-shortcut"])).unwrap(), Command::Install { shortcut: false });
    for refused in [&[][..], &["--update"][..], &["--uninstall", "--install"][..], &["--install", "--quiet"][..]] {
        let error = parse_command(&args(refused)).unwrap_err();
        assert_eq!(error.kind, ErrorKind::InvalidInstallation);
        assert!(error.detail.starts_with("Supported modes:"));
    }
}

#[test]
fn the_uninstall_registration_points_at_this_installation() {
    let p = paths();
    let values = registration(&p, &receipt(true));
    let install = "C:\\Users\\t\\AppData\\Local\\Programs\\desktop-todo-widget";
    let expected = [
        ("DisplayIcon", format!("\"{install}\\desktop-todo-widget.exe\",0")),
        ("DisplayName", "desktop-todo-widget".to_string()),
        ("DisplayVersion", "1.2.0".to_string()),
        ("InstallLocation", install.to_string()),
        ("InstallationId", ID.to_string()),
        ("Publisher", "Alan Floyd".to_string()),
        ("UninstallString", format!("\"{install}\\desktop-todo-maintenance.exe\" --uninstall")),
    ];
    assert_eq!(values.len(), expected.len());
    for (value, (name, text)) in values.iter().zip(expected.iter()) {
        assert_eq!((value.name, value.value.as_str()), (*name, text.as_str()));
    }
    let command = format!("\"{install}\\desktop-todo-maintenance.exe\" --uninstall");
    assert!(registration_owned(&p, Some(&install.to_uppercase()), Some(&command)));
    assert!(!registration_owned(&p, Some(install), Some("\"D:\\other.exe\" --uninstall")));
    assert!(!registration_owned(&p, None, Some(&command)));
}

#[test]
fn integration_that_is_not_ours_is_preserved_and_reported() {
    let p = paths();
    let main = "C:\\Users\\t\\AppData\\Local\\Programs\\desktop-todo-widget\\desktop-todo-widget.exe";
    assert_eq!(shortcut_disposal(&p, None), ShortcutDisposal::Absent);
    assert_eq!(shortcut_disposal(&p, Some(main)), ShortcutDisposal::Remove);
    assert_eq!(shortcut_disposal(&p, Some("D:\\other\\desktop-todo-widget.exe")), ShortcutDisposal::Preserve);

    assert!(reconcile_preflight(None, Some(true)).is_ok());
    let error = reconcile_preflight(Some(false), Some(false)).unwrap_err();
    assert_eq!((error.kind, error.detail.as_str()), (ErrorKind::IntegrationFailure, "Uninstall registry identity belongs to another installation"));
    assert_eq!(reconcile_preflight(Some(true), Some(false)).unwrap_err().detail, "Shortcut conflict; preserved");

    assert!(removal_residuals(true, RegistrationState::Ours { leftovers: false }).is_empty());
    assert_eq!(
        removal_residuals(false, RegistrationState::Foreign),
        vec!["Unknown shortcut preserved".to_string(), "Uninstall registration conflict preserved".to_string()]
    );
    assert_eq!(
        removal_residuals(true, RegistrationState::Ours { leftovers: true }),
        vec!["Unknown registry values/subkeys preserved".to_string()]
    );
    assert!(wants_shortcut(&receipt(true)));
    assert!(!wants_shortcut(&receipt(false)));
    assert_eq!(canonical_data_root("C:\\Users\\t\\AppData\\Roaming"), "C:\\Users\\t\\AppData\\Roaming\\net.alanfloyd.desktop");
}

#[test]
fn consent_needs_the_uninstall_button_and_a_second_yes_for_deletion() {
    assert_eq!(consent_step(2, KEEP_RADIO), ConsentStep::Cancel);
    assert_eq!(consent_step(UNINSTALL_BUTTON, KEEP_RADIO), ConsentStep::Keep);
    assert_eq!(consent_step(UNINSTALL_BUTTON, DELETE_RADIO), ConsentStep::ConfirmDeletion);
    assert_eq!(consent_choice(ConsentStep::Keep, false), Some(DataMode::KeepUserData));
    assert_eq!(consent_choice(ConsentStep::ConfirmDeletion, true), Some(DataMode::RemoveUserData));
    assert_eq!(consent_choice(ConsentStep::ConfirmDeletion, false), None);
    assert_eq!(consent_choice(ConsentStep::Cancel, true), None);
    assert_eq!((radio_count(true), radio_count(false)), (2, 1));
}

#[test]
fn the_completion_report_lists_what_was_preserved() {
    assert_eq!(
        completion_message(DataMode::KeepUserData, &vec!["Unknown shortcut preserved".to_string(), "Unknown asset preserved".to_string()]),
        "Application removed.\nLocal data and settings were kept.\nUnknown shortcut preserved\nUnknown asset preserved"
    );
    assert_eq!(
        completion_message(DataMode::RemoveUserData, &vec![]),
        "Application removed.\nKnown app-owned local data was removed.\n"
    );
}

#[test]
fn registered_commands_quote_the_installed_executables() {
    let p = paths();
    assert!(!p.is_qa());
    assert!(Paths::sandbox("C:\\qa\\case", ID).is_qa());
    assert_eq!(
        uninstall_command(&p),
        "\"C:\\Users\\t\\AppData\\Local\\Programs\\desktop-todo-widget\\desktop-todo-maintenance.exe\" --uninstall"
    );
    assert_eq!(
        display_icon(&p),
        "\"C:\\Users\\t\\AppData\\Local\\Programs\\desktop-todo-widget\\desktop-todo-widget.exe\",0"
    );
    assert!(shortcut_owned(&p, "c:\\users\\t\\appdata\\local\\programs\\desktop-todo-widget\\DESKTOP-TODO-WIDGET.EXE"));
    assert!(!shortcut_owned(&p, "C:\\Windows\\notepad.exe"));
}
