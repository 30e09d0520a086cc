//! Windows integration policy: the uninstall registration the installation
//! owns, how ownership of an existing registration or shortcut is recognised,
//! and what an uninstall leaves behind when something is not ours.
use vstd::prelude::*;
use crate::maintenance::{HELPER_EXE, MAIN_EXE};
use crate::maintenance::error::{Error, ErrorKind};
use crate::maintenance::paths::{equal, join, join_spec, Paths};
use crate::maintenance::receipt::{Integration, Receipt};
use crate::text::{concat2, eq_ignore_case, owned, str_eq};

verus! {

/// The uninstall command registered for an installation root.
pub open spec fn uninstall_command_spec(install: Seq<char>) -> Seq<char> {
    "\""@ + join_spec(install, HELPER_EXE@) + "\" --uninstall"@
}

/// The icon reference registered for an installation root.
pub open spec fn display_icon_spec(install: Seq<char>) -> Seq<char> {
    "\""@ + join_spec(install, MAIN_EXE@) + "\",0"@
}

/// `"<install>\desktop-todo-maintenance.exe" --uninstall`.
pub fn uninstall_command(paths: &Paths) -> (r: String)
    ensures
        r@ == uninstall_command_spec(paths.install_view()),
{
    let helper = join(paths.install(), HELPER_EXE);
    let a = concat2("\"", helper.as_str());
    let r = concat2(a.as_str(), "\" --uninstall");
    assert(r@ =~= uninstall_command_spec(paths.install_view()));
    r
}

/// `"<install>\desktop-todo-widget.exe",0`.
pub fn display_icon(paths: &Paths) -> (r: String)
    ensures
        r@ == display_icon_spec(paths.install_view()),
{
    let main = join(paths.install(), MAIN_EXE);
    let a = concat2("\"", main.as_str());
    let r = concat2(a.as_str(), "\",0");
    assert(r@ =~= display_icon_spec(paths.install_view()));
    r
}

/// One named string value of the uninstall registration.
#[derive(Debug)]
pub struct RegistryValue {
    pub name: &'static str,
    pub value: String,
}

/// The string values an installation registers for Windows' uninstall list,
/// in the (sorted) order they are written. The two DWORD flags `NoModify` and
/// `NoRepair` (both 1) are written after them.
pub fn registration(paths: &Paths, receipt: &Receipt) -> (r: Vec<RegistryValue>)
    ensures
        r@.len() == 7,
        r@[0].name@ == "DisplayIcon"@ && r@[0].value@ == display_icon_spec(paths.install_view()),
        r@[1].name@ == "DisplayName"@ && r@[1].value@ == "desktop-todo-widget"@,
        r@[2].name@ == "DisplayVersion"@ && r@[2].value@ == match receipt.current_version {
            Some(v) => v@,
            None => Seq::<char>::empty(),
        },
        r@[3].name@ == "InstallLocation"@ && r@[3].value@ == paths.install_view(),
        r@[4].name@ == "InstallationId"@ && r@[4].value@ == receipt.installation_id@,
        r@[5].name@ == "Publisher"@ && r@[5].value@ == "Alan Floyd"@,
        r@[6].name@ == "UninstallString"@ && r@[6].value@ == uninstall_command_spec(paths.install_view()),
{
    let version = match &receipt.current_version {
        Some(v) => owned(v.as_str()),
        None => String::new(),
    };
    let mut r = Vec::new();
    r.push(RegistryValue { name: "DisplayIcon", value: display_icon(paths) });
    r.push(RegistryValue { name: "DisplayName", value: "desktop-todo-widget".to_string() });
    r.push(RegistryValue { name: "DisplayVersion", value: version });
    r.push(RegistryValue { name: "InstallLocation", value: owned(paths.install()) });
    r.push(RegistryValue { name: "InstallationId", value: owned(receipt.installation_id.as_str()) });
    r.push(RegistryValue { name: "Publisher", value: "Alan Floyd".to_string() });
    r.push(RegistryValue { name: "UninstallString", value: uninstall_command(paths) });
    r
}

/// An existing registration is ours when its install location is our root
/// (up to ASCII case) and its uninstall command is exactly ours.
pub open spec fn registration_is_ours(
    install: Seq<char>,
    location: Option<Seq<char>>,
    command: Option<Seq<char>>,
) -> bool {
    &&& location matches Some(l) && eq_ignore_case(l, install)
    &&& command matches Some(c) && c == uninstall_command_spec(install)
}

/// Decides ownership from the two values read back from the registry (`None`
/// when a value is missing or unreadable).
pub fn registration_owned(paths: &Paths, location: Option<&str>, command: Option<&str>) -> (r: bool)
    ensures
        r == registration_is_ours(
            paths.install_view(),
            match location { Some(l) => Some(l@), None => None },
            match command { Some(c) => Some(c@), None => None },
        ),
{
    let location_ok = match location {
        Some(l) => equal(l, paths.install()),
        None => false,
    };
    let command_ok = match command {
        Some(c) => {
            let expected = uninstall_command(paths);
            str_eq(c, expected.as_str())
        },
        None => false,
    };
    location_ok && command_ok
}

/// The receipt declares a start-menu shortcut.
pub open spec fn wants_shortcut_spec(receipt: Receipt) -> bool {
    exists|i: int| 0 <= i < receipt.integration_resources@.len()
        && #[trigger] receipt.integration_resources@[i].identity == Integration::MainStartMenuShortcut
        && receipt.integration_resources@[i].present
}

/// True when the receipt asks for the start-menu shortcut.
pub fn wants_shortcut(receipt: &Receipt) -> (r: bool)
    ensures
        r == wants_shortcut_spec(*receipt),
{
    let list = &receipt.integration_resources;
    let mut i: usize = 0;
    while i < list.len()
        invariant
            *list == receipt.integration_resources,
            i <= list@.len(),
            forall|j: int| 0 <= j < i ==> !(#[trigger] list@[j].identity == Integration::MainStartMenuShortcut
                && list@[j].present),
        decreases list.len() - i,
    {
        if list[i].identity == Integration::MainStartMenuShortcut && list[i].present {
            return true;
        }
        i = i + 1;
    }
    false
}

/// A shortcut is ours when it points at our main executable.
pub open spec fn shortcut_is_ours(install: Seq<char>, target: Seq<char>) -> bool {
    eq_ignore_case(target, join_spec(install, MAIN_EXE@))
}

/// True when a shortcut target is our main executable.
pub fn shortcut_owned(paths: &Paths, target: &str) -> (r: bool)
    ensures
        r == shortcut_is_ours(paths.install_view(), target@),
{
    let main = join(paths.install(), MAIN_EXE);
    equal(target, main.as_str())
}

/// What to do with the start-menu shortcut at uninstall.
#[derive(Debug, Clone, Copy, PartialEq, Eq, Structural)]
pub enum ShortcutDisposal {
    /// There is none.
    Absent,
    /// It points at our executable: delete it.
    Remove,
    /// It points elsewhere: keep it.
    Preserve,
}

/// A shortcut is deleted only when it is ours.
pub fn shortcut_disposal(paths: &Paths, target: Option<&str>) -> (r: ShortcutDisposal)
    ensures
        match target {
            None => r == ShortcutDisposal::Absent,
            Some(t) => r == (if shortcut_is_ours(paths.install_view(), t@) {
                ShortcutDisposal::Remove
            } else {
                ShortcutDisposal::Preserve
            }),
        },
{
    match target {
        None => ShortcutDisposal::Absent,
        Some(t) => if shortcut_owned(paths, t) {
            ShortcutDisposal::Remove
        } else {
            ShortcutDisposal::Preserve
        },
    }
}

/// Before writing integration, refuses a registration or a shortcut that
/// belongs to another installation.
pub fn reconcile_preflight(registration_ours: Option<bool>, shortcut_ours: Option<bool>) -> (r: Result<(), Error>)
    ensures
        r is Ok <==> (registration_ours != Some(false) && shortcut_ours != Some(false)),
        r matches Err(e) ==> e.kind == ErrorKind::IntegrationFailure && e.detail@ == if registration_ours == Some(false) {
            "Uninstall registry identity belongs to another installation"@
        } else {
            "Shortcut conflict; preserved"@
        },
{
    if registration_ours == Some(false) {
        return Err(Error::new(
            ErrorKind::IntegrationFailure,
            "Uninstall registry identity belongs to another installation".to_string(),
        ));
    }
    if shortcut_ours == Some(false) {
        return Err(Error::new(ErrorKind::IntegrationFailure, "Shortcut conflict; preserved".to_string()));
    }
    Ok(())
}

/// The registration as found at uninstall.
#[derive(Debug, Clone, Copy, PartialEq, Eq, Structural)]
pub enum RegistrationState {
    /// No registration key exists.
    Missing,
    /// A registration of another installation.
    Foreign,
    /// Ours; whether unknown values or subkeys remained after deleting ours.
    Ours { leftovers: bool },
}

/// The notes an integration removal leaves: a foreign shortcut, a foreign
/// registration, or unknown registry content are preserved and reported.
pub fn removal_residuals(shortcut_removed: bool, registration: RegistrationState) -> (r: Vec<String>)
    ensures
        ({
            let notes = r@.map_values(|s: String| s@);
            let first = if shortcut_removed { Seq::<Seq<char>>::empty() } else { seq!["Unknown shortcut preserved"@] };
            notes == first + match registration {
                RegistrationState::Missing => Seq::<Seq<char>>::empty(),
                RegistrationState::Foreign => seq!["Uninstall registration conflict preserved"@],
                RegistrationState::Ours { leftovers } => if leftovers {
                    seq!["Unknown registry values/subkeys preserved"@]
                } else {
                    Seq::<Seq<char>>::empty()
                },
            }
        }),
{
    let mut r: Vec<String> = Vec::new();
    if !shortcut_removed {
        r.push("Unknown shortcut preserved".to_string());
    }
    match registration {
        RegistrationState::Missing => {},
        RegistrationState::Foreign => r.push("Uninstall registration conflict preserved".to_string()),
        RegistrationState::Ours { leftovers } => if leftovers {
            r.push("Unknown registry values/subkeys preserved".to_string());
        },
    }
    assert(r@.map_values(|s: String| s@) =~= (if shortcut_removed { Seq::<Seq<char>>::empty() } else {
        seq!["Unknown shortcut preserved"@]
    }) + match registration {
        RegistrationState::Missing => Seq::<Seq<char>>::empty(),
        RegistrationState::Foreign => seq!["Uninstall registration conflict preserved"@],
        RegistrationState::Ours { leftovers } => if leftovers {
            seq!["Unknown registry values/subkeys preserved"@]
        } else {
            Seq::<Seq<char>>::empty()
        },
    });
    r
}

} // verus!
