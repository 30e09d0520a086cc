//! Managed-installation launch admission.
//!
//! Before any business initialization, a launch is classified against the
//! durable maintenance state: an uninstall journal or an unacceptable receipt
//! refuses the launch; a missing receipt is an unmanaged launch; a valid
//! `Installed` receipt admits the managed runtime (from its install root) or
//! a development copy (from anywhere else). Classification never repairs.
use vstd::prelude::*;
use crate::maintenance::error::{kind_name, Error, ErrorKind};
use crate::maintenance::paths::{equal, join, join_spec, Paths};
use crate::maintenance::HELPER_EXE;
use crate::maintenance::receipt::{lifecycle_name, Lifecycle, Receipt};
use crate::text::{concat2, eq_ignore_case, owned};

verus! {

/// Why a normal launch was refused.
#[derive(Debug)]
pub enum AdmissionBlock {
    /// A maintenance transaction or another admission holds the exclusion.
    MaintenanceLockHeld(String),
    /// Durable maintenance state (an uninstall journal) exists.
    DurableMaintenanceState(String),
    /// The helper is installed but the receipt is missing.
    ManagedReceiptMissing,
    /// The receipt cannot be parsed or fails structural policy.
    ReceiptMalformed(String),
    /// The receipt schema is newer than this binary.
    UnsupportedReceiptSchema,
    /// The receipt names another product.
    AppIdMismatch,
    /// The receipt's install root is not the canonical one.
    InstallRootMismatch,
    /// The receipt's data root is not the canonical one.
    DataRootMismatch,
    /// The installation state is unsafe or cannot be inspected safely.
    UnsafeInstallation(String),
    /// The receipt's lifecycle is transitional (named here).
    LifecycleBusy(String),
}

/// The fixed text of each refusal (before any detail).
pub open spec fn block_text(b: AdmissionBlock) -> Seq<char> {
    match b {
        AdmissionBlock::MaintenanceLockHeld(_) => "desktop-todo-widget cannot start right now.\n\nA maintenance operation on this installation is already running. Wait for it to finish, then start the app again."@,
        AdmissionBlock::DurableMaintenanceState(_) => "desktop-todo-widget cannot start because a previous maintenance operation did not finish.\n\nRun desktop-todo-maintenance.exe from the installation folder to complete or undo it."@,
        AdmissionBlock::ManagedReceiptMissing => "desktop-todo-widget cannot start because the installation folder contains the maintenance helper but no installation receipt.\n\nRun the trusted installer or the maintenance helper to repair the installation."@,
        AdmissionBlock::ReceiptMalformed(_) => "desktop-todo-widget cannot start because the installation receipt is damaged.\n\nRun desktop-todo-maintenance.exe from the installation folder to repair or uninstall. Your data is not touched by this check."@,
        AdmissionBlock::UnsupportedReceiptSchema => "desktop-todo-widget cannot start because this installation was created by a newer version of the product.\n\nUpdate the app, or repair it with the installed maintenance helper."@,
        AdmissionBlock::AppIdMismatch => "desktop-todo-widget cannot start because the installation receipt belongs to a different application.\n\nThe installation state is preserved; nothing was modified."@,
        AdmissionBlock::InstallRootMismatch => "desktop-todo-widget cannot start because the installation receipt does not match this installation folder.\n\nRun the trusted installer or the maintenance helper."@,
        AdmissionBlock::DataRootMismatch => "desktop-todo-widget cannot start because the installation receipt does not match the canonical data folder.\n\nThe installation state is preserved; nothing was modified."@,
        AdmissionBlock::UnsafeInstallation(detail) => "desktop-todo-widget cannot start because the installation state is unsafe: "@
            + detail@ + "\n\nRun the maintenance helper from the installation folder."@,
        AdmissionBlock::LifecycleBusy(state) => "desktop-todo-widget cannot start because this installation is in the "@
            + state@ + " state.\n\nRun desktop-todo-maintenance.exe from the installation folder to finish or recover the operation."@,
    }
}

/// The detail a refusal appends (empty for the others).
pub open spec fn block_detail(b: AdmissionBlock) -> Seq<char> {
    match b {
        AdmissionBlock::MaintenanceLockHeld(d) => d@,
        AdmissionBlock::DurableMaintenanceState(d) => d@,
        AdmissionBlock::ReceiptMalformed(d) => d@,
        _ => Seq::empty(),
    }
}

/// The user-facing refusal message: the fixed text, then `Details: ...`
/// when the refusal carries a non-empty detail.
pub open spec fn user_message_spec(b: AdmissionBlock) -> Seq<char> {
    if block_detail(b).len() == 0 {
        block_text(b)
    } else {
        block_text(b) + "\n\nDetails: "@ + block_detail(b)
    }
}

impl AdmissionBlock {
    fn text(&self) -> (r: String)
        ensures
            r@ == block_text(*self),
    {
        match self {
            AdmissionBlock::MaintenanceLockHeld(_) => "desktop-todo-widget cannot start right now.\n\nA maintenance operation on this installation is already running. Wait for it to finish, then start the app again.".to_string(),
            AdmissionBlock::DurableMaintenanceState(_) => "desktop-todo-widget cannot start because a previous maintenance operation did not finish.\n\nRun desktop-todo-maintenance.exe from the installation folder to complete or undo it.".to_string(),
            AdmissionBlock::ManagedReceiptMissing => "desktop-todo-widget cannot start because the installation folder contains the maintenance helper but no installation receipt.\n\nRun the trusted installer or the maintenance helper to repair the installation.".to_string(),
            AdmissionBlock::ReceiptMalformed(_) => "desktop-todo-widget cannot start because the installation receipt is damaged.\n\nRun desktop-todo-maintenance.exe from the installation folder to repair or uninstall. Your data is not touched by this check.".to_string(),
            AdmissionBlock::UnsupportedReceiptSchema => "desktop-todo-widget cannot start because this installation was created by a newer version of the product.\n\nUpdate the app, or repair it with the installed maintenance helper.".to_string(),
            AdmissionBlock::AppIdMismatch => "desktop-todo-widget cannot start because the installation receipt belongs to a different application.\n\nThe installation state is preserved; nothing was modified.".to_string(),
            AdmissionBlock::InstallRootMismatch => "desktop-todo-widget cannot start because the installation receipt does not match this installation folder.\n\nRun the trusted installer or the maintenance helper.".to_string(),
            AdmissionBlock::DataRootMismatch => "desktop-todo-widget cannot start because the installation receipt does not match the canonical data folder.\n\nThe installation state is preserved; nothing was modified.".to_string(),
            AdmissionBlock::UnsafeInstallation(detail) => {
                let a = concat2("desktop-todo-widget cannot start because the installation state is unsafe: ", detail.as_str());
                let r = concat2(a.as_str(), "\n\nRun the maintenance helper from the installation folder.");
                assert(r@ =~= block_text(*self));
                r
            },
            AdmissionBlock::LifecycleBusy(state) => {
                let a = concat2("desktop-todo-widget cannot start because this installation is in the ", state.as_str());
                let r = concat2(a.as_str(), " state.\n\nRun desktop-todo-maintenance.exe from the installation folder to finish or recover the operation.");
                assert(r@ =~= block_text(*self));
                r
            },
        }
    }

    /// The message shown in the native refusal dialog.
    pub fn user_message(&self) -> (r: String)
        ensures
            r@ == user_message_spec(*self),
    {
        let text = self.text();
        let detail: &str = match self {
            AdmissionBlock::MaintenanceLockHeld(d) => d.as_str(),
            AdmissionBlock::DurableMaintenanceState(d) => d.as_str(),
            AdmissionBlock::ReceiptMalformed(d) => d.as_str(),
            _ => "",
        };
        proof {
            reveal_strlit("");
        }
        assert(detail@ == block_detail(*self));
        if detail.unicode_len() == 0 {
            text
        } else {
            let a = concat2(text.as_str(), "\n\nDetails: ");
            let r = concat2(a.as_str(), detail);
            assert(r@ =~= user_message_spec(*self));
            r
        }
    }
}

/// Which kind of launch admission produced.
#[derive(Debug, Clone, Copy, PartialEq, Eq, Structural)]
pub enum StartupContext {
    /// A valid `Installed` receipt, running from the canonical install root.
    Managed,
    /// No receipt and no managed runtime evidence.
    Unmanaged,
    /// A valid receipt exists, but this process is not the installed runtime.
    Development,
}

impl StartupContext {
    /// The mode name the frontend reads.
    pub fn as_str(self) -> (r: &'static str)
        ensures
            r@ == match self {
                StartupContext::Managed => "managed"@,
                StartupContext::Unmanaged => "unmanaged"@,
                StartupContext::Development => "development"@,
            },
    {
        match self {
            StartupContext::Managed => "managed",
            StartupContext::Unmanaged => "unmanaged",
            StartupContext::Development => "development",
        }
    }
}

/// The structured admission state the frontend may read.
#[derive(Debug, Clone, Copy)]
pub struct AdmissionView {
    pub mode: &'static str,
}

/// The view of an admitted launch.
pub fn admission_view(context: StartupContext) -> (v: AdmissionView)
    ensures
        v.mode@ == match context {
            StartupContext::Managed => "managed"@,
            StartupContext::Unmanaged => "unmanaged"@,
            StartupContext::Development => "development"@,
        },
{
    AdmissionView { mode: context.as_str() }
}

/// A gate or lease that could not be taken: another maintenance is running.
pub fn block_lock(error: &Error) -> (b: AdmissionBlock)
    ensures
        b matches AdmissionBlock::MaintenanceLockHeld(d) && d@ == kind_name(error.kind) + ": "@ + error.detail@,
{
    AdmissionBlock::MaintenanceLockHeld(error.message())
}

/// The refusal a receipt load failure maps to.
pub open spec fn receipt_block(error: Error, b: AdmissionBlock) -> bool {
    match error.kind {
        ErrorKind::ReceiptMalformed => b matches AdmissionBlock::ReceiptMalformed(d) && d@ == error.detail@,
        ErrorKind::UnsupportedReceiptSchema => b is UnsupportedReceiptSchema,
        ErrorKind::AppIdMismatch => b is AppIdMismatch,
        ErrorKind::InstallRootMismatch => b is InstallRootMismatch,
        ErrorKind::DataRootMismatch => b is DataRootMismatch,
        _ => b matches AdmissionBlock::UnsafeInstallation(d) && d@ == kind_name(error.kind) + ": "@ + error.detail@,
    }
}

/// Maps a receipt load failure to its refusal.
pub fn block_receipt(error: Error) -> (b: AdmissionBlock)
    ensures
        receipt_block(error, b),
{
    match error.kind {
        ErrorKind::ReceiptMalformed => AdmissionBlock::ReceiptMalformed(error.detail),
        ErrorKind::UnsupportedReceiptSchema => AdmissionBlock::UnsupportedReceiptSchema,
        ErrorKind::AppIdMismatch => AdmissionBlock::AppIdMismatch,
        ErrorKind::InstallRootMismatch => AdmissionBlock::InstallRootMismatch,
        ErrorKind::DataRootMismatch => AdmissionBlock::DataRootMismatch,
        _ => AdmissionBlock::UnsafeInstallation(error.message()),
    }
}

/// The checks made under the admission gate before the lease is taken: an
/// uninstall journal refuses the launch, then a receipt that is present but
/// unacceptable refuses it too (never degrading to unmanaged).
pub fn admission_precheck(journal_present: bool, loaded: Result<Option<Receipt>, Error>) -> (r: Result<Option<Receipt>, AdmissionBlock>)
    ensures
        journal_present ==> (r matches Err(AdmissionBlock::DurableMaintenanceState(d)) && d@ == "active uninstall journal"@),
        !journal_present ==> match loaded {
            Ok(receipt) => r == Ok::<Option<Receipt>, AdmissionBlock>(receipt),
            Err(e) => r matches Err(b) && receipt_block(e, b),
        },
{
    if journal_present {
        return Err(AdmissionBlock::DurableMaintenanceState("active uninstall journal".to_string()));
    }
    match loaded {
        Ok(receipt) => Ok(receipt),
        Err(e) => Err(block_receipt(e)),
    }
}

/// What an admitted launch is.
#[derive(Debug)]
pub struct Admitted {
    pub context: StartupContext,
    pub installation_id: Option<String>,
}

/// Classifies a launch once the lease is held: a receipt must be `Installed`;
/// it admits the managed runtime only from the canonical install root (any
/// other location is a development copy). Without a receipt, an installed
/// helper means broken managed state; otherwise the launch is unmanaged.
pub fn admit_launch(
    paths: &Paths,
    receipt: Option<Receipt>,
    helper_present: bool,
    process_image_dir: Option<&str>,
) -> (r: Result<Admitted, AdmissionBlock>)
    ensures
        match receipt {
            Some(rc) => if rc.lifecycle_state != Lifecycle::Installed {
                r matches Err(AdmissionBlock::LifecycleBusy(s)) && s@ == lifecycle_name(rc.lifecycle_state)
            } else {
                r matches Ok(a) && a.installation_id matches Some(id) && id@ == rc.installation_id@
                    && a.context == (if process_image_dir matches Some(d) && eq_ignore_case(d@, paths.install_view()) {
                        StartupContext::Managed
                    } else {
                        StartupContext::Development
                    })
            },
            None => if helper_present {
                r matches Err(AdmissionBlock::ManagedReceiptMissing)
            } else {
                r matches Ok(a) && a.context == StartupContext::Unmanaged && a.installation_id is None
            },
        },
{
    match receipt {
        Some(rc) => {
            if rc.lifecycle_state != Lifecycle::Installed {
                return Err(AdmissionBlock::LifecycleBusy(owned(rc.lifecycle_state.name())));
            }
            let context = match process_image_dir {
                Some(dir) => if equal(dir, paths.install()) {
                    StartupContext::Managed
                } else {
                    StartupContext::Development
                },
                None => StartupContext::Development,
            };
            Ok(Admitted { context, installation_id: Some(rc.installation_id) })
        },
        None => {
            if helper_present {
                return Err(AdmissionBlock::ManagedReceiptMissing);
            }
            Ok(Admitted { context: StartupContext::Unmanaged, installation_id: None })
        },
    }
}

/// The uninstall-handoff latch of one running instance: set while a handoff
/// is in flight so a double click never launches two helpers.
#[derive(Debug)]
pub struct HandoffLatch {
    started: bool,
}

impl HandoffLatch {
    /// Whether a handoff is in flight.
    pub closed spec fn in_flight(&self) -> bool {
        self.started
    }

    /// A latch with no handoff in flight.
    pub fn new() -> (l: Self)
        ensures
            !l.in_flight(),
    {
        HandoffLatch { started: false }
    }

    /// Starts a handoff: only a managed launch may hand off to the
    /// uninstaller, and only once at a time.
    pub fn begin(&mut self, context: StartupContext) -> (r: Result<(), &'static str>)
        ensures
            context != StartupContext::Managed ==> (r matches Err(code) && code@ == "not-managed"@)
                && final(self).in_flight() == old(self).in_flight(),
            context == StartupContext::Managed && old(self).in_flight() ==> (r matches Err(code) && code@ == "already-started"@)
                && final(self).in_flight(),
            context == StartupContext::Managed && !old(self).in_flight() ==> r is Ok && final(self).in_flight(),
    {
        if context != StartupContext::Managed {
            return Err("not-managed");
        }
        if self.started {
            return Err("already-started");
        }
        self.started = true;
        Ok(())
    }

    /// The handoff's first step: after `begin`'s refusals, the helper at the
    /// canonical install root must be a regular file (`helper_is_regular` is
    /// the host's check of `<install_root>\desktop-todo-maintenance.exe`);
    /// otherwise the latch is released and the handoff refused as
    /// `helper-unavailable`. On success the helper's path is what is spawned,
    /// once, while the latch stays set.
    pub fn begin_handoff(&mut self, context: StartupContext, install_root: &str, helper_is_regular: bool) -> (r: Result<String, &'static str>)
        ensures
            context != StartupContext::Managed ==> (r matches Err(code) && code@ == "not-managed"@)
                && final(self).in_flight() == old(self).in_flight(),
            context == StartupContext::Managed && old(self).in_flight() ==> (r matches Err(code) && code@ == "already-started"@)
                && final(self).in_flight(),
            context == StartupContext::Managed && !old(self).in_flight() && !helper_is_regular
                ==> (r matches Err(code) && code@ == "helper-unavailable"@) && !final(self).in_flight(),
            context == StartupContext::Managed && !old(self).in_flight() && helper_is_regular
                ==> (r matches Ok(path) && path@ == join_spec(install_root@, HELPER_EXE@)) && final(self).in_flight(),
    {
        self.begin(context)?;
        if !helper_is_regular {
            self.release();
            return Err("helper-unavailable");
        }
        Ok(join(install_root, HELPER_EXE))
    }

    /// The handoff's last step, once the helper was spawned or failed to
    /// start: a failed launch re-arms the entry and is refused as
    /// `launch-failed` (the app must stay alive); a started helper leaves the
    /// latch set and asks the app to exit (`Ok`), so a later request is
    /// refused as `already-started` and never spawns a second helper.
    pub fn finish_handoff(&mut self, spawned: bool) -> (r: Result<(), &'static str>)
        ensures
            spawned ==> r is Ok && final(self).in_flight() == old(self).in_flight(),
            !spawned ==> (r matches Err(code) && code@ == "launch-failed"@) && !final(self).in_flight(),
    {
        if spawned {
            Ok(())
        } else {
            self.release();
            Err("launch-failed")
        }
    }

    /// A refused handoff (helper unavailable, launch failed) keeps the entry
    /// usable: the latch is released.
    pub fn release(&mut self)
        ensures
            !final(self).in_flight(),
    {
        self.started = false;
    }
}

} // verus!
