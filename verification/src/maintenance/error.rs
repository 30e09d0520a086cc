//! Error classification shared by every maintenance operation.
use vstd::prelude::*;

verus! {

/// What went wrong, as a closed vocabulary.
#[derive(Debug, Clone, Copy, PartialEq, Eq, Structural)]
pub enum ErrorKind {
    InvalidInstallation,
    UnsafePath,
    ReceiptMalformed,
    UnsupportedReceiptSchema,
    AppIdMismatch,
    InstallRootMismatch,
    DataRootMismatch,
    IntegrationFailure,
    LockUnavailable,
    MainProcessStillRunning,
    RuntimeRemovalFailure,
    PersistentDataRemovalFailure,
    PartialUninstall,
    ElevatedExecution,
    Io,
}

/// A classified failure with a human-readable detail.
#[derive(Debug)]
pub struct Error {
    pub kind: ErrorKind,
    pub detail: String,
}

impl Error {
    /// Builds an error of `kind` carrying `detail`.
    pub fn new(kind: ErrorKind, detail: String) -> (e: Self)
        ensures
            e.kind == kind,
            e.detail@ == detail@,
    {
        Error { kind, detail }
    }
}


/// The variant name of each kind, as `{:?}` prints it.
pub open spec fn kind_name(kind: ErrorKind) -> Seq<char> {
    match kind {
        ErrorKind::InvalidInstallation => "InvalidInstallation"@,
        ErrorKind::UnsafePath => "UnsafePath"@,
        ErrorKind::ReceiptMalformed => "ReceiptMalformed"@,
        ErrorKind::UnsupportedReceiptSchema => "UnsupportedReceiptSchema"@,
        ErrorKind::AppIdMismatch => "AppIdMismatch"@,
        ErrorKind::InstallRootMismatch => "InstallRootMismatch"@,
        ErrorKind::DataRootMismatch => "DataRootMismatch"@,
        ErrorKind::IntegrationFailure => "IntegrationFailure"@,
        ErrorKind::LockUnavailable => "LockUnavailable"@,
        ErrorKind::MainProcessStillRunning => "MainProcessStillRunning"@,
        ErrorKind::RuntimeRemovalFailure => "RuntimeRemovalFailure"@,
        ErrorKind::PersistentDataRemovalFailure => "PersistentDataRemovalFailure"@,
        ErrorKind::PartialUninstall => "PartialUninstall"@,
        ErrorKind::ElevatedExecution => "ElevatedExecution"@,
        ErrorKind::Io => "Io"@,
    }
}

impl ErrorKind {
    /// The variant name of this kind.
    pub fn name(self) -> (r: &'static str)
        ensures
            r@ == kind_name(self),
    {
        match self {
            ErrorKind::InvalidInstallation => "InvalidInstallation",
            ErrorKind::UnsafePath => "UnsafePath",
            ErrorKind::ReceiptMalformed => "ReceiptMalformed",
            ErrorKind::UnsupportedReceiptSchema => "UnsupportedReceiptSchema",
            ErrorKind::AppIdMismatch => "AppIdMismatch",
            ErrorKind::InstallRootMismatch => "InstallRootMismatch",
            ErrorKind::DataRootMismatch => "DataRootMismatch",
            ErrorKind::IntegrationFailure => "IntegrationFailure",
            ErrorKind::LockUnavailable => "LockUnavailable",
            ErrorKind::MainProcessStillRunning => "MainProcessStillRunning",
            ErrorKind::RuntimeRemovalFailure => "RuntimeRemovalFailure",
            ErrorKind::PersistentDataRemovalFailure => "PersistentDataRemovalFailure",
            ErrorKind::PartialUninstall => "PartialUninstall",
            ErrorKind::ElevatedExecution => "ElevatedExecution",
            ErrorKind::Io => "Io",
        }
    }
}

impl Error {
    /// `"<Kind>: <detail>"`, the error's display text.
    pub fn message(&self) -> (r: String)
        ensures
            r@ == kind_name(self.kind) + ": "@ + self.detail@,
    {
        let a = crate::text::concat2(self.kind.name(), ": ");
        crate::text::concat2(a.as_str(), self.detail.as_str())
    }
}

} // verus!
