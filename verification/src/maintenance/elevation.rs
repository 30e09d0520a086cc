//! Elevation refusal for per-user maintenance.
//!
//! The product is a per-user installation: nothing in install or uninstall
//! needs elevation, and an elevated helper could act on another profile's
//! roots. The helper therefore refuses to run elevated at all; the host reads
//! the process token's elevation flag and hands it to this rule.
use vstd::prelude::*;
use crate::maintenance::error::{Error, ErrorKind};

verus! {

/// Any nonzero `TokenIsElevated` value means the process token is elevated.
pub fn token_is_elevated(raw: u32) -> (r: bool)
    ensures
        r == (raw != 0),
{
    raw != 0
}

/// Fails closed when the token's elevation flag is set.
pub fn refuse_elevated(raw: u32) -> (r: Result<(), Error>)
    ensures
        r is Ok <==> raw == 0,
        r matches Err(e) ==> e.kind == ErrorKind::ElevatedExecution
            && e.detail@ == "This is a per-user application. Run the installer/uninstaller normally, without administrator elevation."@,
{
    if token_is_elevated(raw) {
        return Err(Error::new(
            ErrorKind::ElevatedExecution,
            "This is a per-user application. Run the installer/uninstaller normally, without administrator elevation.".to_string(),
        ));
    }
    Ok(())
}

} // verus!
