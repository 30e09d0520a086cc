//! Coordination between maintenance runs and running app instances: the
//! names of the session-wide gate, its access policy, and the rule that
//! decides whether an app instance may start.
use vstd::prelude::*;
use crate::maintenance::HELPER_EXE;
use crate::maintenance::error::{Error, ErrorKind};
use crate::maintenance::paths::Paths;
use crate::maintenance::receipt::{Lifecycle, Receipt};
use crate::text::concat2;

verus! {

/// What `str::to_lowercase` yields for `text` (full Unicode lower-casing).
pub uninterp spec fn unicode_lowercase(text: Seq<char>) -> Seq<char>;

/// Calls `str::to_lowercase`; the contract claims only that the result is a
/// function of the text.
#[verifier::external_body]
fn to_lowercase(text: &str) -> (r: String)
    ensures
        r@ == unicode_lowercase(text@),
{
    text.to_lowercase()
}

/// The lower-case hexadecimal SHA-256 digest of the UTF-8 bytes of `text`.
pub uninterp spec fn sha256_hex_of(text: Seq<char>) -> Seq<char>;

/// Calls `sha2::Sha256::digest` on the UTF-8 bytes of `text` and prints the
/// digest with `{:x}`; the contract claims only that the result is a function
/// of the text.
#[verifier::external_body]
fn sha256_hex(text: &str) -> (r: String)
    ensures
        r@ == sha256_hex_of(text@),
{
    format!("{:x}", <sha2::Sha256 as sha2::Digest>::digest(text.as_bytes()))
}

/// The session-local mutex name of the maintenance gate for an install root.
pub open spec fn gate_name_spec(install: Seq<char>) -> Seq<char> {
    "Local\\desktop-todo-maintenance-"@ + sha256_hex_of(unicode_lowercase(install))
}

/// The mutex name carries the SHA-256 of the lower-case install root, so two
/// spellings of one root share one mutex.
pub fn gate_name(paths: &Paths) -> (r: String)
    ensures
        r@ == gate_name_spec(paths.install_view()),
{
    let lower = to_lowercase(paths.install());
    let digest = sha256_hex(lower.as_str());
    concat2("Local\\desktop-todo-maintenance-", digest.as_str())
}

/// Access rules for the mutex as an SDDL string: protected, full access for
/// SYSTEM and for the given user SID only.
pub fn current_user_sddl(sid: &str) -> (r: String)
    ensures
        r@ == "D:P(A;;GA;;;SY)(A;;GA;;;"@ + sid@ + ")"@,
{
    let a = concat2("D:P(A;;GA;;;SY)(A;;GA;;;", sid);
    concat2(a.as_str(), ")")
}

/// Why an app instance may not start, or nothing when it may.
pub open spec fn app_refusal(uninstall_pending: bool, receipt: Option<Receipt>, helper_present: bool) -> Option<Seq<char>> {
    if uninstall_pending {
        Some("Uninstall is incomplete. Run the maintenance helper again."@)
    } else if receipt matches Some(r) && r.lifecycle_state != Lifecycle::Installed {
        Some("Installation needs maintenance. Run the original trusted package or uninstall helper."@)
    } else if receipt is None && helper_present {
        Some("Managed receipt missing; run the trusted installer or uninstall helper."@)
    } else {
        None
    }
}

/// An app instance may take its shared lease only when no uninstall is
/// pending, the receipt (if any) is `Installed`, and a managed installation
/// (its helper present) has a receipt at all.
pub fn enter_app(uninstall_pending: bool, receipt: &Option<Receipt>, helper_present: bool) -> (r: Result<(), Error>)
    ensures
        r is Ok <==> app_refusal(uninstall_pending, *receipt, helper_present) is None,
        r matches Err(e) ==> e.kind == ErrorKind::InvalidInstallation
            && e.detail@ == app_refusal(uninstall_pending, *receipt, helper_present)->0,
{
    if uninstall_pending {
        return Err(Error::new(
            ErrorKind::InvalidInstallation,
            "Uninstall is incomplete. Run the maintenance helper again.".to_string(),
        ));
    }
    match receipt {
        Some(r) => {
            if r.lifecycle_state != Lifecycle::Installed {
                return Err(Error::new(
                    ErrorKind::InvalidInstallation,
                    "Installation needs maintenance. Run the original trusted package or uninstall helper.".to_string(),
                ));
            }
        },
        None => {
            if helper_present {
                return Err(Error::new(
                    ErrorKind::InvalidInstallation,
                    "Managed receipt missing; run the trusted installer or uninstall helper.".to_string(),
                ));
            }
        },
    }
    Ok(())
}

} // verus!
