//! The uninstall consent dialog's decisions and the closing report.
use vstd::prelude::*;
use crate::maintenance::lifecycle::DataMode;
use crate::text::concat2;

verus! {

/// Button identifier of "Uninstall".
pub const UNINSTALL_BUTTON: i32 = 100;
/// Radio identifier of "Keep local data and settings".
pub const KEEP_RADIO: i32 = 200;
/// Radio identifier of "Delete local data and settings".
pub const DELETE_RADIO: i32 = 201;

/// What follows the consent dialog.
#[derive(Debug, Clone, Copy, PartialEq, Eq, Structural)]
pub enum ConsentStep {
    /// The dialog was cancelled: do nothing.
    Cancel,
    /// Uninstall and keep the data.
    Keep,
    /// Deletion was chosen: ask once more before deleting data.
    ConfirmDeletion,
}

/// Only the "Uninstall" button proceeds; the delete radio asks again.
pub fn consent_step(button: i32, radio: i32) -> (r: ConsentStep)
    ensures
        button != UNINSTALL_BUTTON ==> r == ConsentStep::Cancel,
        button == UNINSTALL_BUTTON && radio == DELETE_RADIO ==> r == ConsentStep::ConfirmDeletion,
        button == UNINSTALL_BUTTON && radio != DELETE_RADIO ==> r == ConsentStep::Keep,
{
    if button != UNINSTALL_BUTTON {
        ConsentStep::Cancel
    } else if radio == DELETE_RADIO {
        ConsentStep::ConfirmDeletion
    } else {
        ConsentStep::Keep
    }
}

/// The data choice, once the consent dialog (and, for deletion, the second
/// confirmation) were answered; `None` means the user backed out.
pub fn consent_choice(step: ConsentStep, deletion_confirmed: bool) -> (r: Option<DataMode>)
    ensures
        r == match step {
            ConsentStep::Cancel => None,
            ConsentStep::Keep => Some(DataMode::KeepUserData),
            ConsentStep::ConfirmDeletion => if deletion_confirmed { Some(DataMode::RemoveUserData) } else { None },
        },
{
    match step {
        ConsentStep::Cancel => None,
        ConsentStep::Keep => Some(DataMode::KeepUserData),
        ConsentStep::ConfirmDeletion => if deletion_confirmed {
            Some(DataMode::RemoveUserData)
        } else {
            None
        },
    }
}

/// The delete option is offered only when a trusted receipt grants it.
pub fn radio_count(can_remove_data: bool) -> (r: u32)
    ensures
        r == if can_remove_data { 2u32 } else { 1u32 },
{
    if can_remove_data { 2 } else { 1 }
}

/// Lines joined with `\n`, as `[String]::join("\n")` does.
pub open spec fn join_lines(lines: Seq<Seq<char>>) -> Seq<char>
    decreases lines.len(),
{
    if lines.len() == 0 {
        Seq::empty()
    } else if lines.len() == 1 {
        lines[0]
    } else {
        join_lines(lines.drop_last()) + "\n"@ + lines.last()
    }
}

/// The summary shown once an uninstall completed.
pub open spec fn completion_message_spec(mode: DataMode, preserved: Seq<Seq<char>>) -> Seq<char> {
    "Application removed.\n"@ + (if mode == DataMode::KeepUserData {
        "Local data and settings were kept."@
    } else {
        "Known app-owned local data was removed."@
    }) + "\n"@ + join_lines(preserved)
}

/// Builds the completion summary: what happened to the data, then each
/// preserved item on its own line.
pub fn completion_message(mode: DataMode, preserved: &Vec<String>) -> (r: String)
    ensures
        r@ == completion_message_spec(mode, preserved@.map_values(|s: String| s@)),
{
    let ghost lines = preserved@.map_values(|s: String| s@);
    let mut joined = String::new();
    let mut i: usize = 0;
    while i < preserved.len()
        invariant
            i <= preserved@.len(),
            lines == preserved@.map_values(|s: String| s@),
            joined@ == join_lines(lines.take(i as int)),
        decreases preserved.len() - i,
    {
        assert(lines.take(i + 1).drop_last() =~= lines.take(i as int));
        if i == 0 {
            joined = crate::text::owned(preserved[i].as_str());
            assert(joined@ =~= join_lines(lines.take(1)));
        } else {
            let with_sep = concat2(joined.as_str(), "\n");
            joined = concat2(with_sep.as_str(), preserved[i].as_str());
        }
        i = i + 1;
    }
    assert(lines.take(i as int) =~= lines);
    let head = if mode == DataMode::KeepUserData {
        concat2("Application removed.\n", "Local data and settings were kept.")
    } else {
        concat2("Application removed.\n", "Known app-owned local data was removed.")
    };
    let head = concat2(head.as_str(), "\n");
    let r = concat2(head.as_str(), joined.as_str());
    assert(r@ =~= completion_message_spec(mode, lines));
    r
}

} // verus!
