//! The update check's decisions: what the user is told, and whether the
//! update window's answer accepts the update.

use vstd::prelude::*;
use crate::json::{Json, json_bool, json_get};
use crate::text::{concat, string_of};

verus! {

/// How the update check went.
#[derive(PartialEq, Eq, Structural, Clone, Copy, Debug)]
pub enum UpdateCheckResult {
    UpToDate,
    CheckFailed,
    UpdateAvailable,
}

/// A message box.
#[derive(Debug)]
pub struct UpdateDialog {
    pub title: String,
    pub message: String,
    pub is_error: bool,
}

/// The message box after a check, if any: only a check the user asked for
/// reports that there is nothing new or that the check failed; an available
/// update opens the update window instead.
pub fn update_check_dialog(result: UpdateCheckResult, manual: bool) -> (r: Option<UpdateDialog>)
    ensures
        match result {
            UpdateCheckResult::UpToDate => if manual {
                r matches Some(d) && d.title@ == "No Updates"@ && d.message@
                    == "You're on the latest version."@ && !d.is_error
            } else {
                r.is_none()
            },
            UpdateCheckResult::CheckFailed => if manual {
                r matches Some(d) && d.title@ == "Update Error"@ && d.message@
                    == "Failed to check for updates. Please try again later."@ && d.is_error
            } else {
                r.is_none()
            },
            UpdateCheckResult::UpdateAvailable => r.is_none(),
        },
{
    match result {
        UpdateCheckResult::UpToDate => if manual {
            Some(UpdateDialog {
                title: string_of("No Updates"),
                message: string_of("You're on the latest version."),
                is_error: false,
            })
        } else {
            None
        },
        UpdateCheckResult::CheckFailed => if manual {
            Some(UpdateDialog {
                title: string_of("Update Error"),
                message: string_of("Failed to check for updates. Please try again later."),
                is_error: true,
            })
        } else {
            None
        },
        UpdateCheckResult::UpdateAvailable => None,
    }
}

/// The message box when installing an accepted update fails with `error`.
pub fn install_failed_dialog(error: &str) -> (r: UpdateDialog)
    ensures
        r.title@ == "Update Error"@,
        r.message@ == "Failed to install update: "@ + error@,
        r.is_error,
{
    UpdateDialog {
        title: string_of("Update Error"),
        message: concat("Failed to install update: ", error),
        is_error: true,
    }
}

/// Whether the update window's answer accepts the update: its `accepted`
/// member is `true`; anything else (no JSON, no such member, not a boolean)
/// declines.
pub fn update_accepted(payload: &Option<Json>) -> (r: bool)
    ensures
        r == match payload {
            Some(v) => json_get(*v, "accepted"@) matches Some(a) && json_bool(a) == Some(true),
            None => false,
        },
{
    match payload {
        Some(v) => match v.get("accepted") {
            Some(a) => match a.as_bool() {
                Some(b) => b,
                None => false,
            },
            None => false,
        },
        None => false,
    }
}

} // verus!
