//! The menu-bar icon's decisions: which menu entry was chosen, what a click
//! does, and the display mode the toggle stands for.

use vstd::prelude::*;
use crate::models::Settings;
use crate::text::{str_eq, string_of};

verus! {

/// After the panel hides on focus loss, a click within this many
/// milliseconds does not show it again (the click that took the focus away
/// was on the icon itself).
pub const REOPEN_DEBOUNCE_MS: i64 = 300;

/// The display mode the "Show Remaining" toggle stands for.
pub fn display_mode_for(remaining_checked: bool) -> (r: String)
    ensures
        r@ == (if remaining_checked { "remaining"@ } else { "usage"@ }),
{
    if remaining_checked { string_of("remaining") } else { string_of("usage") }
}

/// Whether the "Show Remaining" toggle starts checked.
pub fn remaining_mode_checked(settings: &Settings) -> (r: bool)
    ensures
        r == (settings.display_mode@ == "remaining"@),
{
    str_eq(settings.display_mode.as_str(), "remaining")
}

/// The tray menu's entries.
#[derive(PartialEq, Eq, Structural, Clone, Copy, Debug)]
pub enum TrayMenuAction {
    ToggleRemainingMode,
    ConfigureInterval,
    CheckForUpdates,
    ToggleLaunchAtLogin,
    Other,
}

/// The entry a menu event's id names.
pub fn tray_menu_action(id: &str) -> (r: TrayMenuAction)
    ensures
        r == (if id@ == "remaining_mode"@ {
            TrayMenuAction::ToggleRemainingMode
        } else if id@ == "configure_interval"@ {
            TrayMenuAction::ConfigureInterval
        } else if id@ == "check_for_updates"@ {
            TrayMenuAction::CheckForUpdates
        } else if id@ == "launch_at_login"@ {
            TrayMenuAction::ToggleLaunchAtLogin
        } else {
            TrayMenuAction::Other
        }),
{
    if str_eq(id, "remaining_mode") {
        TrayMenuAction::ToggleRemainingMode
    } else if str_eq(id, "configure_interval") {
        TrayMenuAction::ConfigureInterval
    } else if str_eq(id, "check_for_updates") {
        TrayMenuAction::CheckForUpdates
    } else if str_eq(id, "launch_at_login") {
        TrayMenuAction::ToggleLaunchAtLogin
    } else {
        TrayMenuAction::Other
    }
}

/// What a left click on the icon does.
#[derive(PartialEq, Eq, Structural, Clone, Copy, Debug)]
pub enum TrayClickAction {
    HidePanel,
    /// Move the panel under the icon, show it and focus it.
    ShowPanel,
    Nothing,
}

/// A left click at `now` (milliseconds): a visible panel hides; a hidden one
/// shows, unless it was hidden by focus loss less than 300 ms ago.
pub fn tray_click_action(panel_visible: bool, now: i64, panel_hidden_at: i64) -> (r: TrayClickAction)
    requires
        !panel_visible ==> i64::MIN <= now - panel_hidden_at <= i64::MAX,
    ensures
        r == (if panel_visible {
            TrayClickAction::HidePanel
        } else if now - panel_hidden_at < REOPEN_DEBOUNCE_MS {
            TrayClickAction::Nothing
        } else {
            TrayClickAction::ShowPanel
        }),
{
    if panel_visible {
        TrayClickAction::HidePanel
    } else if now - panel_hidden_at < REOPEN_DEBOUNCE_MS {
        TrayClickAction::Nothing
    } else {
        TrayClickAction::ShowPanel
    }
}

} // verus!
