use claude_usage::json::Json;
use claude_usage::models::Settings;
use claude_usage::text::{contains_str, decimal_string, split_char, starts_with, str_eq};
use claude_usage::tray::{display_mode_for, remaining_mode_checked, tray_click_action, tray_menu_action, TrayClickAction, TrayMenuAction};
use claude_usage::updater::{install_failed_dialog, update_accepted, update_check_dialog, UpdateCheckResult};

fn s(x: &str) -> String {
    x.to_string()
}

#[test]
fn display_mode_toggle() {
    assert_eq!(display_mode_for(true), "remaining");
    assert_eq!(display_mode_for(false), "usage");
    assert!(remaining_mode_checked(&Settings::default()));
    assert!(!remaining_mode_checked(&Settings { display_mode: s("usage"), poll_interval_seconds: 60 }));
}

#[test]
fn menu_ids() {
    assert_eq!(tray_menu_action("remaining_mode"), TrayMenuAction::ToggleRemainingMode);
    assert_eq!(tray_menu_action("configure_interval"), TrayMenuAction::ConfigureInterval);
    assert_eq!(tray_menu_action("check_for_updates"), TrayMenuAction::CheckForUpdates);
    assert_eq!(tray_menu_action("launch_at_login"), TrayMenuAction::ToggleLaunchAtLogin);
    assert_eq!(tray_menu_action("quit"), TrayMenuAction::Other);
}

#[test]
fn click_debounce() {
    assert_eq!(tray_click_action(true, 1_000, 900), TrayClickAction::HidePanel);
    assert_eq!(tray_click_action(true, i64::MIN, i64::MAX), TrayClickAction::HidePanel);
    assert_eq!(tray_click_action(false, 1_000, 900), TrayClickAction::Nothing);
    assert_eq!(tray_click_action(false, 1_200, 900), TrayClickAction::ShowPanel);
    assert_eq!(tray_click_action(false, 1_199, 900), TrayClickAction::Nothing);
}

#[test]
fn update_dialogs() {
    let d = update_check_dialog(UpdateCheckResult::UpToDate, true).unwrap();
    assert_eq!((d.title.as_str(), d.message.as_str(), d.is_error), ("No Updates", "You're on the latest version.", false));
    assert!(update_check_dialog(UpdateCheckResult::UpToDate, false).is_none());
    let d = update_check_dialog(UpdateCheckResult::CheckFailed, true).unwrap();
    assert!(d.is_error && d.title == "Update Error");
    assert!(update_check_dialog(UpdateCheckResult::UpdateAvailable, true).is_none());
    assert_eq!(install_failed_dialog("disk full").message, "Failed to install update: disk full");
}

#[test]
fn update_answer_acceptance() {
    let yes = Json::Object(vec![(s("accepted"), Json::Bool(true))]);
    let no = Json::Object(vec![(s("accepted"), Json::Bool(false))]);
    let odd = Json::Object(vec![(s("accepted"), Json::Str(s("true")))]);
    assert!(update_accepted(&Some(yes)));
    assert!(!update_accepted(&Some(no)));
    assert!(!update_accepted(&Some(odd)));
    assert!(!update_accepted(&None));
}

#[test]
fn text_helpers() {
    assert_eq!(decimal_string(0), "0");
    assert_eq!(decimal_string(65535), "65535");
    assert_eq!(split_char("a__b", '_'), vec![s("a"), s(""), s("b")]);
    assert_eq!(split_char("", ','), vec![s("")]);
    assert!(contains_str("default_max", "max"));
    assert!(contains_str("abc", ""));
    assert!(!contains_str("ab", "abc"));
    assert!(starts_with("sk-ant-oat1", "sk-ant-oat"));
    assert!(str_eq("é", "é") && !str_eq("a", "b"));
}

#[test]
fn json_lookup_takes_first_member() {
    let v = Json::Object(vec![(s("k"), Json::Str(s("one"))), (s("k"), Json::Str(s("two")))]);
    assert_eq!(v.get_str("k"), Some(s("one")));
    assert!(Json::Array(vec![]).get("k").is_none());
    assert_eq!(Json::Bool(true).as_bool(), Some(true));
}
