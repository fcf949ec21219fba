use winkioskshell::kiosk_settings::{
    info_for, is_local_user, local_user_query, startup_link_path, user_shell_entry, SettingsForm,
    ShellEntry, WinKioskSettings,
};
use winkioskshell::mainconfig::MainConfig;

fn form(password: &str) -> SettingsForm {
    let config = MainConfig {
        client_application: Some("C:\\app.exe".to_string()),
        password: Some(password.to_string()),
    };
    WinKioskSettings::new().open(false, vec!["bob".to_string()], "alice".to_string(), "v1.0", &config)
}

#[test]
fn open_fills_form_from_configuration() {
    let f = form("pw");
    assert!(f.is_admin);
    assert_eq!(f.title_text, "Kiosk Settings v1.0");
    assert_eq!(f.users, vec!["alice".to_string()]);
    assert_eq!(f.client_application, "C:\\app.exe");
    assert_eq!(f.app_password, "pw");
    assert_eq!(f.user_info, "Cannot set shell, only start in autostart");
    assert!(!f.hidden);
}

#[test]
fn open_lists_accounts_when_elevated_or_none_without_admin() {
    let config = MainConfig::default();
    let s = WinKioskSettings::new();
    let f = s.open(true, vec!["bob".to_string()], "alice".to_string(), "1", &config);
    assert_eq!(f.users, vec!["bob".to_string()]);
    assert_eq!(f.app_password, "");
    let strict = WinKioskSettings { kiosk_settings_always_admin: false };
    let g = strict.open(false, vec!["bob".to_string()], "alice".to_string(), "1", &config);
    assert!(!g.is_admin);
    assert!(g.users.is_empty());
}

#[test]
fn save_with_empty_password_is_refused() {
    let mut f = form("");
    assert!(WinKioskSettings::request_save_close(&mut f).is_none());
    assert_eq!(f.dialog_text, "Password must be set.");
    assert!(f.message_visible);
    assert!(!f.hidden);
}

#[test]
fn save_with_password_hands_fields_over() {
    let mut f = form("pw");
    WinKioskSettings::user_selected(&mut f, "bob", "alice");
    assert_eq!(f.user_info, "set shell");
    let q = WinKioskSettings::request_save_close(&mut f).expect("save request");
    assert_eq!(q.user_name, "bob");
    assert_eq!(q.application, "C:\\app.exe");
    assert_eq!(q.password, "pw");
    WinKioskSettings::shell_written(&mut f, Ok(()));
    assert!(f.hidden);
}

#[test]
fn failed_shell_write_shows_error_and_stays_open() {
    let mut f = form("pw");
    WinKioskSettings::shell_written(&mut f, Err("access denied".to_string()));
    assert_eq!(f.dialog_text, "Error: access denied");
    assert!(f.message_visible);
    assert!(!f.hidden);
}

#[test]
fn cancel_closes_form() {
    let mut f = form("pw");
    WinKioskSettings::request_cancel_close(&mut f);
    assert!(f.hidden);
}

#[test]
fn message_boxes_set_dialog_text() {
    let mut f = form("pw");
    WinKioskSettings::message_box(&mut f, "hello");
    assert_eq!(f.dialog_text, "hello");
    WinKioskSettings::message_box_err(&mut f, "bad");
    assert_eq!(f.dialog_text, "Error: bad");
}

#[test]
fn info_depends_on_selected_account() {
    assert_eq!(info_for("", "alice"), "Cannot set shell, only start in autostart");
    assert_eq!(info_for("alice", "alice"), "Cannot set shell, only start in autostart");
    assert_eq!(info_for("bob", "alice"), "set shell");
}

#[test]
fn local_user_reply_is_trimmed() {
    assert!(is_local_user("True\r\n"));
    assert!(is_local_user("  True "));
    assert!(!is_local_user("False\r\n"));
    assert!(!is_local_user("true"));
}

#[test]
fn local_user_query_names_account() {
    assert_eq!(
        local_user_query("bob"),
        "$user = Get-LocalUser -Name 'bob'; if($user -ne $null) { $true } else { $false }"
    );
}

#[test]
fn shell_entry_depends_on_account() {
    assert_eq!(user_shell_entry("", false), ShellEntry::StartupLink);
    assert_eq!(user_shell_entry("alice", true), ShellEntry::StartupLink);
    assert_eq!(user_shell_entry("bob", false), ShellEntry::LogonShell);
}

#[test]
fn startup_link_is_in_startup_folder() {
    assert_eq!(
        startup_link_path("C:\\Users\\alice", "winkioskshell"),
        "C:\\Users\\alice\\AppData\\Roaming\\Microsoft\\Windows\\Start Menu\\Programs\\Startup\\winkioskshell.lnk"
    );
}

#[test]
fn local_user_reply_trims_unicode_white_space() {
    assert!(is_local_user("\u{a0}True\u{3000}\t"));
    assert!(!is_local_user("Tr ue"));
    assert!(!is_local_user(""));
}

#[test]
fn form_content_survives_message_and_selection() {
    let mut f = form("pw");
    WinKioskSettings::message_box(&mut f, "note");
    assert_eq!(f.title_text, "Kiosk Settings v1.0");
    assert_eq!(f.users, vec!["alice".to_string()]);
    WinKioskSettings::user_selected(&mut f, "bob", "alice");
    assert_eq!(f.dialog_text, "note");
    assert!(f.message_visible);
    assert_eq!(f.client_application, "C:\\app.exe");
}
