use vstd::prelude::*;

use crate::mainconfig::MainConfig;
use crate::text::{str_equal, trim_white_space, trim_ws};

verus! {

/// Relies on `whoami::username`: the name of the account that runs this process.
#[verifier::external_body]
fn current_user_name() -> (r: String)
{
    whoami::username()
}

/// The note shown for the selected account: for the running account only an
/// autostart entry can be written, for another one its logon shell.
pub open spec fn info_text(user_name: Seq<char>, current_user: Seq<char>) -> Seq<char> {
    if user_name.len() == 0 || user_name == current_user {
        "Cannot set shell, only start in autostart"@
    } else {
        "set shell"@
    }
}

/// The note for `user_name`, where `current_user` runs this process.
pub fn info_for(user_name: &str, current_user: &str) -> (r: String)
    ensures
        r@ == info_text(user_name@, current_user@),
{
    if user_name.unicode_len() == 0 || str_equal(user_name, current_user) {
        String::from_str("Cannot set shell, only start in autostart")
    } else {
        String::from_str("set shell")
    }
}

/// The note for `user_name`, compared with the account that runs this process.
pub fn get_info(user_name: &str) -> (r: String)
    ensures
        exists|current: Seq<char>| r@ == info_text(user_name@, current),
{
    let current = current_user_name();
    info_for(user_name, current.as_str())
}

/// Whether the output of the local-account query says that the account exists.
pub open spec fn local_user_reply(output: Seq<char>) -> bool {
    trim_ws(output) == "True"@
}

/// Reads the output of the local-account query: `True`, with white space around
/// it or not, means that the account exists.
pub fn is_local_user(output: &str) -> (r: bool)
    ensures
        r == local_user_reply(output@),
{
    str_equal(trim_white_space(output), "True")
}

/// The PowerShell script that prints `True` where `user_name` is a local account.
pub open spec fn local_user_script(user_name: Seq<char>) -> Seq<char> {
    "$user = Get-LocalUser -Name '"@ + user_name
        + "'; if($user -ne $null) { $true } else { $false }"@
}

/// Writes the local-account query for `user_name`.
pub fn local_user_query(user_name: &str) -> (r: String)
    ensures
        r@ == local_user_script(user_name@),
{
    let mut s = String::from_str("$user = Get-LocalUser -Name '");
    s.append(user_name);
    s.append("'; if($user -ne $null) { $true } else { $false }");
    s
}

/// Where the kiosk is registered for an account.
#[derive(PartialEq, Eq, Structural, Debug, Clone, Copy)]
pub enum ShellEntry {
    /// A shortcut in the running account's startup folder.
    StartupLink,
    /// The logon shell in the registry hive of another account.
    LogonShell,
}

/// The running account (an empty name, or the account whose profile
/// directory is the home directory) gets a startup shortcut; any other account
/// gets its logon shell replaced.
pub fn user_shell_entry(user_name: &str, profile_is_home: bool) -> (r: ShellEntry)
    ensures
        r == ShellEntry::StartupLink <==> (user_name@.len() == 0 || profile_is_home),
{
    if user_name.unicode_len() == 0 || profile_is_home {
        ShellEntry::StartupLink
    } else {
        ShellEntry::LogonShell
    }
}

/// The startup shortcut of `app_name` under the home directory `home_dir`.
pub open spec fn startup_link(home_dir: Seq<char>, app_name: Seq<char>) -> Seq<char> {
    home_dir + "\\AppData\\Roaming\\Microsoft\\Windows\\Start Menu\\Programs\\Startup\\"@
        + app_name + ".lnk"@
}

/// Writes the path of the startup shortcut of `app_name`.
pub fn startup_link_path(home_dir: &str, app_name: &str) -> (r: String)
    ensures
        r@ == startup_link(home_dir@, app_name@),
{
    let mut s = String::from_str(home_dir);
    s.append("\\AppData\\Roaming\\Microsoft\\Windows\\Start Menu\\Programs\\Startup\\");
    s.append(app_name);
    s.append(".lnk");
    s
}

/// The title of the settings window for the running version.
pub open spec fn title_of(version: Seq<char>) -> Seq<char> {
    "Kiosk Settings "@ + version
}

/// What the settings window shows and holds.
pub struct SettingsForm {
    pub is_admin: bool,
    pub title_text: String,
    pub users: Vec<String>,
    pub selected_user: String,
    pub user_info: String,
    pub client_application: String,
    pub app_password: String,
    pub dialog_text: String,
    pub message_visible: bool,
    pub hidden: bool,
}

/// What a save asks to be written: the configuration of `user_name`, and that
/// account's autostart or logon shell.
pub struct SaveRequest {
    pub user_name: String,
    pub application: String,
    pub password: String,
}

/// The settings session. `kiosk_settings_always_admin` shows the administrator
/// controls whatever the elevation check finds; a new session sets it.
pub struct WinKioskSettings {
    pub kiosk_settings_always_admin: bool,
}

/// The two forms hold the same session content: everything but the message
/// box and whether the window is hidden.
pub open spec fn same_content(a: SettingsForm, b: SettingsForm) -> bool {
    &&& a.is_admin == b.is_admin
    &&& a.title_text == b.title_text
    &&& a.users == b.users
    &&& a.selected_user == b.selected_user
    &&& a.user_info == b.user_info
    &&& a.client_application == b.client_application
    &&& a.app_password == b.app_password
}

/// The configured text of an optional field, or the empty text.
pub open spec fn field_text(f: Option<String>) -> Seq<char> {
    match f {
        Some(s) => s@,
        None => Seq::empty(),
    }
}

/// The accounts offered for selection: none without administrator controls;
/// the accounts found on disk where the process is elevated; else the running one.
pub open spec fn offered_users(admin: bool, elevated: bool, listed: Seq<String>, current: String) -> Seq<String> {
    if !admin {
        Seq::empty()
    } else if elevated {
        listed
    } else {
        seq![current]
    }
}

fn text_of(f: &Option<String>) -> (r: String)
    ensures
        r@ == field_text(*f),
{
    match f {
        Some(s) => s.clone(),
        None => String::new(),
    }
}

impl WinKioskSettings {
    pub fn new() -> (r: Self)
        ensures
            r.kiosk_settings_always_admin,
    {
        WinKioskSettings { kiosk_settings_always_admin: true }
    }

    /// Whether the administrator controls are shown, where `elevated` is what
    /// the elevation check found.
    pub fn admin_controls(&self, elevated: bool) -> (r: bool)
        ensures
            r == (self.kiosk_settings_always_admin || elevated),
    {
        self.kiosk_settings_always_admin || elevated
    }

    /// The form as the session opens it, from the elevation check, the
    /// accounts found on disk, the running account, the running version and
    /// the configuration as loaded now.
    pub fn open(
        &self,
        elevated: bool,
        listed_users: Vec<String>,
        current_user: String,
        version: &str,
        config: &MainConfig,
    ) -> (r: SettingsForm)
        ensures
            r.is_admin == (self.kiosk_settings_always_admin || elevated),
            r.title_text@ == title_of(version@),
            r.users@ == offered_users(r.is_admin, elevated, listed_users@, current_user),
            r.selected_user@ == Seq::<char>::empty(),
            r.user_info@ == info_text(Seq::empty(), current_user@),
            r.client_application@ == field_text(config.client_application),
            r.app_password@ == field_text(config.password),
            r.dialog_text@ == Seq::<char>::empty(),
            !r.message_visible,
            !r.hidden,
    {
        let is_admin = self.admin_controls(elevated);
        let user_info = info_for("", current_user.as_str());
        proof {
            reveal_strlit("");
        }
        let users: Vec<String> = if !is_admin {
            Vec::new()
        } else if elevated {
            listed_users
        } else {
            let mut v: Vec<String> = Vec::new();
            v.push(current_user);
            assert(v@ =~= seq![current_user]);
            v
        };
        let mut title_text = String::from_str("Kiosk Settings ");
        title_text.append(version);
        SettingsForm {
            is_admin,
            title_text,
            users,
            selected_user: String::new(),
            user_info,
            client_application: text_of(&config.client_application),
            app_password: text_of(&config.password),
            dialog_text: String::new(),
            message_visible: false,
            hidden: false,
        }
    }

    /// Shows `err` in the form's message box.
    pub fn message_box(form: &mut SettingsForm, err: &str)
        ensures
            final(form).dialog_text@ == err@,
            final(form).message_visible,
            final(form).hidden == old(form).hidden,
            same_content(*final(form), *old(form)),
    {
        form.dialog_text = String::from_str(err);
        form.message_visible = true;
    }

    /// Shows an error in the form's message box, after `Error: `.
    pub fn message_box_err(form: &mut SettingsForm, e: &str)
        ensures
            final(form).dialog_text@ == "Error: "@ + e@,
            final(form).message_visible,
            final(form).hidden == old(form).hidden,
            same_content(*final(form), *old(form)),
    {
        let mut err = String::from_str("Error: ");
        err.append(e);
        Self::message_box(form, err.as_str());
    }

    /// Another account was selected: show its note.
    pub fn user_selected(form: &mut SettingsForm, selected_user: &str, current_user: &str)
        ensures
            final(form).user_info@ == info_text(selected_user@, current_user@),
            final(form).selected_user@ == selected_user@,
            final(form).is_admin == old(form).is_admin,
            final(form).title_text == old(form).title_text,
            final(form).users == old(form).users,
            final(form).client_application == old(form).client_application,
            final(form).app_password == old(form).app_password,
            final(form).dialog_text == old(form).dialog_text,
            final(form).message_visible == old(form).message_visible,
            final(form).hidden == old(form).hidden,
    {
        form.user_info = info_for(selected_user, current_user);
        form.selected_user = String::from_str(selected_user);
    }

    /// Cancel: the edits are dropped and the window closes.
    pub fn request_cancel_close(form: &mut SettingsForm)
        ensures
            *final(form) == (SettingsForm { hidden: true, ..*old(form) }),
    {
        form.hidden = true;
    }

    /// Save: refused with a message while the password field is empty; else
    /// what to write, from the form's fields.
    pub fn request_save_close(form: &mut SettingsForm) -> (r: Option<SaveRequest>)
        ensures
            r is None <==> old(form).app_password@.len() == 0,
            r is None ==> final(form).dialog_text@ == "Password must be set."@
                && final(form).message_visible,
            r is Some ==> *final(form) == *old(form),
            final(form).hidden == old(form).hidden,
            same_content(*final(form), *old(form)),
            match r {
                Some(q) => q.user_name@ == old(form).selected_user@ && q.application@
                    == old(form).client_application@ && q.password@ == old(form).app_password@,
                None => true,
            },
    {
        if form.app_password.as_str().unicode_len() == 0 {
            Self::message_box(form, "Password must be set.");
            None
        } else {
            Some(
                SaveRequest {
                    user_name: form.selected_user.clone(),
                    application: form.client_application.clone(),
                    password: form.app_password.clone(),
                },
            )
        }
    }

    /// The configuration was saved and the shell entry written, with `outcome`:
    /// on success the window closes; on failure it shows the error and stays.
    pub fn shell_written(form: &mut SettingsForm, outcome: Result<(), String>)
        ensures
            final(form).hidden <==> outcome is Ok,
            same_content(*final(form), *old(form)),
            match outcome {
                Err(e) => final(form).dialog_text@ == "Error: "@ + e@ && final(form).message_visible,
                Ok(_) => final(form).dialog_text == old(form).dialog_text
                    && final(form).message_visible == old(form).message_visible,
            },
    {
        match outcome {
            Ok(_) => {
                form.hidden = true;
            },
            Err(e) => {
                Self::message_box_err(form, e.as_str());
                form.hidden = false;
            },
        }
    }
}

} // verus!
