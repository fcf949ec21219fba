use vstd::prelude::*;

use crate::text::{lower_of, lowercase, str_equal};

verus! {

/// The persisted configuration: which application the kiosk runs, and the
/// administrator password. No password means that none is asked for.
pub struct MainConfig {
    pub client_application: Option<String>,
    pub password: Option<String>,
}

impl Default for MainConfig {
    fn default() -> (r: Self)
        ensures
            r.client_application is None,
            r.password is None,
    {
        MainConfig { client_application: None, password: None }
    }
}

impl Clone for MainConfig {
    fn clone(&self) -> (r: Self)
        ensures
            r.client_application == self.client_application,
            r.password == self.password,
    {
        MainConfig {
            client_application: match &self.client_application {
                Some(a) => Some(a.clone()),
                None => None,
            },
            password: match &self.password {
                Some(p) => Some(p.clone()),
                None => None,
            },
        }
    }
}

/// Access to the configuration of a user account.
pub struct ConfigManager;

impl ConfigManager {
    /// The configuration after the settings session saved an application path
    /// and a password: both fields set, nothing else kept.
    pub fn set_settings(config: MainConfig, application: String, new_password: String) -> (r:
        MainConfig)
        ensures
            r.client_application == Some(application),
            r.password == Some(new_password),
    {
        let mut config = config;
        config.client_application = Some(application);
        config.password = Some(new_password);
        config
    }

    /// Whether `user_name` addresses the account that runs this process: an
    /// empty name does, and so does one equal to it up to case.
    pub fn is_current_user(user_name: &str, current_user: &str) -> (r: bool)
        ensures
            r == (user_name@.len() == 0 || lower_of(user_name@) == lower_of(current_user@)),
    {
        if user_name.unicode_len() == 0 {
            return true;
        }
        let a = lowercase(user_name);
        let b = lowercase(current_user);
        str_equal(a.as_str(), b.as_str())
    }
}

} // verus!
