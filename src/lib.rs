//! Kiosk-mode desktop shell: the decisions of the kiosk session, the settings
//! session, the environment watcher and the update check, with their contracts.

mod text;

pub mod mainconfig;
pub mod release;
pub mod kiosk_shell;
pub mod kiosk_settings;
