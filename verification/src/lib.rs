//! Verified core of a subscription-usage monitor: token handling, OAuth PKCE,
//! usage-response interpretation, the background poller's backoff rules and
//! the tray's decisions.

pub mod clock;
pub mod commands;
pub mod helper;
pub mod json;
pub mod keychain;
pub mod models;
pub mod oauth;
pub mod pkce;
pub mod poller;
pub mod text;
pub mod tray;
pub mod updater;
pub mod usage;
