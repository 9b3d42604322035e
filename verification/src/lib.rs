//! Core logic of a self-hosted media remote: the wire protocol between the
//! phone remote, the daemon and the browser extension, the daemon's relay
//! decisions, the volume to write, the access token format, the update
//! check and the tray menu's state machine.

pub mod auth;
pub mod platform;
pub mod protocol;
pub mod server;
pub mod tray;
pub mod updater;
