//! Verified core of the Wolf launcher: client configuration, the Wolf API
//! data model, event-stream framing, Docker pull progress, and the launcher's
//! app, lobby, session, settings and input decisions.

pub mod text;
pub mod config;
pub mod error;
pub mod model;
pub mod events;
pub mod docker;
pub mod client;
pub mod lobbies;
pub mod order;
pub mod apps;
pub mod settings;
pub mod session;
pub mod launch;
pub mod images;
pub mod input;
pub mod repeat;
pub mod gamepad;
pub mod dialogs;
pub mod pin;
pub mod provider;
pub mod toast;
pub mod actions;
pub mod screens;
pub mod ui;
pub mod flow;
