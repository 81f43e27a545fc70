//! Core of a desktop tray application: locale handling, the translation
//! registry, the shared window and menu state, and the event-driven
//! controllers that decide what the host runtime is asked to do.

pub mod commands;
pub mod event_handler;
pub mod host;
pub mod locale;
pub mod menu;
pub mod model;
pub mod state;
pub mod text;
pub mod translator;
pub mod tray;
