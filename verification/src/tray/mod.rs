//! The tray controller: the tray icon with its context menu, and what
//! clicks on either of them do.

pub mod builder;
pub mod event;
pub mod menu;
pub mod toggle;
