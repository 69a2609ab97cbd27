//! Oeee Cafe for the desktop: what the window decides about the site it shows.

pub mod address;
pub mod badge;
pub mod bridge;
pub mod chrome;
pub mod close_guard;
pub mod context_menu;
pub mod contract;
pub mod dialogs;
pub mod handoff;
pub mod json;
pub mod keys;
pub mod leave;
pub mod macos;
pub mod menu;
pub mod microsoft;
pub mod navigation;
pub mod notify;
pub mod offline;
pub mod site;
pub mod snap;
pub mod steam;
pub mod store;
pub mod text;
pub mod waiting;
pub mod webview2;
pub mod words;
pub mod zoom;
