//! Quarterdeck: the rules behind a tray companion for coding agents.
//!
//! The modules whose names end in `_laws` state what holds of the functions in the others.
//! Most laws speak of calls: `call_ensures(f, args, out)` says that `f`, called with `args`,
//! may return `out`. Of an argument that a call changes, `mut_ref_current` is its value before
//! the call and `mut_ref_future` its value after.

pub mod catalog;
pub mod catalog_laws;
pub mod deck;
pub mod deck_laws;
pub mod file_laws;
pub mod files;
pub mod focus;
pub mod foreground;
pub mod host_laws;
pub mod install;
pub mod ipc;
pub mod json;
pub mod lists;
pub mod logging;
pub mod mcp_server;
pub mod notify;
pub mod part_laws;
pub mod paths;
pub mod perms;
pub mod popup_laws;
pub mod prompt_laws;
pub mod queue_laws;
pub mod request_laws;
pub mod server_laws;
pub mod session_names;
pub mod sessions;
pub mod settings;
pub mod settings_laws;
pub mod shell;
pub mod text;
pub mod toast_laws;
pub mod tool_input;
pub mod util;
pub mod watcher;
pub mod window_laws;
pub mod windows;
