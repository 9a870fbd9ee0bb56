//! Verified view-model logic of the Oryxis desktop client: the decisions
//! its screens make (which menu rows exist, which label a state reads as,
//! whether a URL leaks a password) computed from plain values, with the
//! rendering left to the toolkit layer.

pub mod text;
pub mod clock;
pub mod webdav;
pub mod state;
pub mod menus;
pub mod sftp_menu;
pub mod search;
pub mod host_picker;
pub mod snippets;
pub mod port_forwards;
pub mod monitor;
pub mod settings_sync;
pub mod settings_security;
pub mod settings_mcp;
pub mod relay_deploy;
pub mod drives;
pub mod grid;
pub mod keys;
pub mod files_tab;
pub mod connection_defaults;
pub mod sync_devices;
pub mod vault_transfer;
pub mod key_panels;
pub mod cloud_import;
pub mod dash_sort;
pub mod tmux_tab;
pub mod agent_ai;
pub mod prompts;
pub mod labels;
