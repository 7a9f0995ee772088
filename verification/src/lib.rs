//! Meta-TUI core library: the logic of a terminal workbench that orchestrates
//! CLI coding agents (pi in RPC mode) — provider and model configuration,
//! the keyboard state machines of the sidebar and of the router's
//! configuration screen, the structured conversation model with its
//! streaming updates, the translation of agent events into actions, the
//! reading of saved sessions, markdown rendering, mouse selection, ANSI
//! text handling and the helpers around workspaces and sessions.
//!
//! Every function here carries a contract proved with Verus; the terminal,
//! the processes, the network and the files are driven by the application
//! around this library.

pub mod strs;
pub mod seqs;
pub mod provider;
pub mod state;
pub mod tui_state;
pub mod message;
pub mod utils;
pub mod errors;
pub mod config;
pub mod persistence;
pub mod action;
pub mod event;
pub mod components;
pub mod router_form;
pub mod ansi;
pub mod main_view;
pub mod sessions;
pub mod keys;
pub mod history;
pub mod markdown;
pub mod selection;
pub mod message_lines;
pub mod sidebar_footer;
pub mod agent_panel_lines;
pub mod sidebar_tree;

pub use action::Action;
pub use ansi::strip_ansi;
pub use config::Config;
pub use errors::Error;
