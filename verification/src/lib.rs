//! Verified core logic of the Hebbian agent surfaces: the preview URL policy,
//! browser history, the daemon's event stream, chunked replies, renderers and
//! the small parsers and state machines around them.

pub mod text;
pub mod url_policy;
pub mod browser_history;
pub mod paths;
pub mod hebcore;
pub mod chunking;
pub mod protocol;
pub mod gateway;
pub mod json;
pub mod daemon;
pub mod render;
pub mod table;
pub mod channel_forward;
pub mod notch;
pub mod messages;
pub mod hitl;
pub mod desktop;
pub mod island;
pub mod preview;
pub mod terminal;
pub mod idle;
pub mod mock;
pub mod automode;
pub mod tui;
pub mod css_rules;
pub mod chat_lines;
pub mod cli_session;
pub mod session_config;
pub mod memory_backfill;
pub mod todos;
pub mod aside;
pub mod chat_setup;
pub mod channel_observer;
pub mod devtools;
pub mod tui_keys;
pub mod tui_popups;
