//! A keyboard-driven YouTube terminal client, as a verified library.

pub mod app;
pub mod app_laws;
pub mod call_laws;
pub mod cli;
pub mod config;
pub mod config_laws;
pub mod dispatcher;
pub mod document;
pub mod double;
pub mod json;
pub mod key_laws;
pub mod keys;
pub mod logging;
pub mod method_laws;
pub mod palette;
pub mod playback;
pub mod player;
pub mod preflight;
pub mod process;
pub mod scene;
pub mod search;
pub mod search_laws;
pub mod search_run;
pub mod session;
pub mod session_laws;
pub mod signal;
pub mod text;
pub mod text_laws;
pub mod time;
pub mod tui;
pub mod tui_laws;
pub mod width;
