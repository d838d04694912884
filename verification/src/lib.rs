//! A terminal banner of host facts beside a piece of ASCII art.
//!
//! The crate lays two blocks of text side by side: the art, and one line per
//! enabled fact. Widths are measured in visible characters, so colour escape
//! sequences never disturb the alignment.

pub mod ansi;
pub mod art;
pub mod config;
pub mod display;
pub mod info;
pub mod layout;
pub mod style;
pub mod system_info;
pub mod text;
pub mod uptime;

pub use config::DisplayConfig;
