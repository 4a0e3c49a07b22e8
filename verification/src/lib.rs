//! Solving the levels of a wargame: each level is reached over a remote shell
//! with the password that the level before it gave away.
//!
//! The library holds every decision of a run and none of its input and output.
//! It turns the text of a settings document into a [`WargameConfig`]
//! ([`settings`], [`document`]), names the user and finds the password of a
//! level ([`credentials`]), picks the command that prints the next password
//! ([`commands`], [`bandit`]), says with what a session is opened and reads
//! what a command left behind ([`session`]), and tells the caller step by step
//! what to do with the session ([`solver`]).
pub mod bandit;
pub mod commands;
pub mod credentials;
pub mod document;
pub mod error;
pub mod session;
pub mod settings;
pub mod solver;
pub mod text;

pub use credentials::get_level_password;
pub use error::{SettingKey, WargameError};
pub use settings::{load_settings, WargameConfig};
