//! Decides whether the current moment lies inside the daily light window
//! (sunrise to sunset) of a configured place, and keeps that window in a
//! small cache file.
pub mod api;
pub mod cache;
pub mod command;
pub mod outside;
pub mod runner;
pub mod text;
pub mod time;

pub use api::{parse_config, parse_response, window_from_texts, Config};
pub use cache::encode_cache;
pub use command::{parse_args, parse_command, AppError, Command};
pub use runner::{status_at, status_now, App, Plan, Status, MARGIN_SECONDS};
pub use text::same_text;
pub use time::{Instant, Window};
