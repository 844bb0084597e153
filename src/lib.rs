//! Tracks a user's collection of source repositories: the inventory, the
//! command-line grammar, the listing table and the per-entry sync decisions.
pub mod text;
pub mod config;
pub mod cli;
pub mod listing;
pub mod sync;
pub mod dispatch;

pub use cli::State;
pub use dispatch::{help_msg, run};
