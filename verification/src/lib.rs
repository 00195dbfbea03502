//! Core of a chat bot for Age of Empires II match links: it extracts a
//! canonical nine-digit match id from free-form text, composes a structured
//! reply with deep-link actions, builds the request URLs for three upstream
//! statistics endpoints, normalizes raw leaderboard text, and routes trigger
//! events (explicit commands or passively scanned messages) to exactly one
//! outward action.
use vstd::prelude::*;

pub mod compose;
pub mod dispatch;
pub mod extract;
pub mod leaderboard;
pub mod text;
pub mod upstream;

verus! {

/// Shared state handed to every command invocation; the bot keeps none.
pub struct Data {}

} // verus!
