//! A click-counter game: one record per player, holding the player's identity
//! and the number of clicks made so far.

pub mod error;
pub mod game;
pub mod identity;
pub mod laws;
pub mod record;

pub use error::ClickerError;
pub use game::{click, click_guarded, initialize, Game, Initialize, Play};
pub use identity::{Identity, IDENTITY_BYTES};
pub use record::Record;
