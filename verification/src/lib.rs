//! Scavenger hunts: the hunt, clue and player records, the indexed store
//! that holds them, and the lifecycle controller that moves a hunt between
//! its states.

pub mod errors;
pub mod laws;
pub mod lifecycle;
pub mod storage;
pub mod text;
pub mod types;

pub use crate::errors::{HuntError, HuntErrorCode};
pub use crate::lifecycle::HuntyCore;
pub use crate::storage::Storage;
pub use crate::types::{Address, Clue, Hunt, HuntStatus, Location, PlayerProgress, RewardConfig};
