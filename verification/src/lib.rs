//! The core of a music player: the queue, the state machine that turns commands
//! and clock ticks into backend calls and reports, and the values they exchange.

pub mod backend;
pub mod command;
pub mod effects;
pub mod laws;
pub mod listener;
pub mod model;
pub mod player;
pub mod queue;
pub mod seek;
pub mod state;
pub mod steps;
pub mod track;
pub mod transcript;
pub mod volume;

pub use backend::{AudioBackend, AudioError, BackendState};
pub use command::PlayerCommand;
pub use listener::{Callbacks, Listener};
pub use model::LoopState;
pub use player::{Player, Step};
pub use queue::Queue;
pub use seek::SeekPosition;
pub use state::PlaybackState;
pub use track::{Track, TrackId, TrackPath};
pub use volume::{PlayerError, Volume};
