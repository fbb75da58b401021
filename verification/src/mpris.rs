//! The control interface of the player: the application's descriptor, the
//! player's state as the session sees it, and the commands for the engine.

pub mod answer;
pub mod channel;
pub mod command;
pub mod metadata;
pub mod player;
pub mod request;
pub mod root;
pub mod state;
pub mod store;

pub use channel::Outcome;
pub use command::{CommandView, MprisCommand};
pub use metadata::{Metadata, MetadataEntry, MetadataValue, ValueView};
pub use player::MediaPlayer2Player;
pub use request::{ControlRequest, RequestView};
pub use root::MediaPlayer2;
pub use state::{MprisState, StateView};
pub use store::{copy_locked, read, StorePoisoned};
