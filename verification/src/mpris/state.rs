//! The player's state as the session sees it.

use crate::mpris::metadata::{Metadata, ValueView};
use crate::playback_state::PlaybackStatus;
use vstd::prelude::*;

verus! {

/// Everything that the control side reports of the player, as one value. The
/// playback engine is its only writer; the control side copies it whole and
/// answers from the copy.
///
/// `volume` holds the level as the bit pattern of a 64-bit float
/// (`f64::to_bits`), nominally between 0.0 and 1.0; a level outside that range
/// is kept as it is. `position` counts microseconds. `loop_status` is one of
/// "None", "Track" and "Playlist".
#[derive(Debug)]
pub struct MprisState {
    pub playback_status: PlaybackStatus,
    pub metadata: Metadata,
    pub position: i64,
    pub volume: u64,
    pub shuffle: bool,
    pub loop_status: String,
}

/// The state as the contracts see it.
pub struct StateView {
    pub playback_status: PlaybackStatus,
    pub metadata: Map<Seq<char>, ValueView>,
    pub entries: Seq<(Seq<char>, ValueView)>,
    pub position: i64,
    pub volume: u64,
    pub shuffle: bool,
    pub loop_status: Seq<char>,
}

impl View for MprisState {
    type V = StateView;

    open spec fn view(&self) -> StateView {
        StateView {
            playback_status: self.playback_status,
            metadata: self.metadata@,
            entries: self.metadata.listing(),
            position: self.position,
            volume: self.volume,
            shuffle: self.shuffle,
            loop_status: self.loop_status@,
        }
    }
}

impl Default for MprisState {
    /// The state before the engine has written anything: stopped, at position
    /// 0, volume 0.0, no shuffle, no track description and an empty loop mode.
    fn default() -> (state: Self)
        ensures
            state@ == (StateView {
                playback_status: PlaybackStatus::Stopped,
                metadata: Map::empty(),
                entries: Seq::empty(),
                position: 0,
                volume: 0,
                shuffle: false,
                loop_status: Seq::empty(),
            }),
    {
        MprisState {
            playback_status: PlaybackStatus::Stopped,
            metadata: Metadata::new(),
            position: 0,
            volume: 0,
            shuffle: false,
            loop_status: String::new(),
        }
    }
}

impl Clone for MprisState {
    /// A copy agrees with the state in every field: no part of it comes from
    /// anywhere else.
    fn clone(&self) -> (copy: Self)
        ensures
            copy@ == self@,
    {
        MprisState {
            playback_status: self.playback_status,
            metadata: self.metadata.clone(),
            position: self.position,
            volume: self.volume,
            shuffle: self.shuffle,
            loop_status: self.loop_status.clone(),
        }
    }
}

impl MprisState {
    /// The status as the control interface reports it: the name of
    /// `playback_status`, unchanged.
    pub fn status_text(&self) -> (text: String)
        ensures
            text@ == self.playback_status.name(),
    {
        self.playback_status.as_str().to_string()
    }
}

} // verus!
