//! The commands that the control side hands to the playback engine.

use vstd::prelude::*;
use vstd::std_specs::cmp::PartialEqSpecImpl;

verus! {

/// One control action, as the engine receives it. A command carries no
/// identifier and expects no answer: what it did shows only in a later read
/// of the player's state.
///
/// `SetVolume` holds the level as the bit pattern of a 64-bit float
/// (`f64::to_bits`). It is passed on as it came, whatever its range.
#[derive(Debug)]
pub enum MprisCommand {
    Play,
    Pause,
    PlayPause,
    Next,
    Previous,
    Stop,
    /// Move by this many microseconds, relative to the current position.
    Seek(i64),
    /// Move to this position, in microseconds from the start.
    SetPosition(i64),
    /// Set the volume to the float with these bits.
    SetVolume(u64),
    /// Set the loop mode: "None", "Track" or "Playlist".
    SetLoopStatus(String),
    SetShuffle(bool),
}

/// A command as the contracts see it: its kind and its plain argument.
pub enum CommandView {
    Play,
    Pause,
    PlayPause,
    Next,
    Previous,
    Stop,
    Seek(i64),
    SetPosition(i64),
    SetVolume(u64),
    SetLoopStatus(Seq<char>),
    SetShuffle(bool),
}

impl View for MprisCommand {
    type V = CommandView;

    open spec fn view(&self) -> CommandView {
        match self {
            MprisCommand::Play => CommandView::Play,
            MprisCommand::Pause => CommandView::Pause,
            MprisCommand::PlayPause => CommandView::PlayPause,
            MprisCommand::Next => CommandView::Next,
            MprisCommand::Previous => CommandView::Previous,
            MprisCommand::Stop => CommandView::Stop,
            MprisCommand::Seek(offset) => CommandView::Seek(*offset),
            MprisCommand::SetPosition(position) => CommandView::SetPosition(*position),
            MprisCommand::SetVolume(bits) => CommandView::SetVolume(*bits),
            MprisCommand::SetLoopStatus(status) => CommandView::SetLoopStatus(status@),
            MprisCommand::SetShuffle(on) => CommandView::SetShuffle(*on),
        }
    }
}

impl Clone for MprisCommand {
    /// A copy is the same command with the same argument.
    fn clone(&self) -> (copy: Self)
        ensures
            copy@ == self@,
    {
        match self {
            MprisCommand::Play => MprisCommand::Play,
            MprisCommand::Pause => MprisCommand::Pause,
            MprisCommand::PlayPause => MprisCommand::PlayPause,
            MprisCommand::Next => MprisCommand::Next,
            MprisCommand::Previous => MprisCommand::Previous,
            MprisCommand::Stop => MprisCommand::Stop,
            MprisCommand::Seek(offset) => MprisCommand::Seek(*offset),
            MprisCommand::SetPosition(position) => MprisCommand::SetPosition(*position),
            MprisCommand::SetVolume(bits) => MprisCommand::SetVolume(*bits),
            MprisCommand::SetLoopStatus(status) => MprisCommand::SetLoopStatus(status.clone()),
            MprisCommand::SetShuffle(on) => MprisCommand::SetShuffle(*on),
        }
    }
}

impl PartialEq for MprisCommand {
    fn eq(&self, other: &Self) -> (same: bool) {
        match (self, other) {
            (MprisCommand::Play, MprisCommand::Play) => true,
            (MprisCommand::Pause, MprisCommand::Pause) => true,
            (MprisCommand::PlayPause, MprisCommand::PlayPause) => true,
            (MprisCommand::Next, MprisCommand::Next) => true,
            (MprisCommand::Previous, MprisCommand::Previous) => true,
            (MprisCommand::Stop, MprisCommand::Stop) => true,
            (MprisCommand::Seek(a), MprisCommand::Seek(b)) => *a == *b,
            (MprisCommand::SetPosition(a), MprisCommand::SetPosition(b)) => *a == *b,
            (MprisCommand::SetVolume(a), MprisCommand::SetVolume(b)) => *a == *b,
            (MprisCommand::SetLoopStatus(a), MprisCommand::SetLoopStatus(b)) => *a == *b,
            (MprisCommand::SetShuffle(a), MprisCommand::SetShuffle(b)) => *a == *b,
            _ => false,
        }
    }
}

impl PartialEqSpecImpl for MprisCommand {
    open spec fn obeys_eq_spec() -> bool {
        true
    }

    /// Two commands are equal where they are of one kind and hold the same
    /// argument. Volumes are compared by their bits.
    open spec fn eq_spec(&self, other: &Self) -> bool {
        self@ == other@
    }
}

} // verus!
