//! The transport status of the player.

use vstd::prelude::*;

verus! {

/// Whether the player is playing, paused or stopped. The playback engine
/// decides it; the control side only reads it.
#[derive(Clone, Copy, Debug, PartialEq, Eq, Structural)]
pub enum PlaybackStatus {
    Playing,
    Paused,
    Stopped,
}

impl PlaybackStatus {
    /// The name by which the control interface reports this status.
    pub open spec fn name(self) -> Seq<char> {
        match self {
            PlaybackStatus::Playing => "Playing"@,
            PlaybackStatus::Paused => "Paused"@,
            PlaybackStatus::Stopped => "Stopped"@,
        }
    }

    /// The status name, as the control interface spells it.
    pub fn as_str(&self) -> (text: &'static str)
        ensures
            text@ == self.name(),
    {
        match self {
            PlaybackStatus::Playing => "Playing",
            PlaybackStatus::Paused => "Paused",
            PlaybackStatus::Stopped => "Stopped",
        }
    }
}

impl Default for PlaybackStatus {
    /// A player that has not been told anything is stopped.
    fn default() -> (status: Self)
        ensures
            status == PlaybackStatus::Stopped,
    {
        PlaybackStatus::Stopped
    }
}

/// The three status names differ from each other, so a name tells the status.
pub proof fn lemma_name_tells_status(a: PlaybackStatus, b: PlaybackStatus)
    ensures
        a.name() == b.name() <==> a == b,
{
    reveal_strlit("Playing");
    reveal_strlit("Paused");
    reveal_strlit("Stopped");
    if a != b {
        assert(a.name().len() != b.name().len() || a.name()[1] != b.name()[1]);
    }
}

} // verus!
