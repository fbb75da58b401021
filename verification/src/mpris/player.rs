//! The player's side of the control interface: questions are answered from a
//! copy of the shared state, requests for change become commands for the
//! engine.

use crate::mpris::answer::{
    loop_status_reply, metadata_reply, playback_status_reply, position_reply, shuffle_reply,
    volume_reply,
};
use crate::mpris::channel::{send, Outcome};
use crate::mpris::command::{CommandView, MprisCommand};
use crate::mpris::metadata::Metadata;
use crate::mpris::request::ControlRequest;
use crate::mpris::state::MprisState;
use crate::mpris::store::{held_state, read, StorePoisoned};
use crate::playback_state::PlaybackStatus;
use std::sync::{Arc, Mutex, MutexGuard};
use tokio::sync::mpsc::UnboundedSender;
use vstd::prelude::*;
use zbus::zvariant::ObjectPath;

verus! {

/// `zbus::zvariant::ObjectPath`: the path of an object on the bus. A track is
/// named by one; it is taken and never looked into.
#[verifier::external_type_specification]
#[verifier::external_body]
pub struct ExObjectPath<'a>(ObjectPath<'a>);

/// The bit pattern of the 64-bit float 1.0: the only playback rate.
pub const UNIT_RATE: u64 = 0x3FF0_0000_0000_0000;

/// Whether a text is one of the three names of a playback status.
pub open spec fn is_status_name(text: Seq<char>) -> bool {
    ||| text == PlaybackStatus::Playing.name()
    ||| text == PlaybackStatus::Paused.name()
    ||| text == PlaybackStatus::Stopped.name()
}

/// The player's side of the control interface. It holds the sending end of
/// the channel to the engine and a handle on the shared state, and nothing of
/// its own: it never writes the state.
pub struct MediaPlayer2Player {
    pub tx: UnboundedSender<MprisCommand>,
    pub state: Arc<Mutex<MprisState>>,
}

impl MediaPlayer2Player {
    /// Hands the request's command, if it has one, to the channel, and says
    /// what became of it. The call never waits and never fails: where the
    /// engine no longer listens the command is dropped, and that is all.
    ///
    /// Whether the channel takes a command is the receiver's doing. What is
    /// stated: a request without a command is ignored and no other is; and a
    /// command that is dropped is the request's own.
    pub fn submit(&self, request: ControlRequest) -> (outcome: Outcome)
        ensures
            outcome is Ignored <==> !request@.is_mutation(),
            outcome matches Outcome::Dropped(back) ==> request@.command() == Some(back@),
    {
        match request.into_command() {
            Some(command) => Outcome::of_send(send(&self.tx, command)),
            None => Outcome::Ignored,
        }
    }

    /// Asks the engine to start or resume playing, and says what became of
    /// the command. A command is always made; where the channel gives it
    /// back, it is `Play`. The requests that follow do the same, each with the
    /// command of its own kind, and none of them waits or fails: the caller
    /// may leave the outcome unread.
    pub fn play(&self) -> (outcome: Outcome)
        ensures
            !(outcome is Ignored),
            outcome matches Outcome::Dropped(back) ==> back@ == CommandView::Play,
    {
        self.submit(ControlRequest::Play)
    }

    /// Asks the engine to pause.
    pub fn pause(&self) -> (outcome: Outcome)
        ensures
            !(outcome is Ignored),
            outcome matches Outcome::Dropped(back) ==> back@ == CommandView::Pause,
    {
        self.submit(ControlRequest::Pause)
    }

    /// Asks the engine to pause if it plays and to play if it does not. Which
    /// of the two it is, the engine decides when it takes the command.
    pub fn play_pause(&self) -> (outcome: Outcome)
        ensures
            !(outcome is Ignored),
            outcome matches Outcome::Dropped(back) ==> back@ == CommandView::PlayPause,
    {
        self.submit(ControlRequest::PlayPause)
    }

    /// Asks the engine for the next track.
    pub fn next(&self) -> (outcome: Outcome)
        ensures
            !(outcome is Ignored),
            outcome matches Outcome::Dropped(back) ==> back@ == CommandView::Next,
    {
        self.submit(ControlRequest::Next)
    }

    /// Asks the engine for the previous track.
    pub fn previous(&self) -> (outcome: Outcome)
        ensures
            !(outcome is Ignored),
            outcome matches Outcome::Dropped(back) ==> back@ == CommandView::Previous,
    {
        self.submit(ControlRequest::Previous)
    }

    /// Asks the engine to stop.
    pub fn stop(&self) -> (outcome: Outcome)
        ensures
            !(outcome is Ignored),
            outcome matches Outcome::Dropped(back) ==> back@ == CommandView::Stop,
    {
        self.submit(ControlRequest::Stop)
    }

    /// Asks the engine to move by `offset` microseconds, as it came: the
    /// offset is neither clamped nor added to a position.
    pub fn seek(&self, offset: i64) -> (outcome: Outcome)
        ensures
            !(outcome is Ignored),
            outcome matches Outcome::Dropped(back) ==> back@ == CommandView::Seek(offset),
    {
        self.submit(ControlRequest::Seek(offset))
    }

    /// Asks the engine to move to `position`, in microseconds from the start,
    /// as it came. The track's identifier is not looked at: the command is the
    /// same for every track.
    pub fn set_position(&self, _track_id: ObjectPath<'_>, position: i64) -> (outcome: Outcome)
        ensures
            !(outcome is Ignored),
            outcome matches Outcome::Dropped(back) ==> back@ == CommandView::SetPosition(position),
    {
        self.submit(ControlRequest::SetPosition(position))
    }

    /// Accepts a URI to open and does nothing with it: no command is made,
    /// whatever the URI.
    pub fn open_uri(&self, uri: String) -> (outcome: Outcome)
        ensures
            outcome is Ignored,
    {
        self.submit(ControlRequest::OpenUri(uri))
    }

    /// The name of the playback status in the shared state: "Playing",
    /// "Paused" or "Stopped". `Err` where the store is poisoned, as for every
    /// question that is answered from the state.
    ///
    /// An answer that is given is the name of the status of the state that
    /// one guard of the lock protected, and so one of the three names. Which
    /// state that is, and whether the store is poisoned, depend on what the
    /// engine did last; [`playback_status_reply`] states the answer for every
    /// read. The same holds of the five questions that follow, each with its
    /// own field and its own reply.
    pub fn playback_status(&self) -> (reply: Result<String, StorePoisoned>)
        ensures
            reply matches Ok(text) ==> is_status_name(text@),
            reply matches Ok(text) ==> exists|guard: MutexGuard<'_, MprisState>|
                text@ == (#[trigger] held_state(guard)).playback_status.name(),
    {
        playback_status_reply(read(&self.state))
    }

    /// The loop mode in the shared state: [`loop_status_reply`] of a read.
    pub fn loop_status(&self) -> (reply: Result<String, StorePoisoned>)
        ensures
            reply matches Ok(text) ==> exists|guard: MutexGuard<'_, MprisState>|
                text@ == (#[trigger] held_state(guard)).loop_status,
    {
        loop_status_reply(read(&self.state))
    }

    /// Asks the engine to set the loop mode to `status`, which is passed on as
    /// it came.
    pub fn set_loop_status(&self, status: String) -> (outcome: Outcome)
        ensures
            !(outcome is Ignored),
            outcome matches Outcome::Dropped(back) ==> back@ == CommandView::SetLoopStatus(
                status@,
            ),
    {
        self.submit(ControlRequest::SetLoopStatus(status))
    }

    /// Whether the shared state says that tracks are shuffled:
    /// [`shuffle_reply`] of a read.
    pub fn shuffle(&self) -> (reply: Result<bool, StorePoisoned>)
        ensures
            reply matches Ok(on) ==> exists|guard: MutexGuard<'_, MprisState>|
                on == (#[trigger] held_state(guard)).shuffle,
    {
        shuffle_reply(read(&self.state))
    }

    /// Asks the engine to switch shuffling on or off, also where the state
    /// already says so.
    pub fn set_shuffle(&self, shuffle: bool) -> (outcome: Outcome)
        ensures
            !(outcome is Ignored),
            outcome matches Outcome::Dropped(back) ==> back@ == CommandView::SetShuffle(shuffle),
    {
        self.submit(ControlRequest::SetShuffle(shuffle))
    }

    /// The description of the current track in the shared state:
    /// [`metadata_reply`] of a read.
    pub fn metadata(&self) -> (reply: Result<Metadata, StorePoisoned>)
        ensures
            reply matches Ok(found) ==> exists|guard: MutexGuard<'_, MprisState>|
                found@ == (#[trigger] held_state(guard)).metadata && found.listing()
                    == held_state(guard).entries,
    {
        metadata_reply(read(&self.state))
    }

    /// The volume in the shared state, as the bits of a 64-bit float:
    /// [`volume_reply`] of a read.
    pub fn volume(&self) -> (reply: Result<u64, StorePoisoned>)
        ensures
            reply matches Ok(bits) ==> exists|guard: MutexGuard<'_, MprisState>|
                bits == (#[trigger] held_state(guard)).volume,
    {
        volume_reply(read(&self.state))
    }

    /// Asks the engine to set the volume to the float with the bits `volume`,
    /// which is passed on as it came, whatever its range.
    pub fn set_volume(&self, volume: u64) -> (outcome: Outcome)
        ensures
            !(outcome is Ignored),
            outcome matches Outcome::Dropped(back) ==> back@ == CommandView::SetVolume(volume),
    {
        self.submit(ControlRequest::SetVolume(volume))
    }

    /// The position in the shared state, in microseconds: [`position_reply`]
    /// of a read.
    pub fn position(&self) -> (reply: Result<i64, StorePoisoned>)
        ensures
            reply matches Ok(micros) ==> exists|guard: MutexGuard<'_, MprisState>|
                micros == (#[trigger] held_state(guard)).position,
    {
        position_reply(read(&self.state))
    }

    /// The lowest playback rate, as the bits of a 64-bit float: always 1.0.
    pub fn minimum_rate(&self) -> (rate: u64)
        ensures
            rate == UNIT_RATE,
    {
        UNIT_RATE
    }

    /// The highest playback rate, as the bits of a 64-bit float: always 1.0.
    pub fn maximum_rate(&self) -> (rate: u64)
        ensures
            rate == UNIT_RATE,
    {
        UNIT_RATE
    }

    /// The playback rate, as the bits of a 64-bit float: always 1.0.
    pub fn rate(&self) -> (rate: u64)
        ensures
            rate == UNIT_RATE,
    {
        UNIT_RATE
    }

    /// Accepts a playback rate, as the bits of a 64-bit float, and does
    /// nothing with it: no command is made and the rate stays 1.0.
    pub fn set_rate(&self, rate: u64) -> (outcome: Outcome)
        ensures
            outcome is Ignored,
    {
        self.submit(ControlRequest::SetRate(rate))
    }

    /// Playing can always be asked for, whatever the engine is doing. The
    /// same holds of the five abilities that follow.
    pub fn can_play(&self) -> (able: bool)
        ensures
            able,
    {
        true
    }

    pub fn can_pause(&self) -> (able: bool)
        ensures
            able,
    {
        true
    }

    pub fn can_seek(&self) -> (able: bool)
        ensures
            able,
    {
        true
    }

    pub fn can_control(&self) -> (able: bool)
        ensures
            able,
    {
        true
    }

    pub fn can_go_next(&self) -> (able: bool)
        ensures
            able,
    {
        true
    }

    pub fn can_go_previous(&self) -> (able: bool)
        ensures
            able,
    {
        true
    }
}

} // verus!
