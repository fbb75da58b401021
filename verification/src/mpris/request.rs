//! The requests by which the session changes the player, and the command that
//! each of them becomes for the engine.

use crate::mpris::command::{CommandView, MprisCommand};
use vstd::prelude::*;

verus! {

/// One request to change the player, as it comes in over the control
/// interface: a method call or the setting of a property.
///
/// `SetVolume` and `SetRate` hold their number as the bit pattern of a 64-bit
/// float (`f64::to_bits`).
#[derive(Debug)]
pub enum ControlRequest {
    Play,
    Pause,
    PlayPause,
    Next,
    Previous,
    Stop,
    /// Move by this many microseconds.
    Seek(i64),
    /// Move to this position, in microseconds from the start.
    SetPosition(i64),
    /// Open what this URI names. Accepted, and nothing is done.
    OpenUri(String),
    SetLoopStatus(String),
    SetShuffle(bool),
    SetVolume(u64),
    /// Set the playback rate. Accepted, and nothing is done: the rate is
    /// fixed.
    SetRate(u64),
}

/// A request as the contracts see it.
pub enum RequestView {
    Play,
    Pause,
    PlayPause,
    Next,
    Previous,
    Stop,
    Seek(i64),
    SetPosition(i64),
    OpenUri(Seq<char>),
    SetLoopStatus(Seq<char>),
    SetShuffle(bool),
    SetVolume(u64),
    SetRate(u64),
}

impl RequestView {
    /// The command that the request becomes. Opening a URI and setting the
    /// rate become none; every other request becomes the command of its own
    /// kind, with its argument unchanged.
    pub open spec fn command(self) -> Option<CommandView> {
        match self {
            RequestView::Play => Some(CommandView::Play),
            RequestView::Pause => Some(CommandView::Pause),
            RequestView::PlayPause => Some(CommandView::PlayPause),
            RequestView::Next => Some(CommandView::Next),
            RequestView::Previous => Some(CommandView::Previous),
            RequestView::Stop => Some(CommandView::Stop),
            RequestView::Seek(offset) => Some(CommandView::Seek(offset)),
            RequestView::SetPosition(position) => Some(CommandView::SetPosition(position)),
            RequestView::OpenUri(_) => None,
            RequestView::SetLoopStatus(status) => Some(CommandView::SetLoopStatus(status)),
            RequestView::SetShuffle(on) => Some(CommandView::SetShuffle(on)),
            RequestView::SetVolume(bits) => Some(CommandView::SetVolume(bits)),
            RequestView::SetRate(_) => None,
        }
    }

    /// Whether the request asks something of the engine.
    pub open spec fn is_mutation(self) -> bool {
        self.command() is Some
    }
}

impl View for ControlRequest {
    type V = RequestView;

    open spec fn view(&self) -> RequestView {
        match self {
            ControlRequest::Play => RequestView::Play,
            ControlRequest::Pause => RequestView::Pause,
            ControlRequest::PlayPause => RequestView::PlayPause,
            ControlRequest::Next => RequestView::Next,
            ControlRequest::Previous => RequestView::Previous,
            ControlRequest::Stop => RequestView::Stop,
            ControlRequest::Seek(offset) => RequestView::Seek(*offset),
            ControlRequest::SetPosition(position) => RequestView::SetPosition(*position),
            ControlRequest::OpenUri(uri) => RequestView::OpenUri(uri@),
            ControlRequest::SetLoopStatus(status) => RequestView::SetLoopStatus(status@),
            ControlRequest::SetShuffle(on) => RequestView::SetShuffle(*on),
            ControlRequest::SetVolume(bits) => RequestView::SetVolume(*bits),
            ControlRequest::SetRate(bits) => RequestView::SetRate(*bits),
        }
    }
}

impl ControlRequest {
    /// The command for the engine that this request becomes, if it becomes
    /// one.
    pub fn into_command(self) -> (command: Option<MprisCommand>)
        ensures
            match command {
                Some(made) => self@.command() == Some(made@),
                None => self@.command() is None,
            },
    {
        match self {
            ControlRequest::Play => Some(MprisCommand::Play),
            ControlRequest::Pause => Some(MprisCommand::Pause),
            ControlRequest::PlayPause => Some(MprisCommand::PlayPause),
            ControlRequest::Next => Some(MprisCommand::Next),
            ControlRequest::Previous => Some(MprisCommand::Previous),
            ControlRequest::Stop => Some(MprisCommand::Stop),
            ControlRequest::Seek(offset) => Some(MprisCommand::Seek(offset)),
            ControlRequest::SetPosition(position) => Some(MprisCommand::SetPosition(position)),
            ControlRequest::OpenUri(_) => None,
            ControlRequest::SetLoopStatus(status) => Some(MprisCommand::SetLoopStatus(status)),
            ControlRequest::SetShuffle(on) => Some(MprisCommand::SetShuffle(on)),
            ControlRequest::SetVolume(bits) => Some(MprisCommand::SetVolume(bits)),
            ControlRequest::SetRate(_) => None,
        }
    }
}

/// The commands that a run of requests becomes, in the order of the requests:
/// each request adds its command, if it has one, behind those of the requests
/// before it.
pub open spec fn commands_of(requests: Seq<RequestView>) -> Seq<CommandView>
    decreases requests.len(),
{
    if requests.len() == 0 {
        Seq::empty()
    } else {
        let before = commands_of(requests.drop_last());
        match requests.last().command() {
            Some(command) => before.push(command),
            None => before,
        }
    }
}

/// A run of requests that all ask something of the engine becomes exactly as
/// many commands, and the command at each place is that of the request at the
/// same place: none is left out, none comes twice, none changes place.
pub proof fn lemma_one_command_each_in_order(requests: Seq<RequestView>)
    requires
        forall|i: int| 0 <= i < requests.len() ==> requests[i].is_mutation(),
    ensures
        commands_of(requests).len() == requests.len(),
        forall|i: int|
            0 <= i < requests.len() ==> requests[i].command() == Some(commands_of(requests)[i]),
    decreases requests.len(),
{
    if requests.len() > 0 {
        let front = requests.drop_last();
        lemma_one_command_each_in_order(front);
        assert forall|i: int| 0 <= i < requests.len() implies requests[i].command() == Some(
            commands_of(requests)[i],
        ) by {
            if i < front.len() {
                assert(front[i] == requests[i]);
            }
        }
    }
}

/// The commands of two runs, one after the other, are the commands of the
/// first followed by those of the second: what comes later never gets in
/// front of what came before.
pub proof fn lemma_later_requests_come_behind(first: Seq<RequestView>, second: Seq<RequestView>)
    ensures
        commands_of(first + second) == commands_of(first) + commands_of(second),
    decreases second.len(),
{
    if second.len() > 0 {
        let shorter = second.drop_last();
        lemma_later_requests_come_behind(first, shorter);
        assert((first + second).drop_last() =~= first + shorter);
    }
}

/// The requests of a run that ask something of the engine, in their order.
pub open spec fn mutations_in(requests: Seq<RequestView>) -> Seq<RequestView> {
    requests.filter(|request: RequestView| request.is_mutation())
}

/// Requests that ask nothing of the engine add no command: a run of requests
/// becomes the commands of those among them that ask something, and of no
/// others.
pub proof fn lemma_no_command_without_mutation(requests: Seq<RequestView>)
    ensures
        commands_of(requests) == commands_of(mutations_in(requests)),
        commands_of(requests).len() == mutations_in(requests).len(),
    decreases requests.len(),
{
    reveal(Seq::filter);
    if requests.len() > 0 {
        let front = requests.drop_last();
        lemma_no_command_without_mutation(front);
        if requests.last().is_mutation() {
            assert(mutations_in(requests).drop_last() =~= mutations_in(front));
        }
    }
}

} // verus!
