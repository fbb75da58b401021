//! The answers to the session's questions about the player, each from what a
//! read of the shared state gave: one field of the copy, as it stands there,
//! or the store's error.

use crate::mpris::metadata::Metadata;
use crate::mpris::state::MprisState;
use crate::mpris::store::StorePoisoned;
use vstd::prelude::*;

verus! {

/// The name of the playback status in the copy, unchanged.
pub fn playback_status_reply(
    snapshot: Result<MprisState, StorePoisoned>,
) -> (reply: Result<String, StorePoisoned>)
    ensures
        match snapshot {
            Ok(state) => reply matches Ok(text) && text@ == state.playback_status.name(),
            Err(_) => reply is Err,
        },
{
    match snapshot {
        Ok(state) => Ok(state.status_text()),
        Err(poisoned) => Err(poisoned),
    }
}

/// The loop mode in the copy, as it stands there.
pub fn loop_status_reply(
    snapshot: Result<MprisState, StorePoisoned>,
) -> (reply: Result<String, StorePoisoned>)
    ensures
        match snapshot {
            Ok(state) => reply matches Ok(text) && text@ == state.loop_status@,
            Err(_) => reply is Err,
        },
{
    match snapshot {
        Ok(state) => Ok(state.loop_status),
        Err(poisoned) => Err(poisoned),
    }
}

/// Whether the copy says that tracks are shuffled.
pub fn shuffle_reply(
    snapshot: Result<MprisState, StorePoisoned>,
) -> (reply: Result<bool, StorePoisoned>)
    ensures
        match snapshot {
            Ok(state) => reply == Ok::<bool, StorePoisoned>(state.shuffle),
            Err(_) => reply is Err,
        },
{
    match snapshot {
        Ok(state) => Ok(state.shuffle),
        Err(poisoned) => Err(poisoned),
    }
}

/// The track's description in the copy: the same names with the same values,
/// in the same order.
pub fn metadata_reply(
    snapshot: Result<MprisState, StorePoisoned>,
) -> (reply: Result<Metadata, StorePoisoned>)
    ensures
        match snapshot {
            Ok(state) => reply matches Ok(found) && found@ == state.metadata@ && found.listing()
                == state.metadata.listing(),
            Err(_) => reply is Err,
        },
{
    match snapshot {
        Ok(state) => Ok(state.metadata),
        Err(poisoned) => Err(poisoned),
    }
}

/// The volume in the copy, as the bits of a 64-bit float.
pub fn volume_reply(
    snapshot: Result<MprisState, StorePoisoned>,
) -> (reply: Result<u64, StorePoisoned>)
    ensures
        match snapshot {
            Ok(state) => reply == Ok::<u64, StorePoisoned>(state.volume),
            Err(_) => reply is Err,
        },
{
    match snapshot {
        Ok(state) => Ok(state.volume),
        Err(poisoned) => Err(poisoned),
    }
}

/// The position in the copy, in microseconds.
pub fn position_reply(
    snapshot: Result<MprisState, StorePoisoned>,
) -> (reply: Result<i64, StorePoisoned>)
    ensures
        match snapshot {
            Ok(state) => reply == Ok::<i64, StorePoisoned>(state.position),
            Err(_) => reply is Err,
        },
{
    match snapshot {
        Ok(state) => Ok(state.position),
        Err(poisoned) => Err(poisoned),
    }
}

} // verus!
