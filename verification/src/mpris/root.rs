//! The application as the session addresses it: a fixed descriptor.

use vstd::prelude::*;

verus! {

/// The name under which the player presents itself.
pub open spec fn identity_text() -> Seq<char> {
    "Ethereal Waves"@
}

/// The identifier of the player's desktop entry.
pub open spec fn desktop_entry_text() -> Seq<char> {
    "com.github.LotusPetal392.ethereal-waves"@
}

/// The URI schemes that the player opens.
pub open spec fn uri_schemes() -> Seq<Seq<char>> {
    seq!["file"@]
}

/// The media types that the player plays, in the order in which they are
/// reported.
pub open spec fn mime_types() -> Seq<Seq<char>> {
    seq![
        "audio/mpeg"@,
        "audio/mp4"@,
        "audio/ogg"@,
        "audio/opus"@,
        "audio/flac"@,
        "audio/wav"@,
    ]
}

/// The texts of a list of string slices, in order.
pub open spec fn texts(list: Seq<&'static str>) -> Seq<Seq<char>> {
    list.map_values(|item: &'static str| item@)
}

/// The application's side of the control interface. It holds nothing: every
/// answer is fixed.
pub struct MediaPlayer2;

impl MediaPlayer2 {
    /// Bringing the window to the front is not offered: nothing happens.
    pub fn raise(&self) {
    }

    /// Quitting on request is not offered: nothing happens.
    pub fn quit(&self) {
    }

    /// The player cannot be asked to quit.
    pub fn can_quit(&self) -> (able: bool)
        ensures
            !able,
    {
        false
    }

    /// The player cannot be asked to raise its window.
    pub fn can_raise(&self) -> (able: bool)
        ensures
            !able,
    {
        false
    }

    /// The player exposes no track list.
    pub fn has_track_list(&self) -> (listed: bool)
        ensures
            !listed,
    {
        false
    }

    /// The name under which the player presents itself.
    pub fn identity(&self) -> (text: &'static str)
        ensures
            text@ == identity_text(),
    {
        "Ethereal Waves"
    }

    /// The identifier of the player's desktop entry.
    pub fn desktop_entry(&self) -> (text: &'static str)
        ensures
            text@ == desktop_entry_text(),
    {
        "com.github.LotusPetal392.ethereal-waves"
    }

    /// The URI schemes that the player opens: `file` alone.
    pub fn supported_uri_schemes(&self) -> (schemes: Vec<&'static str>)
        ensures
            texts(schemes@) == uri_schemes(),
    {
        vec!["file"]
    }

    /// The media types that the player plays: the same six on every call, in
    /// the same order.
    pub fn supported_mime_types(&self) -> (types: Vec<&'static str>)
        ensures
            texts(types@) == mime_types(),
    {
        vec!["audio/mpeg", "audio/mp4", "audio/ogg", "audio/opus", "audio/flac", "audio/wav"]
    }
}

} // verus!
