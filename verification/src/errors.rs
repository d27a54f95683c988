//! Failures of one playback item.
//!
//! Every failure here is local to the item it struck: the item is dropped,
//! the user who asked for it is notified, and the scheduler keeps going.

use vstd::prelude::*;

verus! {

/// Why one playback item could not be dispatched.
#[derive(Clone, Copy, Debug, PartialEq, Eq, Structural)]
pub enum PlaybackError {
    /// The remote locator could not be resolved to a streamable URL.
    Resolution,
    /// The decode or transcode process could not be run.
    Transcode,
    /// Joining the destination voice channel failed.
    Connection,
}

impl PlaybackError {
    /// The text sent to the channel the failed request came from.
    pub fn message(&self) -> (r: &'static str)
        ensures
            *self is Resolution ==> r@ == "what the fuck"@,
            *self is Transcode ==> r@ == "unable to call ffmpeg"@,
            *self is Connection ==> r@ == "something happened somewhere somehow."@,
    {
        match self {
            PlaybackError::Resolution => "what the fuck",
            PlaybackError::Transcode => "unable to call ffmpeg",
            PlaybackError::Connection => "something happened somewhere somehow.",
        }
    }
}

} // verus!
