//! The unit of playback work and the record of what is currently playing.

use vstd::prelude::*;

verus! {

/// The payload of a playback request: either a remote media locator that the
/// decoder pipeline resolves and streams, or an in-memory pre-encoded audio
/// buffer that is transcoded from standard input.
#[derive(Clone, Debug, PartialEq)]
pub enum PlaySource {
    Remote { locator: String },
    Buffer { bytes: Vec<u8> },
}

/// One playback unit. Immutable once enqueued. Clip bounds are whole seconds
/// and apply to remote sources only; `sender_channel` identifies where
/// user-facing errors about this item are sent.
#[derive(Clone, Debug, PartialEq)]
pub struct PlayArgs {
    pub data: PlaySource,
    pub initiator: String,
    pub sender_channel: u64,
    pub start: Option<u64>,
    pub end: Option<u64>,
}

/// The request currently attached to the live voice session. The playback
/// handle itself is an external capability owned by the caller; the queue
/// only records which request it belongs to.
#[derive(Clone, Debug, PartialEq)]
pub struct CurrentItem {
    pub init_args: PlayArgs,
}

} // verus!
