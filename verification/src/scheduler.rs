//! The background worker's decisions.
//!
//! A dedicated worker wakes on a fixed tick, reads the queue under a lock
//! and decides whether to keep waiting, tear the voice session down, or
//! dequeue and dispatch the next request. The decisions are made here; the
//! caller performs the external work each decision names (polling the
//! handle, leaving the channel, decoding, joining, attaching) and commits
//! the outcome back through `pop_next` and `commit_current`.

use vstd::prelude::*;

use crate::queue::{PlayQueue, QueueModel};
use crate::request::{CurrentItem, PlayArgs};

verus! {

/// What one scheduler tick should do, read from the state under a read
/// lock together with the handle's finished flag.
#[derive(Clone, Copy, Debug, PartialEq, Eq, Structural)]
pub enum TickDecision {
    /// The current item is still playing: do nothing this tick.
    Wait,
    /// Nothing is attached and nothing is queued: do nothing this tick.
    Idle,
    /// The current item finished and nothing is queued: clear it with
    /// `clear_finished` and leave the voice channel.
    Teardown,
    /// Something is queued and nothing is still playing: pop the next
    /// request with `pop_next` and dispatch it.
    Dispatch,
}

/// The decision a tick takes on a given state, with `current_finished` the
/// finished flag the caller read from the external handle (meaningful only
/// while something is attached).
pub open spec fn spec_tick_decision(m: QueueModel, current_finished: bool) -> TickDecision {
    if m.current is Some && !current_finished {
        TickDecision::Wait
    } else if m.general.len() == 0 && m.meme.len() == 0 {
        if m.current is Some {
            TickDecision::Teardown
        } else {
            TickDecision::Idle
        }
    } else {
        TickDecision::Dispatch
    }
}

impl PlayQueue {
    /// Read phase of a tick: decide what to do, mutating nothing.
    pub fn tick_decide(&self, current_finished: bool) -> (d: TickDecision)
        ensures
            d == spec_tick_decision(self@, current_finished),
    {
        if self.playing.is_some() && !current_finished {
            TickDecision::Wait
        } else if self.general_queue.len() == 0 && self.meme_queue.len() == 0 {
            if self.playing.is_some() {
                TickDecision::Teardown
            } else {
                TickDecision::Idle
            }
        } else {
            TickDecision::Dispatch
        }
    }

    /// Clear the current item after it was seen finished.
    /// `recheck_finished` is the handle's flag read again under the write
    /// lock, a defensive re-check of what the read phase saw. The state is
    /// force-cleared either way so the worker keeps making progress; `false`
    /// reports the re-check failed — an internal invariant violation the
    /// caller logs at error severity but never surfaces to users.
    pub fn clear_finished(&mut self, recheck_finished: bool) -> (ok: bool)
        ensures
            final(self)@ == (QueueModel { current: None, ..old(self)@ }),
            ok == (old(self)@.current is Some && recheck_finished),
            final(self).wf() == old(self).wf(),
    {
        let ok = self.playing.is_some() && recheck_finished;
        self.playing = None;
        ok
    }

    /// Dequeue the request to dispatch next: the head of the priority
    /// (meme) queue, or of the general queue once the priority queue is
    /// drained. The current item and the volume are untouched.
    pub fn pop_next(&mut self) -> (r: Option<PlayArgs>)
        ensures
            old(self)@.drain_order().len() == 0 ==> r is None && final(self)@ == old(self)@,
            old(self)@.drain_order().len() > 0 ==> {
                &&& r == Some(old(self)@.drain_order()[0])
                &&& final(self)@.drain_order() == old(self)@.drain_order().skip(1)
            },
            final(self)@.current == old(self)@.current,
            final(self)@.volume == old(self)@.volume,
            old(self)@.meme.len() > 0 ==> final(self)@.meme == old(self)@.meme.skip(1)
                && final(self)@.general == old(self)@.general,
            old(self)@.meme.len() == 0 ==> final(self)@.meme == old(self)@.meme
                && (old(self)@.general.len() > 0 ==> final(self)@.general == old(self)@.general.skip(1)),
            final(self).wf() == old(self).wf(),
    {
        let r = if self.meme_queue.len() > 0 {
            self.meme_queue.pop_front()
        } else {
            self.general_queue.pop_front()
        };
        proof {
            if old(self)@.meme.len() > 0 {
                assert(self@.drain_order() =~= old(self)@.drain_order().skip(1));
            } else if old(self)@.general.len() > 0 {
                assert(old(self)@.drain_order() =~= old(self)@.general);
                assert(self@.drain_order() =~= old(self)@.general.skip(1));
            }
        }
        r
    }

    /// Commit a successful dispatch: the decoded request was attached to the
    /// session, so record it as the current item. Returns the stored volume
    /// percentage, which the caller applies to the fresh handle at once so
    /// the handle stays in sync with the state.
    pub fn commit_current(&mut self, item: PlayArgs) -> (vol: u32)
        ensures
            final(self)@ == (QueueModel { current: Some(item), ..old(self)@ }),
            vol == final(self)@.volume,
            final(self).wf() == old(self).wf(),
    {
        self.playing = Some(CurrentItem { init_args: item });
        self.volume
    }
}

} // verus!
