//! Shared playback state and the control surface that command handlers call.
//!
//! `PlayQueue` owns two FIFO queues of requests, the currently playing item
//! and the volume. Exactly one writer at a time mutates it (the caller keeps
//! it behind a lock); every operation here is a plain state transition, and
//! the external playback handle is toggled by the caller according to what
//! these operations return.

use vstd::prelude::*;

use crate::request::{CurrentItem, PlayArgs};

verus! {

/// Volume is kept as a whole-number percentage of the baseline multiplier,
/// so the baseline itself is one hundred percent.
pub const BASELINE_VOLUME_PERCENT: u32 = 100;

/// Every set of the volume clamps to this configured maximum.
pub const MAX_VOLUME_PERCENT: u32 = 300;

/// What a requested percentage becomes once clamped to
/// `[0, MAX_VOLUME_PERCENT]`.
pub open spec fn spec_clamp_volume(pct: int) -> u32 {
    if pct < 0 {
        0u32
    } else if pct > MAX_VOLUME_PERCENT {
        MAX_VOLUME_PERCENT
    } else {
        pct as u32
    }
}

/// An invalid control request, rejected synchronously to the caller without
/// touching any state.
#[derive(Clone, Copy, Debug, PartialEq, Eq, Structural)]
pub enum UserError {
    /// Pause or resume was asked for while nothing is attached.
    NothingPlaying,
    /// The handle is already in the state the caller asked for.
    AlreadyInState,
}

impl UserError {
    /// The user-facing text for a rejected control request.
    pub fn message(&self) -> (r: &'static str)
        ensures
            r@ == "r u srs"@,
    {
        match self {
            UserError::NothingPlaying => "r u srs",
            UserError::AlreadyInState => "r u srs",
        }
    }
}

/// The mathematical value of a `PlayQueue`: the two queues and the current
/// item as sequences and an option over plain requests.
pub ghost struct QueueModel {
    pub general: Seq<PlayArgs>,
    pub meme: Seq<PlayArgs>,
    pub current: Option<PlayArgs>,
    pub volume: u32,
}

impl QueueModel {
    /// How many items are attached to the voice session: never more than one,
    /// by construction.
    pub open spec fn current_count(self) -> int {
        if self.current is Some {
            1
        } else {
            0
        }
    }

    /// Both queues drained and nothing attached.
    pub open spec fn is_idle(self) -> bool {
        self.current is None && self.general.len() == 0 && self.meme.len() == 0
    }

    /// The order in which queued items will be dispatched: the priority
    /// (meme) queue is fully drained before the general backlog.
    pub open spec fn drain_order(self) -> Seq<PlayArgs> {
        self.meme + self.general
    }
}

/// One call against the control surface, as a value, so that laws can speak
/// about arbitrary sequences of calls.
pub enum QueueOp {
    /// Append a request; `true` picks the priority (meme) queue.
    Enqueue(PlayArgs, bool),
    /// Force-stop and clear the current item, leaving the queues alone.
    Skip,
    /// Clear everything: both queues and the current item.
    Stop,
}

/// The state transition each control operation performs.
pub open spec fn apply_op(m: QueueModel, op: QueueOp) -> QueueModel {
    match op {
        QueueOp::Enqueue(args, priority) => {
            if priority {
                QueueModel { meme: m.meme.push(args), ..m }
            } else {
                QueueModel { general: m.general.push(args), ..m }
            }
        },
        QueueOp::Skip => QueueModel { current: None, ..m },
        QueueOp::Stop => QueueModel {
            general: Seq::empty(),
            meme: Seq::empty(),
            current: None,
            ..m
        },
    }
}

/// The shared, lock-protected playback state: two FIFO request queues, the
/// currently playing item if any, and the volume percentage.
#[derive(Clone, Debug, PartialEq)]
pub struct PlayQueue {
    pub general_queue: std::collections::VecDeque<PlayArgs>,
    pub meme_queue: std::collections::VecDeque<PlayArgs>,
    pub playing: Option<CurrentItem>,
    pub volume: u32,
}

impl View for PlayQueue {
    type V = QueueModel;

    open spec fn view(&self) -> QueueModel {
        QueueModel {
            general: self.general_queue@,
            meme: self.meme_queue@,
            current: match self.playing {
                Some(c) => Some(c.init_args),
                None => None,
            },
            volume: self.volume,
        }
    }
}

impl PlayQueue {
    /// The volume percentage never escapes its clamped range.
    pub open spec fn wf(&self) -> bool {
        self.volume <= MAX_VOLUME_PERCENT
    }

    /// A fresh queue: nothing queued, nothing playing, baseline volume.
    pub fn new() -> (q: Self)
        ensures
            q@.is_idle(),
            q@.general.len() == 0,
            q@.meme.len() == 0,
            q@.current is None,
            q@.volume == BASELINE_VOLUME_PERCENT,
            q.wf(),
    {
        PlayQueue {
            general_queue: std::collections::VecDeque::new(),
            meme_queue: std::collections::VecDeque::new(),
            playing: None,
            volume: BASELINE_VOLUME_PERCENT,
        }
    }

    /// Append a request to the chosen queue. Always succeeds; the next
    /// scheduler tick sees the request.
    pub fn enqueue(&mut self, args: PlayArgs, priority: bool)
        ensures
            final(self)@ == apply_op(old(self)@, QueueOp::Enqueue(args, priority)),
            final(self).wf() == old(self).wf(),
    {
        if priority {
            self.meme_queue.push_back(args);
        } else {
            self.general_queue.push_back(args);
        }
    }

    /// Clear the current item so the next tick dequeues the following one.
    /// The queues are untouched. Returns whether something was attached, so
    /// the caller knows to force-stop the external handle; `false` means the
    /// no-op is reported to the user instead.
    pub fn skip(&mut self) -> (had: bool)
        ensures
            final(self)@ == apply_op(old(self)@, QueueOp::Skip),
            had == (old(self)@.current is Some),
            final(self).wf() == old(self).wf(),
    {
        let had = self.playing.is_some();
        self.playing = None;
        had
    }

    /// Clear both queues and the current item. Always succeeds. Returns
    /// whether something was attached: the caller force-stops the handle and
    /// leaves the channel when it was, and reports that there was nothing to
    /// stop when it was not.
    pub fn stop(&mut self) -> (had: bool)
        ensures
            final(self)@ == apply_op(old(self)@, QueueOp::Stop),
            had == (old(self)@.current is Some),
            final(self).wf() == old(self).wf(),
    {
        let had = self.playing.is_some();
        self.playing = None;
        self.general_queue.clear();
        self.meme_queue.clear();
        had
    }

    /// Whether something is attached to the voice session right now: `true`
    /// means a caller wanting to interject ambient audio must not.
    pub fn currently_playing(&self) -> (r: bool)
        ensures
            r == (self@.current is Some),
    {
        self.playing.is_some()
    }

    /// Decide a pause request. `handle_playing` is what the external handle
    /// reported under the same lock. `Ok` tells the caller to pause the
    /// handle; either error is returned synchronously and no state anywhere
    /// has changed. The queue itself is never written by a pause.
    pub fn pause(&self, handle_playing: bool) -> (r: Result<(), UserError>)
        ensures
            r matches Err(e) ==> e == (if self@.current is None {
                UserError::NothingPlaying
            } else {
                UserError::AlreadyInState
            }),
            r is Ok <==> self@.current is Some && handle_playing,
    {
        if self.playing.is_none() {
            Err(UserError::NothingPlaying)
        } else if !handle_playing {
            Err(UserError::AlreadyInState)
        } else {
            Ok(())
        }
    }

    /// Decide a resume request, the mirror of `pause`: `Ok` only when
    /// something is attached and the handle is not already playing.
    pub fn resume(&self, handle_playing: bool) -> (r: Result<(), UserError>)
        ensures
            r matches Err(e) ==> e == (if self@.current is None {
                UserError::NothingPlaying
            } else {
                UserError::AlreadyInState
            }),
            r is Ok <==> self@.current is Some && !handle_playing,
    {
        if self.playing.is_none() {
            Err(UserError::NothingPlaying)
        } else if handle_playing {
            Err(UserError::AlreadyInState)
        } else {
            Ok(())
        }
    }

    /// Store a requested volume percentage, silently clamped to
    /// `[0, MAX_VOLUME_PERCENT]`. Returns the effective percentage (the
    /// caller applies it to the live handle when something is attached) and
    /// whether the request exceeded the maximum, which the caller reports.
    pub fn set_volume(&mut self, pct: i64) -> (r: (u32, bool))
        ensures
            final(self)@ == (QueueModel { volume: spec_clamp_volume(pct as int), ..old(self)@ }),
            r.0 == final(self)@.volume,
            r.1 == (pct > MAX_VOLUME_PERCENT as int),
            final(self).wf(),
    {
        let clamped = pct > MAX_VOLUME_PERCENT as i64;
        let vol = if pct < 0 {
            0
        } else if clamped {
            MAX_VOLUME_PERCENT
        } else {
            pct as u32
        };
        self.volume = vol;
        (vol, clamped)
    }

    /// The stored volume as the percentage the user sees.
    pub fn volume_percent(&self) -> (r: u32)
        ensures
            r == self@.volume,
    {
        self.volume
    }
}

} // verus!
