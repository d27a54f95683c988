//! Rendering the queue for the `list` command.
//!
//! A pure read: the current item with its playing/paused status and a
//! human label per source kind, followed by the priority queue and then
//! the general queue, each entry rendered the same way. The caller sends
//! the lines to the asking channel.

use vstd::prelude::*;

use crate::queue::{PlayQueue, QueueModel};
use crate::request::{PlayArgs, PlaySource};

verus! {

/// The line describing the item attached to the session.
pub open spec fn spec_current_line(a: PlayArgs, handle_playing: bool) -> Seq<char> {
    "Currently "@ + (if handle_playing {
        "playing"@
    } else {
        "paused:"@
    }) + " "@ + (match a.data {
        PlaySource::Remote { locator } => " `"@ + locator@ + "`"@,
        PlaySource::Buffer { .. } => "memeing"@,
    }) + " ("@ + a.initiator@ + ")"@
}

/// The line describing one queued item.
pub open spec fn spec_queued_line(a: PlayArgs) -> Seq<char> {
    (match a.data {
        PlaySource::Remote { locator } => "`"@ + locator@ + "`"@,
        PlaySource::Buffer { .. } => "meme"@,
    }) + " ("@ + a.initiator@ + ")"@
}

/// Everything `list` reports: with nothing attached only a shrug, else the
/// current item followed by both queues in dispatch order.
pub open spec fn spec_list_lines(m: QueueModel, handle_playing: bool) -> Seq<Seq<char>> {
    match m.current {
        None => seq!["Nothing is playing you meme"@],
        Some(a) => seq![spec_current_line(a, handle_playing)] + m.meme.map_values(
            |q: PlayArgs| spec_queued_line(q),
        ) + m.general.map_values(|q: PlayArgs| spec_queued_line(q)),
    }
}

fn queued_line(a: &PlayArgs) -> (r: String)
    ensures
        r@ == spec_queued_line(*a),
{
    let mut s = String::new();
    match &a.data {
        PlaySource::Remote { locator } => {
            s.append("`");
            s.append(locator.as_str());
            s.append("`");
        },
        PlaySource::Buffer { .. } => {
            s.append("meme");
        },
    }
    s.append(" (");
    s.append(a.initiator.as_str());
    s.append(")");
    proof {
        assert(s@ =~= spec_queued_line(*a));
    }
    s
}

fn current_line(a: &PlayArgs, handle_playing: bool) -> (r: String)
    ensures
        r@ == spec_current_line(*a, handle_playing),
{
    let mut s = String::new();
    s.append("Currently ");
    if handle_playing {
        s.append("playing");
    } else {
        s.append("paused:");
    }
    s.append(" ");
    match &a.data {
        PlaySource::Remote { locator } => {
            s.append(" `");
            s.append(locator.as_str());
            s.append("`");
        },
        PlaySource::Buffer { .. } => {
            s.append("memeing");
        },
    }
    s.append(" (");
    s.append(a.initiator.as_str());
    s.append(")");
    proof {
        assert(s@ =~= spec_current_line(*a, handle_playing));
    }
    s
}

impl PlayQueue {
    /// Render the whole state, the current item first; `handle_playing` is
    /// what the external handle reports while something is attached.
    pub fn list_lines(&self, handle_playing: bool) -> (r: Vec<String>)
        ensures
            r@.map_values(|s: String| s@) == spec_list_lines(self@, handle_playing),
    {
        let mut out: Vec<String> = Vec::new();
        match &self.playing {
            None => {
                out.push("Nothing is playing you meme".to_owned());
                proof {
                    assert(out@.map_values(|s: String| s@) =~= spec_list_lines(
                        self@,
                        handle_playing,
                    ));
                }
                return out;
            },
            Some(c) => {
                out.push(current_line(&c.init_args, handle_playing));
            },
        }
        let mut i: usize = 0;
        while i < self.meme_queue.len()
            invariant
                i <= self.meme_queue@.len(),
                self@.current is Some,
                out@.len() == 1 + i,
                out@[0]@ == spec_current_line(self@.current.unwrap(), handle_playing),
                forall|t: int|
                    0 <= t < i ==> #[trigger] out@[1 + t]@ == spec_queued_line(self@.meme[t]),
            decreases self.meme_queue@.len() - i,
        {
            out.push(queued_line(&self.meme_queue[i]));
            i = i + 1;
        }
        let mut j: usize = 0;
        while j < self.general_queue.len()
            invariant
                j <= self.general_queue@.len(),
                self@.current is Some,
                out@.len() == 1 + self@.meme.len() + j,
                out@[0]@ == spec_current_line(self@.current.unwrap(), handle_playing),
                forall|t: int|
                    0 <= t < self@.meme.len() ==> #[trigger] out@[1 + t]@ == spec_queued_line(
                        self@.meme[t],
                    ),
                forall|t: int|
                    0 <= t < j ==> #[trigger] out@[1 + self@.meme.len() + t]@ == spec_queued_line(
                        self@.general[t],
                    ),
            decreases self.general_queue@.len() - j,
        {
            out.push(queued_line(&self.general_queue[j]));
            j = j + 1;
        }
        proof {
            let m = out@.map_values(|s: String| s@);
            let target = spec_list_lines(self@, handle_playing);
            assert forall|t: int| 0 <= t < m.len() implies m[t] == target[t] by {
                if t >= 1 + self@.meme.len() {
                    let u = t - 1 - self@.meme.len();
                    assert(out@[1 + self@.meme.len() + u]@ == spec_queued_line(self@.general[u]));
                } else if t >= 1 {
                    let u = t - 1;
                    assert(out@[1 + u]@ == spec_queued_line(self@.meme[u]));
                }
            }
            assert(m =~= target);
        }
        out
    }
}

} // verus!
