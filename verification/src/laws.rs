//! Laws of the queue: what holds over whole sequences of control calls and
//! ticks, not just over one call.

use vstd::prelude::*;

use crate::queue::{apply_op, QueueModel, QueueOp};
use crate::request::PlayArgs;
use crate::scheduler::{spec_tick_decision, TickDecision};

verus! {

/// A whole sequence of control calls applied in order.
pub open spec fn apply_ops(m: QueueModel, ops: Seq<QueueOp>) -> QueueModel
    decreases ops.len(),
{
    if ops.len() == 0 {
        m
    } else {
        apply_op(apply_ops(m, ops.drop_last()), ops.last())
    }
}

/// For any sequence of `Enqueue`/`Skip`/`Stop` calls, at most one current
/// item exists at every instant along the way: the state holds the current
/// item as an option, and no operation can make it more.
pub proof fn lemma_at_most_one_current(m: QueueModel, ops: Seq<QueueOp>)
    ensures
        forall|i: int|
            0 <= i <= ops.len() ==> apply_ops(m, #[trigger] ops.take(i)).current_count() <= 1,
{
}

/// Whether every call in the sequence is an `Enqueue`.
pub open spec fn all_enqueues(ops: Seq<QueueOp>) -> bool {
    forall|i: int| 0 <= i < ops.len() ==> ops[i] is Enqueue
}

/// The requests a call sequence appends to one queue, in call order;
/// `priority` selects the priority (meme) queue or the general one.
pub open spec fn enqueued(ops: Seq<QueueOp>, priority: bool) -> Seq<PlayArgs>
    decreases ops.len(),
{
    if ops.len() == 0 {
        Seq::empty()
    } else {
        let rest = enqueued(ops.drop_last(), priority);
        match ops.last() {
            QueueOp::Enqueue(a, p) => if p == priority {
                rest.push(a)
            } else {
                rest
            },
            _ => rest,
        }
    }
}

/// Enqueues accumulate: however calls to the two queues interleave, each
/// queue ends up holding what it held before followed by exactly the
/// requests enqueued to it, in call order, and nothing else changes.
pub proof fn lemma_enqueue_accumulates(m: QueueModel, ops: Seq<QueueOp>)
    requires
        all_enqueues(ops),
    ensures
        apply_ops(m, ops).meme == m.meme + enqueued(ops, true),
        apply_ops(m, ops).general == m.general + enqueued(ops, false),
        apply_ops(m, ops).current == m.current,
        apply_ops(m, ops).volume == m.volume,
    decreases ops.len(),
{
    if ops.len() == 0 {
        assert(m.meme + enqueued(ops, true) =~= m.meme);
        assert(m.general + enqueued(ops, false) =~= m.general);
    } else {
        assert(all_enqueues(ops.drop_last())) by {
            assert(forall|i: int|
                0 <= i < ops.drop_last().len() ==> ops.drop_last()[i] == ops[i]);
        }
        lemma_enqueue_accumulates(m, ops.drop_last());
        let before = apply_ops(m, ops.drop_last());
        assert(ops.last() is Enqueue);
        match ops.last() {
            QueueOp::Enqueue(a, p) => {
                if p {
                    assert(before.meme.push(a) =~= m.meme + enqueued(ops, true));
                    assert(before.general =~= m.general + enqueued(ops, false));
                } else {
                    assert(before.general.push(a) =~= m.general + enqueued(ops, false));
                    assert(before.meme =~= m.meme + enqueued(ops, true));
                }
            },
            _ => {},
        }
    }
}

/// Dispatch order: whatever the interleaving of enqueues onto an initially
/// empty state, the order in which the scheduler will dispatch is all
/// priority items in enqueue order, then all general items in enqueue
/// order. (`pop_next` consumes `drain_order` strictly head-first.)
pub proof fn lemma_dispatch_order(m: QueueModel, ops: Seq<QueueOp>)
    requires
        all_enqueues(ops),
        m.general.len() == 0,
        m.meme.len() == 0,
    ensures
        apply_ops(m, ops).drain_order() == enqueued(ops, true) + enqueued(ops, false),
{
    lemma_enqueue_accumulates(m, ops);
    assert(apply_ops(m, ops).drain_order() =~= enqueued(ops, true) + enqueued(ops, false));
}

/// Teardown happens at most once: leaving the channel is decided only while
/// an item is attached, and once the state is idle — which is exactly what
/// clearing a finished item with empty queues leaves behind — every later
/// tick decides `Idle`, whatever the caller observes of any handle.
pub proof fn lemma_teardown_idempotent(m: QueueModel)
    ensures
        forall|f: bool|
            spec_tick_decision(m, f) == TickDecision::Teardown ==> m.current is Some,
        m.is_idle() ==> forall|f: bool| spec_tick_decision(m, f) == TickDecision::Idle,
{
}

} // verus!
