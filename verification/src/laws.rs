//! The ordering and halting guarantees of the actor, proved over the
//! sequential model of [`crate::model`].

use vstd::prelude::*;
use vstd::seq_lib::*;

use crate::actor::is_terminal;
use crate::actor::TaskOutcome;
use crate::model::ActorView;
use crate::model::Task;

verus! {

/// The labels of the work a queue segment carries, in queue order. A stop
/// request carries no work.
pub open spec fn work_ids(q: Seq<Task>) -> Seq<u64>
    decreases q.len(),
{
    if q.len() == 0 {
        Seq::empty()
    } else if q[0].outcome is StopRequested {
        work_ids(q.drop_first())
    } else {
        seq![q[0].id] + work_ids(q.drop_first())
    }
}

/// First-in, first-out: however long the worker runs, the work it has run is
/// an in-order prefix of the work accepted so far — the record already made,
/// followed by the work still queued. No accepted task is reordered,
/// duplicated or invented; tasks are only ever dropped from the tail, when a
/// failure or a stop halts the worker first.
pub proof fn lemma_fifo(v: ActorView)
    ensures
        v.run().executed.is_prefix_of(v.executed + work_ids(v.queue)),
    decreases v.queue.len(),
{
    if v.halted() || v.queue.len() == 0 {
        assert(v.executed =~= (v.executed + work_ids(v.queue)).subrange(
            0,
            v.executed.len() as int,
        ));
    } else {
        let w = v.step();
        let t = v.queue[0];
        lemma_fifo(w);
        assert(v.queue.drop_first() == w.queue);
        if t.outcome is StopRequested {
            assert(w.executed + work_ids(w.queue) =~= v.executed + work_ids(v.queue));
        } else {
            assert(work_ids(v.queue) == seq![t.id] + work_ids(w.queue));
            assert(w.executed + work_ids(w.queue) =~= v.executed + work_ids(v.queue));
        }
    }
}

/// Terminal monotonicity: once the actor has reached `Stopped` or `Error`,
/// the worker changes nothing further — neither the state, nor the stored
/// reason, nor the record of work run.
pub proof fn lemma_terminal_monotonic(v: ActorView)
    requires
        is_terminal(v.core.state),
    ensures
        v.step() == v,
        v.run() == v,
{
}

/// A stop drains the queue first: with succeeding work queued ahead of a stop
/// request, the worker runs exactly that work, in order, then stops with the
/// default reason. Whatever was queued behind the stop request never runs.
pub proof fn lemma_stop_drains(v: ActorView, pre: Seq<Task>, s: Task, post: Seq<Task>)
    requires
        v.wf(),
        v.core.state is Running,
        v.queue == pre + seq![s] + post,
        s.outcome is StopRequested,
        forall|i: int| 0 <= i < pre.len() ==> (#[trigger] pre[i].outcome) is Success,
    ensures
        v.run().core.state is Stopped,
        v.run().core.message == Some("Actor stopped"@),
        v.run().executed == v.executed + pre.map_values(|t: Task| t.id),
    decreases pre.len(),
{
    let ids = |t: Task| t.id;
    let w = v.step();
    if pre.len() == 0 {
        assert(v.queue[0] == s);
        assert(w.halted());
        assert(v.run() == w);
        assert(v.executed + pre.map_values(ids) =~= v.executed);
    } else {
        assert(v.queue[0] == pre[0]);
        assert(w.queue =~= pre.drop_first() + seq![s] + post);
        assert(forall|i: int|
            0 <= i < pre.drop_first().len() ==> (#[trigger] pre.drop_first()[i].outcome)
                is Success);
        lemma_stop_drains(w, pre.drop_first(), s, post);
        assert(v.run() == w.run());
        assert(w.executed + pre.drop_first().map_values(ids) =~= v.executed + pre.map_values(
            ids,
        ));
    }
}

/// A failure halts the actor: with succeeding work queued ahead of a failing
/// task, the worker runs exactly that work and the failing task, transitions
/// to `Error` carrying the failure's reason, and runs nothing that was queued
/// behind the failure.
pub proof fn lemma_error_halts(v: ActorView, pre: Seq<Task>, t: Task, post: Seq<Task>)
    requires
        v.wf(),
        v.core.state is Running,
        v.queue == pre + seq![t] + post,
        t.outcome is Failure,
        forall|i: int| 0 <= i < pre.len() ==> (#[trigger] pre[i].outcome) is Success,
    ensures
        v.run().core.state is Error,
        v.run().core.message == Some((t.outcome->Failure_0)@),
        v.run().executed == v.executed + pre.map_values(|x: Task| x.id).push(t.id),
    decreases pre.len(),
{
    let ids = |x: Task| x.id;
    let w = v.step();
    if pre.len() == 0 {
        assert(v.queue[0] == t);
        assert(w.halted());
        assert(v.run() == w);
        assert(v.executed + pre.map_values(ids).push(t.id) =~= v.executed.push(t.id));
    } else {
        assert(v.queue[0] == pre[0]);
        assert(w.queue =~= pre.drop_first() + seq![t] + post);
        assert(forall|i: int|
            0 <= i < pre.drop_first().len() ==> (#[trigger] pre.drop_first()[i].outcome)
                is Success);
        lemma_error_halts(w, pre.drop_first(), t, post);
        assert(v.run() == w.run());
        assert(w.executed + pre.drop_first().map_values(ids).push(t.id) =~= v.executed
            + pre.map_values(ids).push(t.id));
    }
}

} // verus!
