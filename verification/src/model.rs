//! A sequential model of a whole actor: state cell, task queue and worker.
//!
//! The live actor runs its worker in a background execution context, so queue,
//! worker and submitters interleave. Because the queue is the only channel
//! between them and the worker consumes it strictly one task at a time, every
//! interleaving is equivalent to a sequence of the atomic steps modelled here:
//! a submission ([`ActorModel::send`], [`ActorModel::stop`]) or one worker
//! iteration ([`ActorModel::run_one`]). The model makes those steps explicit
//! and verifiable, and [`crate::laws`] proves the ordering and halting
//! guarantees over them.
//!
//! A queued task is abstracted by [`Task`]: the label `id` stands for the
//! task's side effects (recorded in arrival order when the task runs) and
//! `outcome` for what the task reports back to the worker. The live queue is
//! bounded, but the bound only makes submitters wait for space; it never
//! changes which tasks run or in what order, so the model queue is unbounded.

use vstd::prelude::*;
use vstd::seq_lib::*;

use crate::actor::ActorCore;
use crate::actor::ActorState;
use crate::actor::CoreView;
use crate::actor::SendError;
use crate::actor::TaskOutcome;
use crate::actor::is_terminal;

verus! {

/// A queued unit of work, abstracted by a label for its side effects and the
/// outcome it reports to the worker.
#[derive(Clone, Debug, PartialEq, Eq)]
pub struct Task {
    pub id: u64,
    pub outcome: TaskOutcome,
}

/// The sentinel that [`ActorModel::stop`] queues: a task whose only effect is
/// to request the graceful stop.
pub open spec fn stop_task() -> Task {
    Task { id: 0, outcome: TaskOutcome::StopRequested }
}

/// The mathematical value of an [`ActorModel`].
#[verifier::ext_equal]
pub struct ActorView {
    /// The shared state cell: health signal and stored reason.
    pub core: CoreView,
    /// The pending tasks, oldest first.
    pub queue: Seq<Task>,
    /// The labels of the work the worker has run, in execution order. A stop
    /// request carries no work, so running one records nothing here.
    pub executed: Seq<u64>,
}

impl ActorView {
    pub open spec fn wf(self) -> bool {
        self.core.wf()
    }

    /// The worker has exited: it exits exactly when a terminal transition
    /// occurs, and performs no further dequeues afterwards.
    pub open spec fn halted(self) -> bool {
        is_terminal(self.core.state)
    }

    /// One iteration of the worker loop. A halted worker, or one facing an
    /// empty queue, changes nothing; otherwise the oldest queued task runs:
    /// its work is recorded and its outcome drives the state transition.
    pub open spec fn step(self) -> ActorView {
        if self.halted() || self.queue.len() == 0 {
            self
        } else {
            let t = self.queue[0];
            ActorView {
                core: self.core.step(t.outcome),
                queue: self.queue.drop_first(),
                executed: if t.outcome is StopRequested {
                    self.executed
                } else {
                    self.executed.push(t.id)
                },
            }
        }
    }

    /// The worker loop run until it halts or drains the queue.
    pub open spec fn run(self) -> ActorView
        decreases self.queue.len(),
    {
        if self.halted() || self.queue.len() == 0 {
            self
        } else {
            self.step().run()
        }
    }
}

/// A whole actor, modelled sequentially: the shared state cell, the pending
/// queue, and the record of the work run so far.
pub struct ActorModel {
    core: ActorCore,
    queue: Vec<Task>,
    executed: Vec<u64>,
}

impl View for ActorModel {
    type V = ActorView;

    closed spec fn view(&self) -> ActorView {
        ActorView { core: self.core@, queue: self.queue@, executed: self.executed@ }
    }
}

impl ActorModel {
    /// A fresh actor: running, nothing queued, nothing run.
    pub fn new() -> (m: ActorModel)
        ensures
            m@.wf(),
            m@.core.state is Running,
            m@.core.message is None,
            m@.queue == Seq::<Task>::empty(),
            m@.executed == Seq::<u64>::empty(),
    {
        ActorModel { core: ActorCore::new(), queue: Vec::new(), executed: Vec::new() }
    }

    /// Submit a task. While the actor runs, the task is accepted and joins
    /// the back of the queue; after a terminal state, the submission is
    /// rejected with the state-derived error and nothing changes.
    pub fn send(&mut self, task: Task) -> (r: Result<(), SendError>)
        requires
            old(self)@.wf(),
        ensures
            final(self)@.wf(),
            match old(self)@.core.state {
                ActorState::Running => r is Ok && final(self)@ == (ActorView {
                    queue: old(self)@.queue.push(task),
                    ..old(self)@
                }),
                ActorState::Stopped => r matches Err(SendError::ActorStopped)
                    && final(self)@ == old(self)@,
                ActorState::Error => (r matches Err(SendError::ActorFailed(m))
                    && old(self)@.core.message == Some(m@)) && final(self)@ == old(self)@,
            },
    {
        match self.core.submission_gate() {
            Ok(()) => {
                self.queue.push(task);
                Ok(())
            },
            Err(e) => Err(e),
        }
    }

    /// Request a graceful stop: queue the stop sentinel behind all pending
    /// tasks. The request is accepted as long as the worker has not exited;
    /// it does not wait for the worker to reach the sentinel. After the
    /// worker has exited the queue no longer accepts anything.
    pub fn stop(&mut self) -> (r: Result<(), SendError>)
        requires
            old(self)@.wf(),
        ensures
            final(self)@.wf(),
            if old(self)@.halted() {
                r matches Err(SendError::SendChannelClosed) && final(self)@ == old(self)@
            } else {
                r is Ok && final(self)@ == (ActorView {
                    queue: old(self)@.queue.push(stop_task()),
                    ..old(self)@
                })
            },
    {
        match self.core.state() {
            ActorState::Running => {
                self.queue.push(Task { id: 0, outcome: TaskOutcome::StopRequested });
                Ok(())
            },
            ActorState::Stopped => Err(SendError::SendChannelClosed),
            ActorState::Error => Err(SendError::SendChannelClosed),
        }
    }

    /// One iteration of the worker loop; returns whether the worker made
    /// progress. A halted worker never runs anything again; an empty queue
    /// leaves the worker waiting; otherwise the oldest task runs and its
    /// outcome drives the state transition.
    pub fn run_one(&mut self) -> (progressed: bool)
        requires
            old(self)@.wf(),
        ensures
            final(self)@.wf(),
            final(self)@ == old(self)@.step(),
            progressed == (!old(self)@.halted() && old(self)@.queue.len() > 0),
    {
        match self.core.state() {
            ActorState::Stopped => false,
            ActorState::Error => false,
            ActorState::Running => {
                if self.queue.len() == 0 {
                    false
                } else {
                    let t = self.queue.remove(0);
                    proof {
                        assert(old(self)@.queue.remove(0) =~= old(self)@.queue.drop_first());
                    }
                    let record = match &t.outcome {
                        TaskOutcome::StopRequested => false,
                        _ => true,
                    };
                    if record {
                        self.executed.push(t.id);
                    }
                    self.core.worker_step(t.outcome);
                    true
                }
            },
        }
    }

    /// Let the worker run until it halts or the queue is drained — the point
    /// an outside observer waits for before reading the state.
    pub fn run_to_idle(&mut self)
        requires
            old(self)@.wf(),
        ensures
            final(self)@.wf(),
            final(self)@ == old(self)@.run(),
    {
        loop
            invariant
                self@.wf(),
                self@.run() == old(self)@.run(),
            ensures
                self@.wf(),
                self@.halted() || self@.queue.len() == 0,
                self@.run() == old(self)@.run(),
            decreases self@.queue.len(),
        {
            let progressed = self.run_one();
            if !progressed {
                break;
            }
        }
    }

    /// A snapshot of the current state.
    pub fn state(&self) -> (s: ActorState)
        ensures
            s == self@.core.state,
    {
        self.core.state()
    }

    /// A snapshot of the stored reason, present exactly once a terminal
    /// state has been reached.
    pub fn message(&self) -> (m: Option<String>)
        ensures
            match m {
                Some(s) => self@.core.message == Some(s@),
                None => self@.core.message is None,
            },
    {
        self.core.message()
    }

    /// The labels of the work run so far, in execution order.
    pub fn executed(&self) -> (e: &Vec<u64>)
        ensures
            e@ == self@.executed,
    {
        &self.executed
    }

    /// How many tasks are still queued.
    pub fn pending(&self) -> (n: usize)
        ensures
            n == self@.queue.len(),
    {
        self.queue.len()
    }
}

} // verus!
