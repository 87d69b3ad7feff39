//! The actor's shared state cell and its decision rules.
//!
//! An actor owns one [`ActorCore`]: the health signal (`ActorState`) together
//! with the terminal-reason message, updated as one atomic value. The worker
//! loop is its sole writer, through [`ActorCore::worker_step`]; submitters
//! consult it through [`ActorCore::submission_gate`] before enqueuing work.

use vstd::prelude::*;

verus! {

/// The actor's health signal. `Running` is the initial state; `Stopped` and
/// `Error` are terminal: once reached, the state never changes again.
#[derive(Clone, Copy, Debug, PartialEq, Eq, Structural)]
pub enum ActorState {
    Running,
    Stopped,
    Error,
}

/// The outcome of running one task, as seen by the worker loop.
///
/// A task either succeeds, fails with a human-readable reason, or requests a
/// graceful stop. Carrying the stop request as its own variant, rather than as
/// a reserved failure string, rules out any collision between a genuine
/// failure reason and the stop request.
#[derive(Clone, Debug, PartialEq, Eq)]
pub enum TaskOutcome {
    Success,
    Failure(String),
    StopRequested,
}

/// Why a submission was rejected.
#[derive(Clone, Debug, PartialEq, Eq)]
pub enum SendError {
    /// The actor already reached `Stopped`.
    ActorStopped,
    /// The actor already reached `Error`; the payload is the stored reason.
    ActorFailed(String),
    /// The queue could not accept the task because the worker has exited,
    /// though the caller's state snapshot had not yet observed it.
    SendChannelClosed,
}

/// True of the states that end an actor's life.
pub open spec fn is_terminal(s: ActorState) -> bool {
    s is Stopped || s is Error
}

/// The mathematical value of an [`ActorCore`]: the state and, once a terminal
/// state is reached, the stored reason.
#[verifier::ext_equal]
pub struct CoreView {
    pub state: ActorState,
    pub message: Option<Seq<char>>,
}

impl CoreView {
    /// State and message move together: the reason is stored exactly when a
    /// terminal state holds. Keeping both under one atomic update means no
    /// reader can ever observe a terminal state without its reason.
    pub open spec fn wf(self) -> bool {
        (self.state is Running) <==> (self.message is None)
    }

    /// The transition the worker makes after one task outcome. A halted
    /// worker (terminal state) makes no further transitions; otherwise
    /// success keeps the actor running, a stop request reaches `Stopped`
    /// with the default reason, and a failure reaches `Error` carrying the
    /// failure reason.
    pub open spec fn step(self, outcome: TaskOutcome) -> CoreView {
        if is_terminal(self.state) {
            self
        } else {
            match outcome {
                TaskOutcome::Success => self,
                TaskOutcome::Failure(r) => CoreView { state: ActorState::Error, message: Some(r@) },
                TaskOutcome::StopRequested => CoreView {
                    state: ActorState::Stopped,
                    message: if self.message is None { Some("Actor stopped"@) } else { self.message },
                },
            }
        }
    }

    /// Whether the worker keeps consuming tasks after this outcome.
    pub open spec fn step_continues(self, outcome: TaskOutcome) -> bool {
        !is_terminal(self.state) && outcome is Success
    }
}

/// The shared state cell of one actor: health signal plus stored reason.
pub struct ActorCore {
    state: ActorState,
    message: Option<String>,
}

impl View for ActorCore {
    type V = CoreView;

    closed spec fn view(&self) -> CoreView {
        CoreView {
            state: self.state,
            message: match self.message {
                Some(m) => Some(m@),
                None => None,
            },
        }
    }
}

impl ActorCore {
    /// A fresh actor: running, with no reason stored.
    pub fn new() -> (c: ActorCore)
        ensures
            c@ == (CoreView { state: ActorState::Running, message: None::<Seq<char>> }),
    {
        ActorCore { state: ActorState::Running, message: None }
    }

    /// The worker's transition after one task outcome; returns whether the
    /// worker keeps consuming tasks. Called only by the worker loop, one
    /// outcome at a time.
    pub fn worker_step(&mut self, outcome: TaskOutcome) -> (cont: bool)
        ensures
            final(self)@ == old(self)@.step(outcome),
            cont == old(self)@.step_continues(outcome),
    {
        match self.state {
            ActorState::Stopped => false,
            ActorState::Error => false,
            ActorState::Running => {
                match outcome {
                    TaskOutcome::Success => true,
                    TaskOutcome::Failure(r) => {
                        self.state = ActorState::Error;
                        self.message = Some(r);
                        false
                    },
                    TaskOutcome::StopRequested => {
                        self.state = ActorState::Stopped;
                        if self.message.is_none() {
                            self.message = Some("Actor stopped".to_owned());
                        }
                        false
                    },
                }
            },
        }
    }

    /// The submission gate: whether a new task may be enqueued right now.
    /// While running, submissions pass; after a stop they are rejected as
    /// [`SendError::ActorStopped`]; after a failure they are rejected as
    /// [`SendError::ActorFailed`] carrying the stored reason.
    pub fn submission_gate(&self) -> (r: Result<(), SendError>)
        requires
            self@.wf(),
        ensures
            match self@.state {
                ActorState::Running => r is Ok,
                ActorState::Stopped => r matches Err(SendError::ActorStopped),
                ActorState::Error => (r matches Err(SendError::ActorFailed(m))
                    && self@.message == Some(m@)),
            },
    {
        match self.state {
            ActorState::Running => Ok(()),
            ActorState::Stopped => Err(SendError::ActorStopped),
            ActorState::Error => {
                match &self.message {
                    Some(m) => Err(SendError::ActorFailed(m.clone())),
                    None => {
                        proof {
                            assert(false);
                        }
                        Err(SendError::ActorStopped)
                    },
                }
            },
        }
    }

    /// What a submitter is told when the queue refused the task: the
    /// state-derived outcome after re-reading the state. If the state still
    /// reads `Running`, the channel closed before the snapshot caught up and
    /// the generic [`SendError::SendChannelClosed`] is returned.
    pub fn closed_channel_error(&self) -> (e: SendError)
        requires
            self@.wf(),
        ensures
            match self@.state {
                ActorState::Running => e is SendChannelClosed,
                ActorState::Stopped => e is ActorStopped,
                ActorState::Error => (e matches SendError::ActorFailed(m)
                    && self@.message == Some(m@)),
            },
    {
        match self.state {
            ActorState::Running => SendError::SendChannelClosed,
            ActorState::Stopped => SendError::ActorStopped,
            ActorState::Error => {
                match &self.message {
                    Some(m) => SendError::ActorFailed(m.clone()),
                    None => {
                        proof {
                            assert(false);
                        }
                        SendError::ActorStopped
                    },
                }
            },
        }
    }

    /// A snapshot of the current state.
    pub fn state(&self) -> (s: ActorState)
        ensures
            s == self@.state,
    {
        self.state
    }

    /// A snapshot of the stored reason, present exactly once a terminal state
    /// has been reached.
    pub fn message(&self) -> (m: Option<String>)
        ensures
            match m {
                Some(s) => self@.message == Some(s@),
                None => self@.message is None,
            },
    {
        match &self.message {
            Some(m) => Some(m.clone()),
            None => None,
        }
    }
}

impl SendError {
    /// The rejection as a human-readable reason string.
    pub fn reason(&self) -> (s: String)
        ensures
            match self {
                SendError::ActorStopped => s@ == "Actor is stopped"@,
                SendError::ActorFailed(m) => s@ == m@,
                SendError::SendChannelClosed => s@ == "Actor send error"@,
            },
    {
        match self {
            SendError::ActorStopped => "Actor is stopped".to_owned(),
            SendError::ActorFailed(m) => m.clone(),
            SendError::SendChannelClosed => "Actor send error".to_owned(),
        }
    }
}

} // verus!
