//! A sequential task executor ("actor").
//!
//! Tasks are queued in arrival order and processed one at a time by a single
//! worker. The worker keeps a shared health signal — `Running`, `Stopped` or
//! `Error` — that gates further submissions: once the actor has reached a
//! terminal state, new tasks are rejected and the reason is reported back to
//! the submitter.
//!
//! The crate verifies the actor's decision logic and its queue discipline:
//! [`actor::ActorCore`] holds the shared state cell with its transition and
//! submission rules, [`model::ActorModel`] is the sequential model of a whole
//! actor (state, queue and processing loop), and [`laws`] proves the ordering
//! and halting guarantees over that model. An embedding that runs the worker
//! on an asynchronous runtime drives these same decision functions.

pub mod actor;
pub mod laws;
pub mod model;

pub use actor::ActorState;
pub use actor::SendError;
pub use actor::TaskOutcome;
pub use actor::ActorCore;
