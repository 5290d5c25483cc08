//! Orchestration of a proof lifecycle around an opaque proving engine.
//!
//! The library decides; a driver performs. Every stage is a pair of functions
//! from what is known to the list of [`effect::Effect`]s that must happen next:
//! envelopes to publish, a process to run, a collaborator to call, a follow-up
//! stage to schedule. The driver carries the effects out in order and reports
//! what came back to the stage's second function.
//!
//! - [`dispatch`] takes a client's message and the collaborator's answer to
//!   it, and picks the stage.
//! - [`generate`], [`verify`] and [`transfer`] are the three stages;
//!   [`pipeline`] states how they follow one another.
//! - [`registry`] lists the proofs on disk.
//! - [`hub`] decides what one connection does with what reaches it.
//! - [`envelope`], [`effect`] and [`request`] hold the data; [`json`] and
//!   [`text`] read and build it.

pub mod dispatch;
pub mod effect;
pub mod envelope;
pub mod generate;
pub mod hub;
pub mod json;
pub mod pipeline;
pub mod registry;
pub mod request;
pub mod text;
pub mod transfer;
pub mod verify;
