//! The percentile orchestrator: the decisions that turn one request for the
//! `p`-th percentile of a list into calls on four leaf services and one reply.

pub mod apidoc;
pub mod evaluation;
pub mod laws;
pub mod outcome;
pub mod reply;
pub mod service;
