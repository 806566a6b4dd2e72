//! A four-stage request pipeline: each stage is a state machine that reads one
//! envelope and answers with the next, and an orchestrator relays the envelopes
//! from stage to stage, stopping at the first failure.

pub mod envelope;
pub mod orchestrator;
pub mod pipeline;
mod sources;
pub mod stages;
