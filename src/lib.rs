//! Orchestration logic for media container pipelines: time bases and
//! timestamp rescaling, stream mapping, packet timing, and the
//! read / decode / encode / flush state machine that drives a run.

pub mod dump;
pub mod mapping;
pub mod opts;
pub mod packet;
pub mod pipeline;
pub mod rational;
pub mod record;
pub mod settings;
pub mod sink;
