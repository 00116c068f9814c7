//! Orchestration of a long-lived media worker: the line protocol spoken with
//! it, the store of batch and task records that its events drive, and the
//! decisions of the supervisor and of the runtime bootstrap.

pub mod channel;
pub mod commands;
pub mod decode;
pub mod file_discovery;
pub mod ids;
pub mod json;
pub mod lookup;
pub mod order;
pub mod paths;
pub mod progress;
pub mod protocol;
pub mod runtime;
pub mod state;
pub mod text;
pub mod types;
pub mod wire;
pub mod worker;
