//! Post-processing of job results for a workflow worker.
//!
//! Executors hand their outcomes to a background processor, which records them
//! durably, advances the flow a job belongs to, and shuts the worker down in an
//! orderly way. This crate holds the rules of that processor: what is decided,
//! in which order, and on which inputs. Everything that waits on a database, a
//! cache or a channel is left to the caller, who performs the actions the rules
//! ask for and reports back what came of them.

pub mod args;
pub mod completion;
pub mod dispatch;
pub mod handling;
pub mod job;
pub mod normalize;
pub mod postprocess;
pub mod processor;
pub mod raw_apps;
pub mod receiver;
pub mod telemetry;
pub mod text;
