//! What crosses into the processor: the completion of one job, or a request to
//! advance a flow, together with the time at which it was queued.

use crate::args::PreprocessedArgs;
use crate::job::{CanceledBy, JobId, MiniPulledJob};
use vstd::prelude::*;

verus! {

/// The canonical shape of a failure.
#[derive(Debug, Clone, PartialEq, Eq)]
pub struct SerializedError {
    pub message: String,
    pub name: String,
    pub step_id: Option<String>,
    pub exit_code: Option<i32>,
}

/// A failure as a mathematical value.
pub struct SerializedErrorView {
    pub message: Seq<char>,
    pub name: Seq<char>,
    pub step_id: Option<Seq<char>>,
    pub exit_code: Option<i32>,
}

/// The characters of a text that may be missing.
pub open spec fn text_of(text: Option<String>) -> Option<Seq<char>> {
    match text {
        Some(t) => Some(t@),
        None => None,
    }
}

impl View for SerializedError {
    type V = SerializedErrorView;

    open spec fn view(&self) -> SerializedErrorView {
        SerializedErrorView {
            message: self.message@,
            name: self.name@,
            step_id: text_of(self.step_id),
            exit_code: self.exit_code,
        }
    }
}

/// The message and the name of an error, as they were read from a result
/// that is an object holding the two as strings.
#[derive(Debug, Clone, PartialEq, Eq)]
pub struct ErrorSummary {
    pub message: String,
    pub name: String,
}

/// The result of a job as a mathematical value.
pub enum ResultPayloadView {
    Raw(Seq<char>),
    Error(SerializedErrorView),
    Text(Seq<char>),
}

impl View for ResultPayload {
    type V = ResultPayloadView;

    open spec fn view(&self) -> ResultPayloadView {
        match self {
            ResultPayload::Raw(raw) => ResultPayloadView::Raw(raw@),
            ResultPayload::Error(e) => ResultPayloadView::Error(e@),
            ResultPayload::Text(t) => ResultPayloadView::Text(t@),
        }
    }
}

/// The result of a job. It is turned into stored bytes only where it leaves
/// the processor.
#[derive(Debug, Clone, PartialEq, Eq)]
pub enum ResultPayload {
    /// JSON text, as an executor or a result file gave it.
    Raw(String),
    /// A failure in its canonical shape.
    Error(SerializedError),
    /// A plain text, stored as a JSON string.
    Text(String),
}

/// One executor's final verdict on one job.
#[derive(Debug, Clone, PartialEq, Eq)]
pub struct JobCompletion {
    pub job: MiniPulledJob,
    pub result: ResultPayload,
    pub result_columns: Option<Vec<String>>,
    /// The arguments as a preprocessor left them.
    pub preprocessed_args: Option<PreprocessedArgs>,
    pub mem_peak: i32,
    pub canceled_by: Option<CanceledBy>,
    pub success: bool,
    /// Where the result is cached as well, if the job succeeded.
    pub cached_res_path: Option<String>,
    /// Authorizes the calls that are made on behalf of the job.
    pub token: String,
    pub duration: Option<i64>,
}

/// A request to advance a flow without a step of it having completed.
#[derive(Debug, Clone, PartialEq, Eq)]
pub struct UpdateFlow {
    pub flow: JobId,
    pub w_id: String,
    pub success: bool,
    /// JSON text.
    pub result: String,
    pub worker_dir: String,
    pub stop_early_override: Option<bool>,
    pub token: String,
}

#[derive(Debug, Clone, PartialEq, Eq)]
pub enum SendResultPayload {
    JobCompleted(JobCompletion),
    UpdateFlow(UpdateFlow),
}

/// What the queues of the processor carry.
#[derive(Debug, Clone, PartialEq, Eq)]
pub struct SendResult {
    pub result: SendResultPayload,
    /// When it was queued, in seconds on the clock that the processor is asked
    /// with.
    pub time: u64,
}

} // verus!
