//! What a trace says of the post-processing of a completion. The processor
//! only describes the span; opening it and exporting events is the caller's.

use crate::completion::{ErrorSummary, JobCompletion, ResultPayload};
use crate::job::{JobId, MiniPulledJob};
use crate::postprocess::Stage;
use vstd::prelude::*;
use vstd::string::*;

verus! {

/// The error that a span reports.
#[derive(Debug, Clone, Copy, PartialEq, Eq)]
pub enum SpanError<'a> {
    /// The span has no error fields, or leaves them empty.
    Unset,
    /// The span reports the error by its message and its name.
    Named { message: &'a String, name: &'a String },
}

/// The fields of the span that covers the post-processing of a completion.
#[derive(Debug, Clone, Copy, PartialEq, Eq)]
pub struct SpanFields<'a> {
    /// The job that the span hangs under in the trace.
    pub parent: JobId,
    pub job_id: JobId,
    pub root_job: Option<JobId>,
    pub workspace_id: &'a String,
    pub worker: &'a String,
    pub tag: &'a String,
    pub language: &'a Option<String>,
    pub script_path: &'a Option<String>,
    /// The step that the span is named after: see [`span_name`].
    pub flow_step_id: &'a Option<String>,
    pub parent_job: Option<JobId>,
    pub success: bool,
    pub error: SpanError<'a>,
}

/// The name of the span: it ends in the step identifier, if the job has one.
pub open spec fn spec_span_name(flow_step_id: Option<Seq<char>>) -> Seq<char> {
    match flow_step_id {
        Some(step) => "job_postprocessing "@ + step,
        None => "job postprocessing"@,
    }
}

/// The name of the span.
pub fn span_name(flow_step_id: &Option<String>) -> (name: String)
    ensures
        name@ == spec_span_name(crate::completion::text_of(*flow_step_id)),
{
    match flow_step_id {
        Some(step) => {
            let mut name = String::from_str("job_postprocessing ");
            name.append(step.as_str());
            name
        },
        None => String::from_str("job postprocessing"),
    }
}

/// Whether the raw text of the result has to be read for a message and a
/// name: the job failed and its result is raw text. The span and the ledger
/// both go by what it reads as.
pub open spec fn spec_reads_error(jc: &JobCompletion) -> bool {
    !jc.success && jc.result is Raw
}

#[verifier::when_used_as_spec(spec_reads_error)]
pub fn reads_error(jc: &JobCompletion) -> (b: bool)
    ensures
        b == spec_reads_error(jc),
{
    !jc.success && matches!(jc.result, ResultPayload::Raw(_))
}

/// The error that the span reports. A job that succeeded reports none. A
/// failed job reports its normalized error, or what was read from its raw
/// result; a plain text is no error with a name.
pub open spec fn spec_span_error<'a>(jc: &'a JobCompletion, parsed: &'a Option<ErrorSummary>)
    -> SpanError<'a> {
    if jc.success {
        SpanError::Unset
    } else {
        match &jc.result {
            ResultPayload::Error(e) => SpanError::Named { message: &e.message, name: &e.name },
            ResultPayload::Raw(_) => match parsed {
                Some(summary) => SpanError::Named {
                    message: &summary.message,
                    name: &summary.name,
                },
                None => SpanError::Unset,
            },
            ResultPayload::Text(_) => SpanError::Unset,
        }
    }
}

/// The span of the post-processing of `jc` on the worker `worker_name`.
pub open spec fn spec_process_jc<'a>(
    jc: &'a JobCompletion,
    worker_name: &'a String,
    parsed: &'a Option<ErrorSummary>,
) -> SpanFields<'a> {
    SpanFields {
        parent: jc.job.trace_parent(),
        job_id: jc.job.id,
        root_job: jc.job.flow_innermost_root_job,
        workspace_id: &jc.job.workspace_id,
        worker: worker_name,
        tag: &jc.job.tag,
        language: &jc.job.script_lang,
        script_path: &jc.job.runnable_path,
        flow_step_id: &jc.job.flow_step_id,
        parent_job: jc.job.parent_job,
        success: jc.success,
        error: spec_span_error(jc, parsed),
    }
}

/// The span of the post-processing of `jc` on the worker `worker_name`.
/// `parsed` is what the raw result of a failed job reads as, if it is an
/// object with a message and a name.
#[verifier::when_used_as_spec(spec_process_jc)]
pub fn process_jc<'a>(
    jc: &'a JobCompletion,
    worker_name: &'a String,
    parsed: &'a Option<ErrorSummary>,
) -> (span: SpanFields<'a>)
    ensures
        span == spec_process_jc(jc, worker_name, parsed),
{
    let error = if jc.success {
        SpanError::Unset
    } else {
        match &jc.result {
            ResultPayload::Error(e) => SpanError::Named { message: &e.message, name: &e.name },
            ResultPayload::Raw(_) => match parsed {
                Some(summary) => SpanError::Named {
                    message: &summary.message,
                    name: &summary.name,
                },
                None => SpanError::Unset,
            },
            ResultPayload::Text(_) => SpanError::Unset,
        }
    };
    SpanFields {
        parent: jc.job.trace_parent(),
        job_id: jc.job.id,
        root_job: jc.job.flow_innermost_root_job,
        workspace_id: &jc.job.workspace_id,
        worker: worker_name,
        tag: &jc.job.tag,
        language: &jc.job.script_lang,
        script_path: &jc.job.runnable_path,
        flow_step_id: &jc.job.flow_step_id,
        parent_job: jc.job.parent_job,
        success: jc.success,
        error,
    }
}

/// The end of a root flow, as it is exported once the post-processing of a
/// completion has finished: the root job that the flow update reported, with
/// the completion's success flag. Nothing is exported without a root job.
pub fn root_flow_event<'a>(jc: &JobCompletion, stage: &'a Stage) -> (event: Option<
    (&'a MiniPulledJob, bool),
>)
    ensures
        match stage {
            Stage::Finished(Some(root)) => event == Some((root, jc.success)),
            _ => event is None,
        },
{
    match stage.root_job() {
        Some(root) => Some((root, jc.success)),
        None => None,
    }
}

} // verus!
