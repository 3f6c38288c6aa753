//! From an executor's outcome to a completion: the error of a job that failed
//! is brought into one shape, and the completion is made up for sending.

use crate::args::PreprocessedArgs;
use crate::completion::{
    text_of, JobCompletion, ResultPayload, ResultPayloadView, SerializedError,
    SerializedErrorView,
};
use crate::job::{CanceledBy, MiniPulledJob};
use crate::text::{
    after_last, decimal, end_of, last_chars, push_decimal, push_without_colour_codes,
    suffix_after_last, to_chars, trim, trimmed, without_colour_codes,
};
use vstd::prelude::*;
use vstd::string::*;

verus! {

/// How the execution of a job failed.
#[derive(Debug, Clone, PartialEq, Eq)]
pub enum ExecutorError {
    /// The program ended with an exit code.
    ExitStatus { program: String, code: i32 },
    /// The execution left an error of its own, as JSON text.
    ExecutionRawError(String),
    /// Anything else, written out with its causes.
    Other(String),
}

/// Where the logs of a job can be had from.
#[derive(Debug, Clone, PartialEq, Eq)]
pub enum LogSource {
    /// The database: the job's latest log record, or the end of it, if there
    /// is one.
    Sql(Option<String>),
    /// No database is at hand.
    Http,
}

/// The name that every normalized error of an execution bears.
pub open spec fn execution_error_name() -> Seq<char> {
    "ExecutionErr"@
}

/// What marks the start of the program's own output in the logs.
pub open spec fn output_marker() -> Seq<char> {
    "CODE EXECUTION ---"@
}

/// What stands for the logs when they cannot be had.
pub open spec fn see_logs() -> Seq<char> {
    "See logs for more details"@
}

/// The message for a program that ended with an exit code: the program, the
/// code, and the last log lines, trimmed and without colour codes.
pub open spec fn exit_message(program: Seq<char>, code: i32, log_lines: Seq<char>) -> Seq<char> {
    "exit code for \""@ + program + "\": "@ + decimal(code as int) + ", last log lines:\n"@
        + without_colour_codes(trimmed(log_lines))
}

/// The error of a program that ended with an exit code.
pub open spec fn exit_error(
    program: Seq<char>,
    log_lines: Seq<char>,
    code: i32,
    step_id: Option<Seq<char>>,
) -> SerializedErrorView {
    SerializedErrorView {
        message: exit_message(program, code, log_lines),
        name: execution_error_name(),
        step_id,
        exit_code: Some(code),
    }
}

/// The error of an execution that failed in any other way.
pub open spec fn other_error(rendered: Seq<char>, step_id: Option<Seq<char>>)
    -> SerializedErrorView {
    SerializedErrorView {
        message: "execution error:\n"@ + rendered,
        name: execution_error_name(),
        step_id,
        exit_code: None,
    }
}

/// How many characters of the end of a job's logs are looked at.
pub const LOG_TAIL_CHARS: usize = 600;

/// The log lines that an exit message quotes: of the last
/// [`LOG_TAIL_CHARS`] characters of the logs, what follows the last output
/// marker, or all of them if they hold no marker. No logs count as empty
/// logs.
pub open spec fn quoted_log_lines(tail: Option<String>) -> Seq<char> {
    match tail {
        Some(t) => after_last(last_chars(t@, LOG_TAIL_CHARS as nat), output_marker()),
        None => Seq::empty(),
    }
}

/// Whether a result file held anything.
pub open spec fn spec_has_result(artifact: &Option<String>) -> bool {
    artifact matches Some(a) && a@.len() > 0
}

/// The result that a failed execution is recorded with.
///
/// An exit code gives way to the result file where that holds anything; else
/// the logs are quoted, or pointed to where they cannot be had. An error that
/// the execution left itself stands as it is. Everything else is written into
/// an error by the name of [`execution_error_name`].
pub open spec fn normalized(
    err: &ExecutorError,
    step_id: Option<Seq<char>>,
    artifact: &Option<String>,
    logs: &LogSource,
) -> ResultPayloadView {
    match err {
        ExecutorError::ExitStatus { program, code } => if spec_has_result(artifact) {
            ResultPayloadView::Raw(artifact->0@)
        } else {
            match logs {
                LogSource::Sql(tail) => ResultPayloadView::Error(
                    exit_error(program@, quoted_log_lines(*tail), *code, step_id),
                ),
                LogSource::Http => ResultPayloadView::Text(see_logs()),
            }
        },
        ExecutorError::ExecutionRawError(raw) => ResultPayloadView::Raw(raw@),
        ExecutorError::Other(rendered) => ResultPayloadView::Error(
            other_error(rendered@, step_id),
        ),
    }
}

/// Every normalized error bears the name of [`execution_error_name`]; an
/// execution that left its own error, a result file and a pointer to the logs
/// are no normalized errors and are passed on as they are.
pub proof fn lemma_normalized_error_name(
    err: &ExecutorError,
    step_id: Option<Seq<char>>,
    artifact: &Option<String>,
    logs: &LogSource,
)
    ensures
        normalized(err, step_id, artifact, logs) matches ResultPayloadView::Error(e) ==> e.name
            == execution_error_name(),
        err is ExecutionRawError ==> normalized(err, step_id, artifact, logs)
            == ResultPayloadView::Raw(err->ExecutionRawError_0@),
        err is Other ==> normalized(err, step_id, artifact, logs) is Error,
        err is ExitStatus ==> (normalized(err, step_id, artifact, logs) is Error <==> !spec_has_result(
            artifact,
        ) && logs is Sql),
{
}

/// The error of a program that ended with the exit code `i`, quoting
/// `log_lines`.
pub fn extract_error_value(program: &str, log_lines: &str, i: i32, step_id: Option<String>) -> (e:
    SerializedError)
    ensures
        e@ == exit_error(program@, log_lines@, i, text_of(step_id)),
        e.step_id == step_id,
{
    let mut message = String::from_str("exit code for \"");
    message.append(program);
    message.append("\": ");
    push_decimal(&mut message, i);
    message.append(", last log lines:\n");
    let lines = to_chars(trim(log_lines));
    push_without_colour_codes(&mut message, &lines);
    SerializedError {
        message,
        name: String::from_str("ExecutionErr"),
        step_id,
        exit_code: Some(i),
    }
}

/// Whether a result file held anything.
#[verifier::when_used_as_spec(spec_has_result)]
pub fn has_result(artifact: &Option<String>) -> (b: bool)
    ensures
        b == spec_has_result(artifact),
{
    match artifact {
        Some(a) => !a.as_str().is_empty(),
        None => false,
    }
}

impl ExecutorError {
    /// Whether the result file of the job is looked at: the program ended
    /// with an exit code.
    pub fn needs_artifact(&self) -> (b: bool)
        ensures
            b == (self is ExitStatus),
    {
        match self {
            ExecutorError::ExitStatus { .. } => true,
            _ => false,
        }
    }

    /// Whether the logs of the job are looked at: the program ended with an
    /// exit code and the result file holds nothing.
    pub fn needs_logs(&self, artifact: &Option<String>) -> (b: bool)
        ensures
            b == (self is ExitStatus && !spec_has_result(artifact)),
    {
        match self {
            ExecutorError::ExitStatus { .. } => !has_result(artifact),
            _ => false,
        }
    }
}

/// The result that a failed execution is recorded with.
pub fn normalize_error(
    err: ExecutorError,
    step_id: Option<String>,
    artifact: Option<String>,
    logs: LogSource,
) -> (result: ResultPayload)
    ensures
        result@ == normalized(&err, text_of(step_id), &artifact, &logs),
        result matches ResultPayload::Error(e) ==> e.name@ == execution_error_name() && e.step_id
            == step_id,
{
    match err {
        ExecutorError::ExitStatus { program, code } => {
            let kept = match artifact {
                Some(a) => if a.as_str().is_empty() {
                    None
                } else {
                    Some(a)
                },
                None => None,
            };
            match kept {
                Some(a) => ResultPayload::Raw(a),
                None => match logs {
                    LogSource::Sql(tail) => {
                        let lines: &str = match &tail {
                            Some(t) => suffix_after_last(
                                end_of(t.as_str(), LOG_TAIL_CHARS),
                                "CODE EXECUTION ---",
                            ),
                            None => {
                                proof {
                                    reveal_strlit("");
                                }
                                ""
                            },
                        };
                        ResultPayload::Error(
                            extract_error_value(program.as_str(), lines, code, step_id),
                        )
                    },
                    LogSource::Http => ResultPayload::Text(
                        String::from_str("See logs for more details"),
                    ),
                },
            }
        },
        ExecutorError::ExecutionRawError(raw) => ResultPayload::Raw(raw),
        ExecutorError::Other(rendered) => {
            let mut message = String::from_str("execution error:\n");
            message.append(rendered.as_str());
            ResultPayload::Error(
                SerializedError {
                    message,
                    name: String::from_str("ExecutionErr"),
                    step_id,
                    exit_code: None,
                },
            )
        },
    }
}

/// Makes up the completion of a job from the outcome of its execution.
///
/// A job that succeeded keeps its result, its result columns and its
/// preprocessed arguments. A job that failed gets the normalized error for a
/// result and loses the other two. The completion is meant for the unbounded
/// queue; the flag that comes with it tells whether the job succeeded.
pub fn process_result(
    job: MiniPulledJob,
    result: Result<String, ExecutorError>,
    artifact: Option<String>,
    mem_peak: i32,
    canceled_by: Option<CanceledBy>,
    cached_res_path: Option<String>,
    token: &str,
    result_columns: Option<Vec<String>>,
    preprocessed_args: Option<PreprocessedArgs>,
    logs: LogSource,
    duration: Option<i64>,
) -> (sent: (JobCompletion, bool))
    ensures
        sent.1 == (result is Ok),
        sent.0.success == sent.1,
        sent.0.job == job,
        sent.0.mem_peak == mem_peak,
        sent.0.canceled_by == canceled_by,
        sent.0.cached_res_path == cached_res_path,
        sent.0.token@ == token@,
        sent.0.duration == duration,
        match result {
            Ok(value) => {
                &&& sent.0.result == ResultPayload::Raw(value)
                &&& sent.0.result_columns == result_columns
                &&& sent.0.preprocessed_args == preprocessed_args
            },
            Err(err) => {
                &&& sent.0.result@ == normalized(
                    &err,
                    text_of(job.flow_step_id),
                    &artifact,
                    &logs,
                )
                &&& sent.0.result_columns is None
                &&& sent.0.preprocessed_args is None
            },
        },
{
    match result {
        Ok(value) => (
            JobCompletion {
                job,
                result: ResultPayload::Raw(value),
                result_columns,
                preprocessed_args,
                mem_peak,
                canceled_by,
                success: true,
                cached_res_path,
                token: String::from_str(token),
                duration,
            },
            true,
        ),
        Err(err) => {
            let step_id = job.flow_step_id.clone();
            let result = normalize_error(err, step_id, artifact, logs);
            (
                JobCompletion {
                    job,
                    result,
                    result_columns: None,
                    preprocessed_args: None,
                    mem_peak,
                    canceled_by,
                    success: false,
                    cached_res_path,
                    token: String::from_str(token),
                    duration,
                },
                false,
            )
        },
    }
}

} // verus!
