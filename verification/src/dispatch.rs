//! Processing one completion: what is written, in which order, and what is
//! done when a write fails.
//!
//! The processor does not write anything itself. It names the next action, the
//! caller carries it out and reports the outcome, and the processor names the
//! action after that. A completion is first processed stage by stage; the
//! first failure ends that and starts the handling of the error, which records
//! the job as failed and tells the flow it belongs to.

use crate::args::PreprocessedArgs;
use crate::completion::{ErrorSummary, JobCompletion, ResultPayload, SerializedError};
use crate::job::{CanceledBy, JobId, MiniPulledJob};
use crate::text::same_text;
use vstd::prelude::*;
use vstd::string::*;

verus! {

/// The step identifier of a preprocessor.
pub open spec fn preprocessor_step() -> Seq<char> {
    "preprocessor"@
}

/// What a failed action left behind, in the three forms the processor uses.
#[derive(Debug, Clone, PartialEq, Eq)]
pub struct StorageError {
    /// The error in one line.
    pub message: String,
    /// The error as a JSON value, ready for the ledger.
    pub value: String,
    /// That value laid out for a reader, as it goes into a job's logs.
    pub detail: String,
}

/// What the caller reports of an action.
#[derive(Debug, Clone, PartialEq, Eq)]
pub enum Outcome {
    /// It was carried out. A flow update hands back the root job if there is
    /// one to report; a lookup hands back the job it found.
    Done(Option<MiniPulledJob>),
    /// It failed.
    Failed(StorageError),
}

/// The error value that goes into the ledger with a failed job.
#[derive(Debug, PartialEq, Eq)]
pub enum ErrorValue<'a> {
    /// The job's result as it stands.
    Body(&'a ResultPayload),
    /// An object whose only field, `message`, tells that the job's result is
    /// no object with a message and a name, and quotes the result as it is
    /// stored: see [`non_serializable_message`].
    NonSerializable(&'a ResultPayload),
    /// The value of the error that stopped the processing.
    Storage(&'a StorageError),
    /// The error that stopped a flow update, as an internal error: see
    /// [`internal_error`].
    Internal(&'a StorageError),
}

/// A line for a job's logs.
#[derive(Debug, PartialEq, Eq)]
pub enum LogLine<'a> {
    /// The processing of the job failed.
    JobError(&'a StorageError),
    /// Telling the flow of a failed job failed too.
    FlowError(&'a StorageError),
}

/// The result that a flow is advanced with.
#[derive(Debug, PartialEq, Eq)]
pub enum FlowResult<'a> {
    /// The job's result.
    Result(&'a ResultPayload),
    /// The error value, wrapped as the ledger holds it: an object whose only
    /// field, `error`, is that value.
    Wrapped(ErrorValue<'a>),
}

/// What the caller is asked to do.
#[derive(Debug, PartialEq, Eq)]
pub enum Action<'a> {
    /// Write the result through to the cache.
    SaveInCache { job: &'a MiniPulledJob, path: &'a String, result: &'a ResultPayload },
    /// Replace the job's arguments by the notice that they were discarded and
    /// mark the job preprocessed, unless it is marked already.
    DiscardPreprocessorArgs { job: JobId },
    /// Replace the job's arguments by the preprocessed ones and mark the job
    /// preprocessed.
    ReplaceArgs { job: JobId, args: &'a PreprocessedArgs },
    /// Insert the record of a job that succeeded.
    AddCompletedJob {
        job: &'a MiniPulledJob,
        result: &'a ResultPayload,
        result_columns: &'a Option<Vec<String>>,
        mem_peak: i32,
        canceled_by: &'a Option<CanceledBy>,
        duration: Option<i64>,
    },
    /// Append the line, if there is one, to the job's logs; then insert the
    /// record of a job that failed.
    AddCompletedJobError {
        job: &'a MiniPulledJob,
        log: Option<LogLine<'a>>,
        mem_peak: i32,
        canceled_by: &'a Option<CanceledBy>,
        error: ErrorValue<'a>,
    },
    /// Advance the flow `flow` after its step `step`; the nil step stands for
    /// the flow itself.
    UpdateFlow {
        flow: JobId,
        step: JobId,
        workspace_id: &'a String,
        success: bool,
        result: FlowResult<'a>,
        unrecoverable: bool,
        /// Whether the flow is made to stop early, or kept from it; `None`
        /// leaves that to the flow.
        stop_early_override: Option<bool>,
    },
    /// Look up a job that is queued.
    GetQueuedJob { id: JobId, workspace_id: &'a String },
}

/// The arguments of a job as the job store holds them.
#[derive(Debug, Clone, Copy, PartialEq, Eq)]
pub enum StoredArgs<'a> {
    /// The arguments that the job was queued with.
    Given,
    /// The notice that the arguments were discarded: see
    /// [`discarded_args_notice`].
    Discarded,
    /// The arguments as a preprocessor left them.
    Preprocessed(&'a PreprocessedArgs),
}

/// What the job store holds of a job's arguments.
#[derive(Debug, Clone, Copy, PartialEq, Eq)]
pub struct JobRow<'a> {
    pub args: StoredArgs<'a>,
    pub preprocessed: bool,
}

/// The notice that takes the place of discarded arguments, as JSON text.
pub fn discarded_args_notice() -> (notice: &'static str)
    ensures
        notice@ == "{\"reason\":\"PREPROCESSOR_ARGS_ARE_DISCARDED\"}"@,
{
    "{\"reason\":\"PREPROCESSOR_ARGS_ARE_DISCARDED\"}"
}

impl<'a> Action<'a> {
    /// Whether the action writes a ledger row for the job `id`.
    pub open spec fn records(self, id: JobId) -> bool {
        match self {
            Action::AddCompletedJob { job, .. } => job.id == id,
            Action::AddCompletedJobError { job, .. } => job.id == id,
            _ => false,
        }
    }

    /// What the job store holds of the job's arguments once the action is
    /// carried out. Discarding leaves a job alone that is marked preprocessed;
    /// replacing does not ask. No other action touches the arguments.
    pub open spec fn spec_args_after(self, row: JobRow<'a>) -> JobRow<'a> {
        match self {
            Action::DiscardPreprocessorArgs { .. } => if row.preprocessed {
                row
            } else {
                JobRow { args: StoredArgs::Discarded, preprocessed: true }
            },
            Action::ReplaceArgs { args, .. } => JobRow {
                args: StoredArgs::Preprocessed(args),
                preprocessed: true,
            },
            _ => row,
        }
    }

    /// What the job store holds of the job's arguments once the action is
    /// carried out.
    pub fn args_after(&self, row: JobRow<'a>) -> (after: JobRow<'a>)
        ensures
            after == self.spec_args_after(row),
            row.preprocessed ==> after.preprocessed,
    {
        match self {
            Action::DiscardPreprocessorArgs { .. } => if row.preprocessed {
                row
            } else {
                JobRow { args: StoredArgs::Discarded, preprocessed: true }
            },
            Action::ReplaceArgs { args, .. } => JobRow {
                args: StoredArgs::Preprocessed(args),
                preprocessed: true,
            },
            _ => row,
        }
    }
}

/// The error value of a failed job's result.
///
/// The result goes into the ledger as it stands exactly when it is an object
/// that holds a message and a name as strings: a normalized error is one, and
/// raw text is one where `parsed` holds what it reads as. Every other result,
/// a plain text among them, is replaced by the notice that it is none.
pub open spec fn spec_error_value<'a>(result: &'a ResultPayload, parsed: &Option<ErrorSummary>)
    -> ErrorValue<'a> {
    match result {
        ResultPayload::Error(_) => ErrorValue::Body(result),
        ResultPayload::Raw(_) => if parsed is Some {
            ErrorValue::Body(result)
        } else {
            ErrorValue::NonSerializable(result)
        },
        ResultPayload::Text(_) => ErrorValue::NonSerializable(result),
    }
}

/// The error value of a failed job's result. `parsed` is what the raw text of
/// the result reads as, if that is an object holding a message and a name as
/// strings, and nothing if it is not.
#[verifier::when_used_as_spec(spec_error_value)]
pub fn error_value<'a>(result: &'a ResultPayload, parsed: &Option<ErrorSummary>) -> (value:
    ErrorValue<'a>)
    ensures
        value == spec_error_value(result, parsed),
{
    match result {
        ResultPayload::Error(_) => ErrorValue::Body(result),
        ResultPayload::Raw(_) => if parsed.is_some() {
            ErrorValue::Body(result)
        } else {
            ErrorValue::NonSerializable(result)
        },
        ResultPayload::Text(_) => ErrorValue::NonSerializable(result),
    }
}

/// What is said of a preprocessor step whose arguments could not be
/// discarded; `rendered` is the failure, written out with its causes.
pub fn discard_failure_message(rendered: &str) -> (message: String)
    ensures
        message@ == "error while deleting args of preprocessing step: "@ + rendered@,
{
    let mut message = String::from_str("error while deleting args of preprocessing step: ");
    message.append(rendered);
    message
}

/// The message that stands for a result that is no object with a message and
/// a name; `raw` is the result as it is stored.
pub fn non_serializable_message(raw: &str) -> (message: String)
    ensures
        message@ == "Non serializable error: "@ + raw@,
{
    let mut message = String::from_str("Non serializable error: ");
    message.append(raw);
    message
}

/// The error that stopped a flow update, as it is recorded on the parent flow.
pub fn internal_error(err: &StorageError) -> (e: SerializedError)
    ensures
        e.message == err.message,
        e.name@ == "InternalErr"@,
        e.step_id is None,
        e.exit_code is None,
{
    SerializedError {
        message: err.message.clone(),
        name: String::from_str("InternalErr"),
        step_id: None,
        exit_code: None,
    }
}

impl<'a> LogLine<'a> {
    /// The text of the line.
    pub open spec fn text(self) -> Seq<char> {
        match self {
            LogLine::JobError(err) => "Unexpected error during job execution:\n"@ + err.detail@,
            LogLine::FlowError(err) => "Unexpected error during flow job error handling:\n"@
                + err.message@,
        }
    }

    pub fn render(&self) -> (line: String)
        ensures
            line@ == self.text(),
    {
        match self {
            LogLine::JobError(err) => {
                let mut line = String::from_str("Unexpected error during job execution:\n");
                line.append(err.detail.as_str());
                line
            },
            LogLine::FlowError(err) => {
                let mut line = String::from_str(
                    "Unexpected error during flow job error handling:\n",
                );
                line.append(err.message.as_str());
                line
            },
        }
    }
}

impl MiniPulledJob {
    /// Whether the job is the preprocessor step of a flow.
    pub open spec fn spec_is_preprocessor(&self) -> bool {
        self.flow_step_id matches Some(step) && step@ == preprocessor_step()
    }

    #[verifier::when_used_as_spec(spec_is_preprocessor)]
    pub fn is_preprocessor(&self) -> (b: bool)
        ensures
            b == self.spec_is_preprocessor(),
    {
        match &self.flow_step_id {
            Some(step) => same_text(step.as_str(), "preprocessor"),
            None => false,
        }
    }

    /// The flow to tell of a failure of this job, and the step to name: the
    /// parent and the job, or, for a job without a parent, the job and no
    /// step.
    pub open spec fn spec_failing_flow(&self) -> (JobId, JobId) {
        match self.parent_job {
            Some(parent) => (parent, self.id),
            None => (self.id, JobId(0)),
        }
    }

    #[verifier::when_used_as_spec(spec_failing_flow)]
    pub fn failing_flow(&self) -> (pair: (JobId, JobId))
        ensures
            pair == self.spec_failing_flow(),
    {
        match self.parent_job {
            Some(parent) => (parent, self.id),
            None => (self.id, JobId::nil()),
        }
    }
}

/// The stages of processing a completion, in their order.
#[derive(Debug, Clone, Copy, PartialEq, Eq)]
pub enum ProcessStage {
    /// The result is written through to the cache.
    SaveCache,
    /// The job's arguments are discarded or replaced.
    UpdateArgs,
    /// The job's ledger row is written.
    Record,
    /// The parent flow is told.
    AdvanceFlow,
}

/// Where the processing of a completion stands after a stage.
#[derive(Debug, Clone, PartialEq, Eq)]
pub enum Progress {
    Next(ProcessStage),
    /// Nothing is left to do. The root job is handed on if the flow update
    /// reported one.
    Done(Option<MiniPulledJob>),
}

impl JobCompletion {
    /// Whether the arguments of the job are discarded or replaced: it is a
    /// preprocessor step, or it comes with preprocessed arguments.
    pub open spec fn updates_args(&self) -> bool {
        self.job.is_preprocessor() || self.preprocessed_args is Some
    }

    /// The stage that follows the cache write.
    pub open spec fn stage_after_cache(&self) -> ProcessStage {
        if self.updates_args() {
            ProcessStage::UpdateArgs
        } else {
            ProcessStage::Record
        }
    }

    /// The stage that processing starts with. A failed job is recorded at
    /// once; for a job that succeeded the cache write and the update of the
    /// arguments come first where they apply.
    pub open spec fn spec_first_stage(&self) -> ProcessStage {
        if !self.success {
            ProcessStage::Record
        } else if self.cached_res_path is Some {
            ProcessStage::SaveCache
        } else {
            self.stage_after_cache()
        }
    }

    /// Where processing stands once the ledger row is written: a step of a
    /// flow that knows its parent has the flow told, any other job is done.
    pub open spec fn after_record(&self) -> Progress {
        if self.job.flow_parent() is Some {
            Progress::Next(ProcessStage::AdvanceFlow)
        } else {
            Progress::Done(None)
        }
    }

    /// Whether this completion goes through a stage.
    pub open spec fn has_action(&self, stage: ProcessStage) -> bool {
        match stage {
            ProcessStage::SaveCache => self.success && self.cached_res_path is Some,
            ProcessStage::UpdateArgs => self.success && self.updates_args(),
            ProcessStage::Record => true,
            ProcessStage::AdvanceFlow => self.job.flow_parent() is Some,
        }
    }

    /// The action of a stage; `None` for a stage that this completion does not
    /// go through. A step of a flow has its flow advanced without a say on
    /// whether the flow stops early.
    pub open spec fn spec_action<'a>(
        &'a self,
        stage: ProcessStage,
        parsed: &Option<ErrorSummary>,
    ) -> Option<Action<'a>> {
        match stage {
            ProcessStage::SaveCache => match &self.cached_res_path {
                Some(path) => if self.success {
                    Some(Action::SaveInCache { job: &self.job, path, result: &self.result })
                } else {
                    None
                },
                None => None,
            },
            ProcessStage::UpdateArgs => if !self.success {
                None
            } else if self.job.is_preprocessor() {
                Some(Action::DiscardPreprocessorArgs { job: self.job.id })
            } else {
                match &self.preprocessed_args {
                    Some(args) => Some(Action::ReplaceArgs { job: self.job.id, args }),
                    None => None,
                }
            },
            ProcessStage::Record => if self.success {
                Some(
                    Action::AddCompletedJob {
                        job: &self.job,
                        result: &self.result,
                        result_columns: &self.result_columns,
                        mem_peak: self.mem_peak,
                        canceled_by: &self.canceled_by,
                        duration: self.duration,
                    },
                )
            } else {
                Some(
                    Action::AddCompletedJobError {
                        job: &self.job,
                        log: None,
                        mem_peak: self.mem_peak,
                        canceled_by: &self.canceled_by,
                        error: error_value(&self.result, parsed),
                    },
                )
            },
            ProcessStage::AdvanceFlow => match self.job.flow_parent() {
                Some(parent) => Some(
                    Action::UpdateFlow {
                        flow: parent,
                        step: self.job.id,
                        workspace_id: &self.job.workspace_id,
                        success: self.success,
                        result: if self.success {
                            FlowResult::Result(&self.result)
                        } else {
                            FlowResult::Wrapped(error_value(&self.result, parsed))
                        },
                        unrecoverable: false,
                        stop_early_override: None,
                    },
                ),
                None => None,
            },
        }
    }

    /// Where processing stands after a stage whose action had the given
    /// outcome: a failure is handed on as it is, and ends the processing.
    pub open spec fn spec_after(&self, stage: ProcessStage, outcome: Outcome) -> Result<
        Progress,
        StorageError,
    > {
        match outcome {
            Outcome::Failed(err) => Err(err),
            Outcome::Done(back) => Ok(
                match stage {
                    ProcessStage::SaveCache => Progress::Next(self.stage_after_cache()),
                    ProcessStage::UpdateArgs => Progress::Next(ProcessStage::Record),
                    ProcessStage::Record => self.after_record(),
                    ProcessStage::AdvanceFlow => Progress::Done(back),
                },
            ),
        }
    }

    /// The stage that processing starts with.
    #[verifier::when_used_as_spec(spec_first_stage)]
    pub fn first_stage(&self) -> (stage: ProcessStage)
        ensures
            stage == self.spec_first_stage(),
            self.has_action(stage),
    {
        if !self.success {
            ProcessStage::Record
        } else if self.cached_res_path.is_some() {
            ProcessStage::SaveCache
        } else {
            self.args_stage()
        }
    }

    fn args_stage(&self) -> (stage: ProcessStage)
        ensures
            stage == self.stage_after_cache(),
    {
        if self.job.is_preprocessor() || self.preprocessed_args.is_some() {
            ProcessStage::UpdateArgs
        } else {
            ProcessStage::Record
        }
    }

    /// The action of a stage; `None` for a stage that this completion does not
    /// go through. `parsed` is what the raw text of a failed job's result
    /// reads as, if that is an object holding a message and a name as strings.
    #[verifier::when_used_as_spec(spec_action)]
    pub fn action<'a>(&'a self, stage: ProcessStage, parsed: &Option<ErrorSummary>) -> (action:
        Option<Action<'a>>)
        ensures
            action == self.spec_action(stage, parsed),
            action is Some <==> self.has_action(stage),
    {
        match stage {
            ProcessStage::SaveCache => match &self.cached_res_path {
                Some(path) => if self.success {
                    Some(Action::SaveInCache { job: &self.job, path, result: &self.result })
                } else {
                    None
                },
                None => None,
            },
            ProcessStage::UpdateArgs => if !self.success {
                None
            } else if self.job.is_preprocessor() {
                Some(Action::DiscardPreprocessorArgs { job: self.job.id })
            } else {
                match &self.preprocessed_args {
                    Some(args) => Some(Action::ReplaceArgs { job: self.job.id, args }),
                    None => None,
                }
            },
            ProcessStage::Record => if self.success {
                Some(
                    Action::AddCompletedJob {
                        job: &self.job,
                        result: &self.result,
                        result_columns: &self.result_columns,
                        mem_peak: self.mem_peak,
                        canceled_by: &self.canceled_by,
                        duration: self.duration,
                    },
                )
            } else {
                Some(
                    Action::AddCompletedJobError {
                        job: &self.job,
                        log: None,
                        mem_peak: self.mem_peak,
                        canceled_by: &self.canceled_by,
                        error: error_value(&self.result, parsed),
                    },
                )
            },
            ProcessStage::AdvanceFlow => {
                if !self.job.is_flow_step {
                    return None;
                }
                match self.job.parent_job {
                    Some(parent) => Some(
                        Action::UpdateFlow {
                            flow: parent,
                            step: self.job.id,
                            workspace_id: &self.job.workspace_id,
                            success: self.success,
                            result: if self.success {
                                FlowResult::Result(&self.result)
                            } else {
                                FlowResult::Wrapped(error_value(&self.result, parsed))
                            },
                            unrecoverable: false,
                            stop_early_override: None,
                        },
                    ),
                    None => None,
                }
            },
        }
    }
}

/// Takes the processing of a completion one stage further.
///
/// `stage` is the stage whose action the caller carried out, `outcome` what
/// came of it. A failure ends the processing and is handed back as the error;
/// otherwise the stage that follows is named, or the processing is done.
pub fn process_completed_job(jc: &JobCompletion, stage: ProcessStage, outcome: Outcome) -> (next:
    Result<Progress, StorageError>)
    ensures
        next == jc.spec_after(stage, outcome),
        next matches Ok(Progress::Next(following)) ==> jc.has_action(stage) ==> jc.has_action(
            following,
        ),
{
    match outcome {
        Outcome::Failed(err) => Err(err),
        Outcome::Done(back) => Ok(
            match stage {
                ProcessStage::SaveCache => Progress::Next(jc.args_stage()),
                ProcessStage::UpdateArgs => Progress::Next(ProcessStage::Record),
                ProcessStage::Record => {
                    if jc.job.is_flow_step && jc.job.parent_job.is_some() {
                        Progress::Next(ProcessStage::AdvanceFlow)
                    } else {
                        Progress::Done(None)
                    }
                },
                ProcessStage::AdvanceFlow => Progress::Done(back),
            },
        ),
    }
}

} // verus!
