//! What is done when the processing of a completion failed.
//!
//! A job outside any flow gets a line in its logs and a ledger row that says
//! it failed. A job in a flow has the flow told of the failure; if the job is
//! a step with a parent it gets its line and its row first, whether or not
//! they can be written. If telling the flow fails too and there is a parent,
//! the parent is looked up and, where it is still queued, ended with a row of
//! its own.

use crate::dispatch::{Action, ErrorValue, FlowResult, LogLine, Outcome, StorageError};
use crate::job::{CanceledBy, JobId, MiniPulledJob};
use vstd::prelude::*;

verus! {

/// What is asked for to record a job whose processing failed with `err`: a
/// line in the job's logs that quotes the error, then the ledger row of a
/// failed job with the error for a value.
pub open spec fn spec_handle_non_flow_job_error<'a>(
    job: &'a MiniPulledJob,
    mem_peak: i32,
    canceled_by: &'a Option<CanceledBy>,
    err: &'a StorageError,
) -> Action<'a> {
    Action::AddCompletedJobError {
        job,
        log: Some(LogLine::JobError(err)),
        mem_peak,
        canceled_by,
        error: ErrorValue::Storage(err),
    }
}

/// What is asked for to record a job whose processing failed with `err`.
#[verifier::when_used_as_spec(spec_handle_non_flow_job_error)]
pub fn handle_non_flow_job_error<'a>(
    job: &'a MiniPulledJob,
    mem_peak: i32,
    canceled_by: &'a Option<CanceledBy>,
    err: &'a StorageError,
) -> (action: Action<'a>)
    ensures
        action == spec_handle_non_flow_job_error(job, mem_peak, canceled_by, err),
{
    Action::AddCompletedJobError {
        job,
        log: Some(LogLine::JobError(err)),
        mem_peak,
        canceled_by,
        error: ErrorValue::Storage(err),
    }
}

/// The stages of handling an error.
#[derive(Debug, Clone, PartialEq, Eq)]
pub enum ErrorStage {
    /// The job is recorded as failed.
    RecordError,
    /// The flow is told of the failure.
    FailFlow,
    /// Telling the flow failed with `flow_err`; the parent is looked up.
    FetchParent { flow_err: StorageError },
    /// The parent was found queued; it is ended.
    TerminateParent { flow_err: StorageError, parent: MiniPulledJob },
}

/// The handling of one error of one job.
#[derive(Debug, Clone, PartialEq, Eq)]
pub struct ErrorHandling {
    /// The error that is handled.
    pub err: StorageError,
    /// Whether the flow is told that it cannot recover.
    pub unrecoverable: bool,
    pub stage: ErrorStage,
}

/// Where the handling of an error stands after a stage.
#[derive(Debug, Clone, PartialEq, Eq)]
pub enum Handling {
    Next(ErrorHandling),
    Done,
}

impl ErrorHandling {
    /// The handling of `err` at its start: a flow, or a step that does not
    /// know its parent, has the flow told at once; every other job is recorded
    /// first.
    pub open spec fn spec_start(job: &MiniPulledJob, err: StorageError, unrecoverable: bool)
        -> ErrorHandling {
        ErrorHandling {
            err,
            unrecoverable,
            stage: if job.in_flow() && job.parent_job is None {
                ErrorStage::FailFlow
            } else {
                ErrorStage::RecordError
            },
        }
    }

    #[verifier::when_used_as_spec(spec_start)]
    pub fn start(job: &MiniPulledJob, err: StorageError, unrecoverable: bool) -> (handling:
        ErrorHandling)
        ensures
            handling == Self::spec_start(job, err, unrecoverable),
            handling.has_action(job),
    {
        let stage = if job.in_flow() && job.parent_job.is_none() {
            ErrorStage::FailFlow
        } else {
            ErrorStage::RecordError
        };
        ErrorHandling { err, unrecoverable, stage }
    }

    /// Whether the stage that the handling is in has an action. Only the
    /// lookup of a parent that the job does not have is none.
    pub open spec fn has_action(&self, job: &MiniPulledJob) -> bool {
        self.stage is FetchParent ==> job.parent_job is Some
    }

    /// The action of the stage that the handling is in.
    pub open spec fn spec_action<'a>(
        &'a self,
        job: &'a MiniPulledJob,
        mem_peak: i32,
        canceled_by: &'a Option<CanceledBy>,
    ) -> Option<Action<'a>> {
        match &self.stage {
            ErrorStage::RecordError => Some(
                handle_non_flow_job_error(job, mem_peak, canceled_by, &self.err),
            ),
            ErrorStage::FailFlow => Some(
                Action::UpdateFlow {
                    flow: job.failing_flow().0,
                    step: job.failing_flow().1,
                    workspace_id: &job.workspace_id,
                    success: false,
                    result: FlowResult::Wrapped(ErrorValue::Storage(&self.err)),
                    unrecoverable: self.unrecoverable,
                    stop_early_override: None,
                },
            ),
            ErrorStage::FetchParent { .. } => match job.parent_job {
                Some(parent) => Some(
                    Action::GetQueuedJob { id: parent, workspace_id: &job.workspace_id },
                ),
                None => None,
            },
            ErrorStage::TerminateParent { flow_err, parent } => Some(
                Action::AddCompletedJobError {
                    job: parent,
                    log: Some(LogLine::FlowError(flow_err)),
                    mem_peak,
                    canceled_by,
                    error: ErrorValue::Internal(flow_err),
                },
            ),
        }
    }

    #[verifier::when_used_as_spec(spec_action)]
    pub fn action<'a>(
        &'a self,
        job: &'a MiniPulledJob,
        mem_peak: i32,
        canceled_by: &'a Option<CanceledBy>,
    ) -> (action: Option<Action<'a>>)
        ensures
            action == self.spec_action(job, mem_peak, canceled_by),
            action is Some <==> self.has_action(job),
    {
        match &self.stage {
            ErrorStage::RecordError => Some(
                handle_non_flow_job_error(job, mem_peak, canceled_by, &self.err),
            ),
            ErrorStage::FailFlow => {
                let (flow, step) = job.failing_flow();
                Some(
                    Action::UpdateFlow {
                        flow,
                        step,
                        workspace_id: &job.workspace_id,
                        success: false,
                        result: FlowResult::Wrapped(ErrorValue::Storage(&self.err)),
                        unrecoverable: self.unrecoverable,
                        stop_early_override: None,
                    },
                )
            },
            ErrorStage::FetchParent { .. } => match job.parent_job {
                Some(parent) => Some(
                    Action::GetQueuedJob { id: parent, workspace_id: &job.workspace_id },
                ),
                None => None,
            },
            ErrorStage::TerminateParent { flow_err, parent } => Some(
                Action::AddCompletedJobError {
                    job: parent,
                    log: Some(LogLine::FlowError(flow_err)),
                    mem_peak,
                    canceled_by,
                    error: ErrorValue::Internal(flow_err),
                },
            ),
        }
    }

    /// Where the handling stands after its stage, whose action had the given
    /// outcome.
    ///
    /// Recording the job is worth a try and no more: whatever came of it, a
    /// job in a flow has the flow told next, and any other job is done. A flow
    /// update that failed has the parent looked up, if there is one. A parent
    /// that was found is ended, and with that, or without a parent, the
    /// handling is done.
    pub open spec fn spec_after(self, job: &MiniPulledJob, outcome: Outcome) -> Handling {
        match self.stage {
            ErrorStage::RecordError => if job.in_flow() {
                Handling::Next(ErrorHandling { stage: ErrorStage::FailFlow, ..self })
            } else {
                Handling::Done
            },
            ErrorStage::FailFlow => match outcome {
                Outcome::Failed(flow_err) => if job.parent_job is Some {
                    Handling::Next(
                        ErrorHandling { stage: ErrorStage::FetchParent { flow_err }, ..self },
                    )
                } else {
                    Handling::Done
                },
                Outcome::Done(_) => Handling::Done,
            },
            ErrorStage::FetchParent { flow_err } => match outcome {
                Outcome::Done(Some(parent)) => Handling::Next(
                    ErrorHandling {
                        stage: ErrorStage::TerminateParent { flow_err, parent },
                        ..self
                    },
                ),
                _ => Handling::Done,
            },
            ErrorStage::TerminateParent { .. } => Handling::Done,
        }
    }
}

/// Takes the handling of an error one stage further.
///
/// `handling` is in the stage whose action the caller carried out, `outcome`
/// is what came of it. The handling itself never fails: a failure of one of
/// its actions decides what it tries next.
pub fn handle_job_error(job: &MiniPulledJob, handling: ErrorHandling, outcome: Outcome) -> (next:
    Handling)
    ensures
        next == handling.spec_after(job, outcome),
        next matches Handling::Next(following) ==> following.has_action(job) && following.err
            == handling.err && following.unrecoverable == handling.unrecoverable,
{
    let ErrorHandling { err, unrecoverable, stage } = handling;
    match stage {
        ErrorStage::RecordError => if job.in_flow() {
            Handling::Next(ErrorHandling { err, unrecoverable, stage: ErrorStage::FailFlow })
        } else {
            Handling::Done
        },
        ErrorStage::FailFlow => match outcome {
            Outcome::Failed(flow_err) => if job.parent_job.is_some() {
                Handling::Next(
                    ErrorHandling { err, unrecoverable, stage: ErrorStage::FetchParent { flow_err } },
                )
            } else {
                Handling::Done
            },
            Outcome::Done(_) => Handling::Done,
        },
        ErrorStage::FetchParent { flow_err } => match outcome {
            Outcome::Done(Some(parent)) => Handling::Next(
                ErrorHandling {
                    err,
                    unrecoverable,
                    stage: ErrorStage::TerminateParent { flow_err, parent },
                },
            ),
            _ => Handling::Done,
        },
        ErrorStage::TerminateParent { .. } => Handling::Done,
    }
}

} // verus!
