//! The whole of what follows the receipt of one completion: its processing
//! and, where that fails, the handling of the error.

use crate::completion::{ErrorSummary, JobCompletion};
use crate::dispatch::{
    process_completed_job, Action, JobRow, Outcome, ProcessStage, Progress,
};
use crate::handling::{handle_job_error, ErrorHandling, ErrorStage, Handling};
use crate::job::MiniPulledJob;
use vstd::prelude::*;

verus! {

/// Where the post-processing of a completion stands.
#[derive(Debug, Clone, PartialEq, Eq)]
pub enum Stage {
    /// The completion is being processed.
    Processing(ProcessStage),
    /// Processing failed; the error is being handled.
    Handling(ErrorHandling),
    /// Nothing is left to do. It holds the root job that the flow update
    /// reported, if the processing got that far and there was one.
    Finished(Option<MiniPulledJob>),
}

impl Stage {
    /// Post-processing starts with the first stage of processing.
    pub open spec fn spec_start(jc: &JobCompletion) -> Stage {
        Stage::Processing(jc.first_stage())
    }

    #[verifier::when_used_as_spec(spec_start)]
    pub fn start(jc: &JobCompletion) -> (stage: Stage)
        ensures
            stage == Stage::spec_start(jc),
            stage.has_action(jc),
    {
        Stage::Processing(jc.first_stage())
    }

    /// Whether the caller is asked for an action in this stage.
    pub open spec fn has_action(&self, jc: &JobCompletion) -> bool {
        match self {
            Stage::Processing(stage) => jc.has_action(*stage),
            Stage::Handling(handling) => handling.has_action(&jc.job),
            Stage::Finished(_) => false,
        }
    }

    /// The action that the caller is asked for; `None` when nothing is left to
    /// do.
    pub open spec fn spec_action<'a>(
        &'a self,
        jc: &'a JobCompletion,
        parsed: &Option<ErrorSummary>,
    ) -> Option<Action<'a>> {
        match self {
            Stage::Processing(stage) => jc.action(*stage, parsed),
            Stage::Handling(handling) => handling.action(&jc.job, jc.mem_peak, &jc.canceled_by),
            Stage::Finished(_) => None,
        }
    }

    /// The action that the caller is asked for. `parsed` is what the raw text
    /// of a failed job's result reads as, if that is an object holding a
    /// message and a name as strings, and nothing if it is not.
    #[verifier::when_used_as_spec(spec_action)]
    pub fn action<'a>(&'a self, jc: &'a JobCompletion, parsed: &Option<ErrorSummary>) -> (action:
        Option<Action<'a>>)
        ensures
            action == self.spec_action(jc, parsed),
            action is Some <==> self.has_action(jc),
    {
        match self {
            Stage::Processing(stage) => jc.action(*stage, parsed),
            Stage::Handling(handling) => handling.action(&jc.job, jc.mem_peak, &jc.canceled_by),
            Stage::Finished(_) => None,
        }
    }

    /// The stage that follows when the action of this one had the given
    /// outcome. A failure while processing starts the handling of the error,
    /// with the flow left free to recover; the handling ends without a root
    /// job.
    pub open spec fn spec_after(self, jc: &JobCompletion, outcome: Outcome) -> Stage {
        match self {
            Stage::Processing(stage) => match jc.spec_after(stage, outcome) {
                Ok(Progress::Next(following)) => Stage::Processing(following),
                Ok(Progress::Done(root)) => Stage::Finished(root),
                Err(err) => Stage::Handling(ErrorHandling::start(&jc.job, err, false)),
            },
            Stage::Handling(handling) => match handling.spec_after(&jc.job, outcome) {
                Handling::Next(following) => Stage::Handling(following),
                Handling::Done => Stage::Finished(None),
            },
            Stage::Finished(root) => Stage::Finished(root),
        }
    }

    /// The root job that a finished post-processing reports.
    pub fn root_job(&self) -> (root: Option<&MiniPulledJob>)
        ensures
            match self {
                Stage::Finished(Some(job)) => root == Some(job),
                _ => root is None,
            },
    {
        match self {
            Stage::Finished(Some(job)) => Some(job),
            _ => None,
        }
    }

    /// Whether nothing is left to do.
    pub fn is_finished(&self) -> (b: bool)
        ensures
            b == (self is Finished),
    {
        match self {
            Stage::Finished(_) => true,
            _ => false,
        }
    }
}

/// Takes the post-processing of a completion one stage further.
///
/// `stage` is the stage whose action the caller carried out, `outcome` what
/// came of it. Errors do not leave this function: the first failure while
/// processing turns into the handling of that error.
pub fn handle_receive_completed_job(jc: &JobCompletion, stage: Stage, outcome: Outcome) -> (next:
    Stage)
    ensures
        next == stage.spec_after(jc, outcome),
{
    match stage {
        Stage::Processing(stage) => match process_completed_job(jc, stage, outcome) {
            Ok(Progress::Next(following)) => Stage::Processing(following),
            Ok(Progress::Done(root)) => Stage::Finished(root),
            Err(err) => Stage::Handling(ErrorHandling::start(&jc.job, err, false)),
        },
        Stage::Handling(handling) => match handle_job_error(&jc.job, handling, outcome) {
            Handling::Next(following) => Stage::Handling(following),
            Handling::Done => Stage::Finished(None),
        },
        Stage::Finished(root) => Stage::Finished(root),
    }
}

impl Stage {
    /// How far the post-processing has come. The stages are gone through in
    /// this order, and none of them twice.
    pub open spec fn rank(self) -> nat {
        match self {
            Stage::Processing(ProcessStage::SaveCache) => 0,
            Stage::Processing(ProcessStage::UpdateArgs) => 1,
            Stage::Processing(ProcessStage::Record) => 2,
            Stage::Processing(ProcessStage::AdvanceFlow) => 3,
            Stage::Handling(handling) => match handling.stage {
                ErrorStage::RecordError => 4,
                ErrorStage::FailFlow => 5,
                ErrorStage::FetchParent { .. } => 6,
                ErrorStage::TerminateParent { .. } => 7,
            },
            Stage::Finished(_) => 8,
        }
    }

    /// Whether the action of this stage writes the ledger row of the job that
    /// completed: the row of its success or failure, or the row of the error
    /// that stopped its processing.
    pub open spec fn writes_row(self) -> bool {
        self == Stage::Processing(ProcessStage::Record) || (self matches Stage::Handling(handling)
            && handling.stage is RecordError)
    }

    /// Whether the action of this stage tells a flow of the job.
    pub open spec fn tells_flow(self) -> bool {
        self == Stage::Processing(ProcessStage::AdvanceFlow) || (self matches Stage::Handling(
            handling,
        ) && handling.stage is FailFlow)
    }
}

/// The stages whose actions are carried out when the post-processing is in
/// `stage` and the actions have the given outcomes, one after the other.
pub open spec fn visited(jc: &JobCompletion, stage: Stage, outcomes: Seq<Outcome>) -> Seq<Stage>
    decreases outcomes.len(),
{
    if outcomes.len() == 0 || stage is Finished {
        Seq::empty()
    } else {
        seq![stage] + visited(jc, stage.spec_after(jc, outcomes.first()), outcomes.drop_first())
    }
}

/// The stage that the post-processing is in after those actions.
pub open spec fn reached(jc: &JobCompletion, stage: Stage, outcomes: Seq<Outcome>) -> Stage
    decreases outcomes.len(),
{
    if outcomes.len() == 0 || stage is Finished {
        stage
    } else {
        reached(jc, stage.spec_after(jc, outcomes.first()), outcomes.drop_first())
    }
}

/// The number of ledger rows that are written for the job that completed.
pub open spec fn rows_written(jc: &JobCompletion, stage: Stage, outcomes: Seq<Outcome>) -> nat
    decreases outcomes.len(),
{
    if outcomes.len() == 0 || stage is Finished {
        0
    } else {
        let here: nat = if stage.writes_row() && outcomes.first() is Done {
            1
        } else {
            0
        };
        here + rows_written(jc, stage.spec_after(jc, outcomes.first()), outcomes.drop_first())
    }
}

/// Whether a write of the job's ledger row, or a flow update, is among the
/// actions that are carried out.
pub open spec fn settled(jc: &JobCompletion, stage: Stage, outcomes: Seq<Outcome>) -> bool
    decreases outcomes.len(),
{
    if outcomes.len() == 0 || stage is Finished {
        false
    } else {
        stage.writes_row() || stage.tells_flow() || settled(
            jc,
            stage.spec_after(jc, outcomes.first()),
            outcomes.drop_first(),
        )
    }
}

/// A stage that writes the job's row asks for a ledger row of that job, and a
/// stage that tells a flow asks for a flow update.
pub proof fn lemma_stage_actions(jc: &JobCompletion, stage: Stage, parsed: &Option<ErrorSummary>)
    ensures
        stage.spec_action(jc, parsed) is Some <==> stage.has_action(jc),
        stage.writes_row() ==> (stage.spec_action(jc, parsed) matches Some(action) && action.records(
            jc.job.id,
        )),
        stage.tells_flow() && stage.spec_action(jc, parsed) is Some ==> stage.spec_action(jc, parsed)->0
            is UpdateFlow,
        stage.spec_action(jc, parsed) matches Some(Action::SaveInCache { .. }) ==> stage
            == Stage::Processing(ProcessStage::SaveCache),
        stage.spec_action(jc, parsed) matches Some(Action::AddCompletedJob { .. }) ==> stage
            == Stage::Processing(ProcessStage::Record),
        stage.spec_action(jc, parsed) matches Some(Action::AddCompletedJobError { .. }) ==> stage.rank()
            >= 2,
{
}

/// Every action takes the post-processing to a later stage, whatever its
/// outcome.
pub proof fn lemma_after_is_later(jc: &JobCompletion, stage: Stage, outcome: Outcome)
    requires
        !(stage is Finished),
    ensures
        stage.spec_after(jc, outcome).rank() > stage.rank(),
{
}

/// The post-processing of a completion takes at most eight actions, and the
/// stages it goes through come in the order of their rank.
pub proof fn lemma_visited_in_order(jc: &JobCompletion, stage: Stage, outcomes: Seq<Outcome>)
    ensures
        visited(jc, stage, outcomes).len() + stage.rank() <= 8,
        forall|i: int|
            0 <= i < visited(jc, stage, outcomes).len() ==> stage.rank() + i <= (#[trigger] visited(
                jc,
                stage,
                outcomes,
            )[i]).rank() < 8,
        forall|i: int, j: int|
            0 <= i < j < visited(jc, stage, outcomes).len() ==> (#[trigger] visited(
                jc,
                stage,
                outcomes,
            )[i]).rank() < (#[trigger] visited(jc, stage, outcomes)[j]).rank(),
    decreases outcomes.len(),
{
    if outcomes.len() > 0 && !(stage is Finished) {
        let next = stage.spec_after(jc, outcomes.first());
        let rest = outcomes.drop_first();
        lemma_after_is_later(jc, stage, outcomes.first());
        lemma_visited_in_order(jc, next, rest);
        let all = visited(jc, stage, outcomes);
        let tail = visited(jc, next, rest);
        assert forall|i: int| 0 <= i < all.len() implies stage.rank() + i <= (#[trigger] all[i]).rank()
            < 8 by {
            if i > 0 {
                assert(all[i] == tail[i - 1]);
            }
        }
        assert forall|i: int, j: int| 0 <= i < j < all.len() implies (#[trigger] all[i]).rank() < (
        #[trigger] all[j]).rank() by {
            assert(all[j] == tail[j - 1]);
            if i > 0 {
                assert(all[i] == tail[i - 1]);
            }
        }
    }
}

/// The cache is written before any ledger row: where the actions of a
/// post-processing hold a cache write and the insertion of a ledger row, the
/// cache write comes first.
pub proof fn lemma_cache_write_precedes_ledger_write(
    jc: &JobCompletion,
    parsed: &Option<ErrorSummary>,
    outcomes: Seq<Outcome>,
    cache: int,
    ledger: int,
)
    requires
        0 <= cache < visited(jc, Stage::start(jc), outcomes).len(),
        0 <= ledger < visited(jc, Stage::start(jc), outcomes).len(),
        visited(jc, Stage::start(jc), outcomes)[cache].spec_action(jc, parsed) matches Some(
            Action::SaveInCache { .. },
        ),
        visited(jc, Stage::start(jc), outcomes)[ledger].spec_action(jc, parsed) matches Some(a) && (a
            is AddCompletedJob || a is AddCompletedJobError),
    ensures
        cache < ledger,
{
    let stages = visited(jc, Stage::start(jc), outcomes);
    lemma_visited_in_order(jc, Stage::start(jc), outcomes);
    lemma_stage_actions(jc, stages[cache], parsed);
    lemma_stage_actions(jc, stages[ledger], parsed);
    assert(stages[cache].rank() == 0);
    assert(stages[ledger].rank() >= 2);
    if ledger < cache {
        assert(stages[ledger].rank() < stages[cache].rank());
    }
}

/// The writes of a post-processing come in one order: the cache, the job's
/// arguments, the job's ledger row, the flow. Nothing comes before a cache
/// write, only a cache write comes before an update of the arguments, and
/// only those two come before the row of a job that succeeded.
pub proof fn lemma_writes_come_in_order(
    jc: &JobCompletion,
    parsed: &Option<ErrorSummary>,
    outcomes: Seq<Outcome>,
    earlier: int,
    later: int,
)
    requires
        0 <= earlier < later < visited(jc, Stage::start(jc), outcomes).len(),
    ensures
        ({
            let first = visited(jc, Stage::start(jc), outcomes)[earlier].spec_action(jc, parsed);
            let second = visited(jc, Stage::start(jc), outcomes)[later].spec_action(jc, parsed);
            &&& first is Some && second is Some
            &&& !(second->0 is SaveInCache)
            &&& second->0 is DiscardPreprocessorArgs || second->0 is ReplaceArgs ==> first->0
                is SaveInCache
            &&& second->0 is AddCompletedJob ==> first->0 is SaveInCache || first->0
                is DiscardPreprocessorArgs || first->0 is ReplaceArgs
            &&& first->0 is UpdateFlow ==> !(second->0 is AddCompletedJob)
        }),
{
    let stages = visited(jc, Stage::start(jc), outcomes);
    lemma_visited_in_order(jc, Stage::start(jc), outcomes);
    lemma_reachable_stages_have_actions(jc, Stage::start(jc), outcomes);
    assert(stages[earlier].rank() < stages[later].rank());
    lemma_stage_actions(jc, stages[earlier], parsed);
    lemma_stage_actions(jc, stages[later], parsed);
}

proof fn lemma_reachable_stages_have_actions(
    jc: &JobCompletion,
    stage: Stage,
    outcomes: Seq<Outcome>,
)
    requires
        stage is Finished || stage.has_action(jc),
    ensures
        forall|i: int|
            0 <= i < visited(jc, stage, outcomes).len() ==> (#[trigger] visited(
                jc,
                stage,
                outcomes,
            )[i]).has_action(jc),
    decreases outcomes.len(),
{
    if outcomes.len() > 0 && !(stage is Finished) {
        let next = stage.spec_after(jc, outcomes.first());
        let rest = outcomes.drop_first();
        lemma_reachable_stages_have_actions(jc, next, rest);
        let all = visited(jc, stage, outcomes);
        let tail = visited(jc, next, rest);
        assert forall|i: int| 0 <= i < all.len() implies (#[trigger] all[i]).has_action(jc) by {
            if i > 0 {
                assert(all[i] == tail[i - 1]);
            }
        }
    }
}

/// The index of the first outcome that is a failure; the number of outcomes
/// if none is.
pub open spec fn first_failure(outcomes: Seq<Outcome>) -> int
    decreases outcomes.len(),
{
    if outcomes.len() == 0 || outcomes.first() is Failed {
        0
    } else {
        1 + first_failure(outcomes.drop_first())
    }
}

impl MiniPulledJob {
    /// Whether the handling of an error records the job: it does unless the
    /// job is in a flow and knows no parent.
    pub open spec fn recorded_on_error(&self) -> bool {
        !(self.in_flow() && self.parent_job is None)
    }
}

proof fn lemma_first_failure_in_bounds(outcomes: Seq<Outcome>)
    ensures
        0 <= first_failure(outcomes) <= outcomes.len(),
    decreases outcomes.len(),
{
    if outcomes.len() > 0 {
        lemma_first_failure_in_bounds(outcomes.drop_first());
    }
}

proof fn lemma_no_rows_late(jc: &JobCompletion, stage: Stage, outcomes: Seq<Outcome>)
    requires
        stage.rank() >= 5,
    ensures
        rows_written(jc, stage, outcomes) == 0,
    decreases outcomes.len(),
{
    if outcomes.len() > 0 && !(stage is Finished) {
        lemma_after_is_later(jc, stage, outcomes.first());
        lemma_no_rows_late(jc, stage.spec_after(jc, outcomes.first()), outcomes.drop_first());
    }
}

proof fn lemma_rows_from(jc: &JobCompletion, stage: ProcessStage, outcomes: Seq<Outcome>)
    requires
        reached(jc, Stage::Processing(stage), outcomes) is Finished,
    ensures
        ({
            let f = first_failure(outcomes);
            let stages = visited(jc, Stage::Processing(stage), outcomes);
            let rows = rows_written(jc, Stage::Processing(stage), outcomes);
            let first: nat = if stage is AdvanceFlow {
                0
            } else {
                1
            };
            &&& 0 <= f <= outcomes.len()
            &&& f >= stages.len() ==> rows == first
            &&& f < stages.len() ==> {
                let kept: nat = if stages[f] == Stage::Processing(ProcessStage::AdvanceFlow) {
                    first
                } else {
                    0
                };
                let added: nat = if jc.job.recorded_on_error() && outcomes[f + 1] is Done {
                    1
                } else {
                    0
                };
                &&& stages[f] is Processing
                &&& f + 1 < outcomes.len()
                &&& rows == kept + added
            }
        }),
    decreases 4 - Stage::Processing(stage).rank(),
{
    let here = Stage::Processing(stage);
    let rest = outcomes.drop_first();
    let next = here.spec_after(jc, outcomes.first());
    assert(reached(jc, next, rest) is Finished);
    lemma_after_is_later(jc, here, outcomes.first());
    match next {
        Stage::Processing(following) => {
            lemma_rows_from(jc, following, rest);
            lemma_visited_in_order(jc, next, rest);
        },
        Stage::Finished(_) => {
            lemma_first_failure_in_bounds(rest);
        },
        Stage::Handling(_) => {
            let then = next.spec_after(jc, rest.first());
            let wrote: nat = if next.writes_row() && rest.first() is Done {
                1
            } else {
                0
            };
            lemma_after_is_later(jc, next, rest.first());
            lemma_no_rows_late(jc, then, rest.drop_first());
            assert(rows_written(jc, next, rest) == wrote + rows_written(
                jc,
                then,
                rest.drop_first(),
            ));
        },
    }
}

/// Where none of the actions fails, the post-processing of a completion
/// writes exactly one ledger row for the job: the row of its success if it
/// succeeded, the row of its failure if it failed.
pub proof fn lemma_one_row_where_nothing_fails(jc: &JobCompletion, outcomes: Seq<Outcome>)
    requires
        reached(jc, Stage::start(jc), outcomes) is Finished,
        first_failure(outcomes) >= visited(jc, Stage::start(jc), outcomes).len(),
    ensures
        rows_written(jc, Stage::start(jc), outcomes) == 1,
{
    lemma_rows_from(jc, jc.first_stage(), outcomes);
}

/// Where an action fails, the first failure stops the processing, and the
/// handling of the error makes up for a row that was not written: it records
/// the job unless the job is in a flow and knows no parent. So the job has the
/// row that the processing wrote, which it did only if nothing but the flow
/// update failed, and the row that the handling wrote, if that was asked for
/// and done. That makes one row, none, or two.
pub proof fn lemma_rows_where_an_action_fails(jc: &JobCompletion, outcomes: Seq<Outcome>)
    requires
        reached(jc, Stage::start(jc), outcomes) is Finished,
        first_failure(outcomes) < visited(jc, Stage::start(jc), outcomes).len(),
    ensures
        ({
            let f = first_failure(outcomes);
            let failed = visited(jc, Stage::start(jc), outcomes)[f];
            let kept: nat = if failed == Stage::Processing(ProcessStage::AdvanceFlow) {
                1
            } else {
                0
            };
            let added: nat = if jc.job.recorded_on_error() && outcomes[f + 1] is Done {
                1
            } else {
                0
            };
            &&& 0 <= f && f + 1 < outcomes.len()
            &&& failed is Processing
            &&& rows_written(jc, Stage::start(jc), outcomes) == kept + added
        }),
{
    lemma_rows_from(jc, jc.first_stage(), outcomes);
    lemma_visited_in_order(jc, Stage::start(jc), outcomes);
}

proof fn lemma_settled_from(jc: &JobCompletion, stage: Stage, outcomes: Seq<Outcome>)
    requires
        reached(jc, stage, outcomes) is Finished,
        stage.rank() <= 2 || (stage matches Stage::Handling(handling) && !(handling.stage
            is FetchParent) && !(handling.stage is TerminateParent)),
    ensures
        settled(jc, stage, outcomes),
    decreases 8 - stage.rank(),
{
    if !stage.writes_row() && !stage.tells_flow() {
        let next = stage.spec_after(jc, outcomes.first());
        lemma_after_is_later(jc, stage, outcomes.first());
        lemma_settled_from(jc, next, outcomes.drop_first());
    }
}

/// No completion is dropped: a post-processing that has finished has asked
/// for the ledger row of the job or for a flow update, whatever failed on the
/// way.
pub proof fn lemma_no_completion_is_dropped(jc: &JobCompletion, outcomes: Seq<Outcome>)
    requires
        reached(jc, Stage::start(jc), outcomes) is Finished,
    ensures
        settled(jc, Stage::start(jc), outcomes),
{
    lemma_settled_from(jc, Stage::start(jc), outcomes);
}

/// What the job store holds of the job's arguments after a post-processing
/// whose actions had the given outcomes. An action that failed changed
/// nothing.
pub open spec fn args_after<'a>(
    jc: &'a JobCompletion,
    parsed: &Option<ErrorSummary>,
    stage: Stage,
    outcomes: Seq<Outcome>,
    row: JobRow<'a>,
) -> JobRow<'a>
    decreases outcomes.len(),
{
    if outcomes.len() == 0 || stage is Finished {
        row
    } else {
        let here = match stage.spec_action(jc, parsed) {
            Some(action) => if outcomes.first() is Done {
                action.spec_args_after(row)
            } else {
                row
            },
            None => row,
        };
        args_after(jc, parsed, stage.spec_after(jc, outcomes.first()), outcomes.drop_first(), here)
    }
}

/// A job that is marked preprocessed stays so: no post-processing of any
/// completion takes the mark away, whatever fails on the way, and so no
/// number of deliveries of one completion does.
pub proof fn lemma_preprocessed_stays<'a>(
    jc: &'a JobCompletion,
    parsed: &Option<ErrorSummary>,
    stage: Stage,
    outcomes: Seq<Outcome>,
    row: JobRow<'a>,
)
    requires
        row.preprocessed,
    ensures
        args_after(jc, parsed, stage, outcomes, row).preprocessed,
    decreases outcomes.len(),
{
    if outcomes.len() > 0 && !(stage is Finished) {
        let here = match stage.spec_action(jc, parsed) {
            Some(action) => if outcomes.first() is Done {
                action.spec_args_after(row)
            } else {
                row
            },
            None => row,
        };
        lemma_preprocessed_stays(
            jc,
            parsed,
            stage.spec_after(jc, outcomes.first()),
            outcomes.drop_first(),
            here,
        );
    }
}

/// The completion of a preprocessor step that is delivered again finds the
/// job marked and leaves its arguments as the first delivery left them.
pub proof fn lemma_discarding_twice_is_discarding_once<'a>(
    jc: &'a JobCompletion,
    parsed: &Option<ErrorSummary>,
    first: Seq<Outcome>,
    second: Seq<Outcome>,
    row: JobRow<'a>,
)
    requires
        jc.job.is_preprocessor(),
        args_after(jc, parsed, Stage::start(jc), first, row).preprocessed,
    ensures
        ({
            let once = args_after(jc, parsed, Stage::start(jc), first, row);
            args_after(jc, parsed, Stage::start(jc), second, once) == once
        }),
{
    let once = args_after(jc, parsed, Stage::start(jc), first, row);
    lemma_discarding_keeps(jc, parsed, Stage::start(jc), second, once);
}

proof fn lemma_discarding_keeps<'a>(
    jc: &'a JobCompletion,
    parsed: &Option<ErrorSummary>,
    stage: Stage,
    outcomes: Seq<Outcome>,
    row: JobRow<'a>,
)
    requires
        jc.job.is_preprocessor(),
        row.preprocessed,
    ensures
        args_after(jc, parsed, stage, outcomes, row) == row,
    decreases outcomes.len(),
{
    if outcomes.len() > 0 && !(stage is Finished) {
        lemma_discarding_keeps(
            jc,
            parsed,
            stage.spec_after(jc, outcomes.first()),
            outcomes.drop_first(),
            row,
        );
    }
}

} // verus!
