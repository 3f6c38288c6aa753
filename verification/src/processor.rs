//! The background processor: it reads its receiver, hands out what is to be
//! processed, and decides when the worker has to go down.
//!
//! The caller runs the loop. It asks the processor for a directive, does what
//! the directive says, and asks again, until the processor has finished.

use crate::completion::{JobCompletion, SendResult, SendResultPayload, UpdateFlow};
use crate::job::JobId;
use crate::receiver::{Inbox, InboxView, Received};
use crate::text::same_text;
use vstd::prelude::*;
use vstd::string::*;

verus! {

/// What follows the post-processing of a completion.
#[derive(Debug, Clone, Copy, PartialEq, Eq)]
pub enum Reaction {
    /// Nothing.
    Continue,
    /// The kill-pill is sent and the loop is left: the init script failed.
    Exit,
    /// The configuration row of the worker group is rewritten with its own
    /// value, then the kill-pill is sent: a dedicated worker ran a dependency
    /// job, so its script was redeployed.
    Restart,
}

/// What a reaction consists of.
#[derive(Debug, Clone, Copy, PartialEq, Eq)]
pub enum Effect {
    /// The configuration row of the worker group is rewritten with its own
    /// value: see [`config_row_name`]. Every dedicated worker of the group
    /// sees its configuration change and restarts.
    TouchWorkerConfig,
    /// The kill-pill is sent.
    SendKillPill,
    /// The loop is left.
    LeaveLoop,
}

impl Reaction {
    /// What the reaction consists of, in the order in which it is done: the
    /// configuration row is rewritten before the kill-pill is sent, and the
    /// kill-pill is sent before the loop is left.
    pub open spec fn spec_effects(self) -> Seq<Effect> {
        match self {
            Reaction::Continue => Seq::empty(),
            Reaction::Exit => seq![Effect::SendKillPill, Effect::LeaveLoop],
            Reaction::Restart => seq![Effect::TouchWorkerConfig, Effect::SendKillPill],
        }
    }

    pub fn effects(&self) -> (effects: Vec<Effect>)
        ensures
            effects@ == self.spec_effects(),
    {
        let mut effects: Vec<Effect> = Vec::new();
        match self {
            Reaction::Continue => {},
            Reaction::Exit => {
                effects.push(Effect::SendKillPill);
                effects.push(Effect::LeaveLoop);
            },
            Reaction::Restart => {
                effects.push(Effect::TouchWorkerConfig);
                effects.push(Effect::SendKillPill);
            },
        }
        effects
    }
}

/// One step of what a directive asks for.
#[derive(Debug, Clone, Copy, PartialEq, Eq)]
pub enum Step {
    /// The latency is stored in the gauge.
    StoreLatency(u16),
    /// The completion is post-processed, under a span of its own.
    PostProcess,
    /// An effect of the reaction is carried out.
    React(Effect),
    /// The flow is advanced.
    AdvanceFlow,
    /// The latency since this time is stored in the gauge: see
    /// [`latency_secs`].
    StoreLatencySince(u64),
}

/// What the caller is asked to do next.
#[derive(Debug, PartialEq, Eq)]
pub enum Directive {
    /// A completion is to be post-processed: see [`Directive::steps`].
    Process { completion: JobCompletion, latency: u16, reaction: Reaction },
    /// The flow `update.flow` is to be advanced after `step`, with the success
    /// flag, the result and the stop-early override of `update`: see
    /// [`Directive::steps`].
    UpdateFlow { update: UpdateFlow, step: JobId, unrecoverable: bool, enqueued_at: u64 },
    /// A signal was taken note of. Ask again.
    Idle,
    /// Nothing is ready. Ask again when something was sent or a job of the
    /// worker has ended.
    Wait,
    /// The loop has ended and the processor is done.
    Finished,
}

impl Directive {
    /// The steps of a directive, in the order in which they are taken.
    ///
    /// For a completion the latency is stored first, then the completion is
    /// post-processed, and only then the reaction is carried out, effect by
    /// effect. For a request to advance a flow the flow is advanced first and
    /// the latency stored after. The other directives ask for no step.
    pub open spec fn spec_steps(&self) -> Seq<Step> {
        match self {
            Directive::Process { latency, reaction, .. } => seq![
                Step::StoreLatency(*latency),
                Step::PostProcess,
            ] + reaction.spec_effects().map_values(|effect: Effect| Step::React(effect)),
            Directive::UpdateFlow { enqueued_at, .. } => seq![
                Step::AdvanceFlow,
                Step::StoreLatencySince(*enqueued_at),
            ],
            _ => Seq::empty(),
        }
    }

    /// The steps of a directive, in the order in which they are taken.
    pub fn steps(&self) -> (steps: Vec<Step>)
        ensures
            steps@ == self.spec_steps(),
    {
        let mut steps: Vec<Step> = Vec::new();
        match self {
            Directive::Process { latency, reaction, .. } => {
                steps.push(Step::StoreLatency(*latency));
                steps.push(Step::PostProcess);
                let effects = reaction.effects();
                let mut i: usize = 0;
                while i < effects.len()
                    invariant
                        i <= effects.len(),
                        effects@ == reaction.spec_effects(),
                        steps@ == seq![Step::StoreLatency(*latency), Step::PostProcess]
                            + effects@.take(i as int).map_values(
                            |effect: Effect| Step::React(effect),
                        ),
                    decreases effects.len() - i,
                {
                    steps.push(Step::React(effects[i]));
                    assert(effects@.take(i + 1).map_values(|effect: Effect| Step::React(effect))
                        =~= effects@.take(i as int).map_values(
                        |effect: Effect| Step::React(effect),
                    ).push(Step::React(effects@[i as int])));
                    i = i + 1;
                }
                assert(effects@.take(i as int) =~= effects@);
            },
            Directive::UpdateFlow { enqueued_at, .. } => {
                steps.push(Step::AdvanceFlow);
                steps.push(Step::StoreLatencySince(*enqueued_at));
            },
            _ => {},
        }
        steps
    }
}

/// The seconds from `enqueued_at` to `now`, none if the clock went back, and
/// no more than sixteen bits hold.
pub open spec fn spec_latency_secs(enqueued_at: u64, now: u64) -> u16 {
    if now <= enqueued_at {
        0
    } else if now - enqueued_at >= 0xffff {
        0xffff
    } else {
        (now - enqueued_at) as u16
    }
}

#[verifier::when_used_as_spec(spec_latency_secs)]
pub fn latency_secs(enqueued_at: u64, now: u64) -> (latency: u16)
    ensures
        latency == spec_latency_secs(enqueued_at, now),
{
    if now <= enqueued_at {
        0
    } else {
        let elapsed: u64 = now - enqueued_at;
        if elapsed >= 0xffff {
            0xffff
        } else {
            elapsed as u16
        }
    }
}

/// The reaction to a completion. It is decided before the completion is
/// post-processed: the failure of a job with the init script's tag ends the
/// loop, and any dependency job on a dedicated worker restarts the workers of
/// its group.
pub open spec fn spec_reaction(jc: &JobCompletion, init_script_tag: Seq<char>, dedicated: bool)
    -> Reaction {
    if !jc.success && jc.job.tag@ == init_script_tag {
        Reaction::Exit
    } else if jc.job.kind.is_dependency() && dedicated {
        Reaction::Restart
    } else {
        Reaction::Continue
    }
}

/// The reaction to a completion.
pub fn reaction(jc: &JobCompletion, init_script_tag: &str, dedicated: bool) -> (r: Reaction)
    ensures
        r == spec_reaction(jc, init_script_tag@, dedicated),
{
    if !jc.success && same_text(jc.job.tag.as_str(), init_script_tag) {
        Reaction::Exit
    } else if jc.job.kind.is_dependency() && dedicated {
        Reaction::Restart
    } else {
        Reaction::Continue
    }
}

/// The name of the configuration row of a worker group.
pub fn config_row_name(worker_group: &str) -> (name: String)
    ensures
        name@ == "worker__"@ + worker_group@,
{
    let mut name = String::from_str("worker__");
    name.append(worker_group);
    name
}

/// The processor as a mathematical value.
pub struct ProcessorView {
    pub inbox: InboxView<SendResult>,
    pub init_script_tag: Seq<char>,
    pub is_dedicated_worker: bool,
    /// The loop is left at the next directive.
    pub leaving: bool,
    /// The loop has ended.
    pub done: bool,
}

impl ProcessorView {
    /// Whether the next directive reads the receiver.
    pub open spec fn reads(self) -> bool {
        !self.done && !self.leaving
    }

    /// The processor is not both about to leave its loop and done, and its
    /// receiver is well formed.
    pub open spec fn well_formed(self) -> bool {
        self.inbox.well_formed() && !(self.leaving && self.done)
    }

    /// The next directive.
    ///
    /// A processor that is done, or that reacted to the last completion by
    /// leaving its loop, has finished, and reads nothing. Otherwise the
    /// receiver is read: a completion is handed out with its latency and the
    /// reaction to it; a request to advance a flow is handed out for the flow
    /// itself, which cannot recover; a signal leaves nothing to do; and the
    /// end of the stream is the end of the loop.
    pub open spec fn directive(self, same_worker_queue_size: u16, now: u64) -> Directive {
        if !self.reads() {
            Directive::Finished
        } else {
            match self.inbox.yields(same_worker_queue_size) {
                Received::Completion(sent) => match sent.result {
                    SendResultPayload::JobCompleted(completion) => Directive::Process {
                        completion,
                        latency: latency_secs(sent.time, now),
                        reaction: spec_reaction(
                            &completion,
                            self.init_script_tag,
                            self.is_dedicated_worker,
                        ),
                    },
                    SendResultPayload::UpdateFlow(update) => Directive::UpdateFlow {
                        update,
                        step: JobId(0),
                        unrecoverable: true,
                        enqueued_at: sent.time,
                    },
                },
                Received::WakeUp => Directive::Idle,
                Received::KillPill => Directive::Idle,
                Received::Pending => Directive::Wait,
                Received::EndOfStream => Directive::Finished,
            }
        }
    }

    /// The processor after its next directive.
    pub open spec fn after_next(self, same_worker_queue_size: u16, now: u64) -> ProcessorView {
        if !self.reads() {
            ProcessorView { leaving: false, done: true, ..self }
        } else {
            let directive = self.directive(same_worker_queue_size, now);
            ProcessorView {
                inbox: self.inbox.after_recv(same_worker_queue_size),
                leaving: directive matches Directive::Process { reaction: Reaction::Exit, .. },
                done: directive is Finished,
                ..self
            }
        }
    }
}

/// The background processor.
pub struct BackgroundProcessor {
    inbox: Inbox<SendResult>,
    init_script_tag: String,
    is_dedicated_worker: bool,
    leaving: bool,
    done: bool,
}

impl View for BackgroundProcessor {
    type V = ProcessorView;

    closed spec fn view(&self) -> ProcessorView {
        ProcessorView {
            inbox: self.inbox@,
            init_script_tag: self.init_script_tag@,
            is_dedicated_worker: self.is_dedicated_worker,
            leaving: self.leaving,
            done: self.done,
        }
    }
}

/// A processor that reads `job_completed_rx`. It is not done, and stays so
/// until its loop has ended.
pub fn start_background_processor(
    job_completed_rx: Inbox<SendResult>,
    init_script_tag: String,
    is_dedicated_worker: bool,
) -> (processor: BackgroundProcessor)
    ensures
        processor@ == (ProcessorView {
            inbox: job_completed_rx@,
            init_script_tag: init_script_tag@,
            is_dedicated_worker,
            leaving: false,
            done: false,
        }),
        job_completed_rx@.well_formed() ==> processor@.well_formed(),
{
    BackgroundProcessor {
        inbox: job_completed_rx,
        init_script_tag,
        is_dedicated_worker,
        leaving: false,
        done: false,
    }
}

impl BackgroundProcessor {
    /// Whether the loop has ended.
    pub fn is_done(&self) -> (done: bool)
        ensures
            done == self@.done,
    {
        self.done
    }

    /// Whether the kill-pill was observed.
    pub fn is_draining(&self) -> (draining: bool)
        ensures
            draining == self@.inbox.draining,
    {
        self.inbox.is_draining()
    }

    /// The number of results that are queued.
    pub fn queued(&self) -> (n: (usize, usize))
        ensures
            n.0 == self@.inbox.unbounded.len(),
            n.1 == self@.inbox.bounded.len(),
    {
        (self.inbox.unbounded_len(), self.inbox.bounded_len())
    }

    /// Queues a result on the unbounded queue.
    pub fn send_unbounded(&mut self, sent: SendResult)
        ensures
            final(self)@ == (ProcessorView {
                inbox: InboxView {
                    unbounded: old(self)@.inbox.unbounded.push(sent),
                    ..old(self)@.inbox
                },
                ..old(self)@
            }),
    {
        self.inbox.send_unbounded(sent);
    }

    /// Queues a result on the bounded queue if it has room, and hands the
    /// result back if it has none.
    pub fn try_send_bounded(&mut self, sent: SendResult) -> (refused: Option<SendResult>)
        ensures
            old(self)@.inbox.bounded.len() < old(self)@.inbox.bound ==> refused is None,
            old(self)@.inbox.bounded.len() < old(self)@.inbox.bound ==> final(self)@ == (
            ProcessorView {
                inbox: InboxView {
                    bounded: old(self)@.inbox.bounded.push(sent),
                    ..old(self)@.inbox
                },
                ..old(self)@
            }),
            old(self)@.inbox.bounded.len() >= old(self)@.inbox.bound ==> refused == Some(sent)
                && final(self)@ == old(self)@,
    {
        self.inbox.try_send_bounded(sent)
    }

    /// Raises the wake-up.
    pub fn notify_wake_up(&mut self)
        ensures
            final(self)@ == (ProcessorView {
                inbox: InboxView { wake_up: true, ..old(self)@.inbox },
                ..old(self)@
            }),
    {
        self.inbox.notify_wake_up();
    }

    /// Sends the kill-pill.
    pub fn send_kill_pill(&mut self)
        ensures
            final(self)@ == (ProcessorView {
                inbox: InboxView { kill_pill: true, ..old(self)@.inbox },
                ..old(self)@
            }),
    {
        self.inbox.send_kill_pill();
    }

    /// The next directive.
    ///
    /// `same_worker_queue_size` is the number of jobs that this worker still
    /// has in flight for itself, `now` the time in seconds on the clock that
    /// the queued results were stamped with.
    pub fn next(&mut self, same_worker_queue_size: u16, now: u64) -> (directive: Directive)
        ensures
            directive == old(self)@.directive(same_worker_queue_size, now),
            final(self)@ == old(self)@.after_next(same_worker_queue_size, now),
            old(self)@.well_formed() ==> final(self)@.well_formed(),
            final(self)@.done <==> directive is Finished,
    {
        if self.done || self.leaving {
            self.leaving = false;
            self.done = true;
            return Directive::Finished;
        }
        match self.inbox.recv(same_worker_queue_size) {
            Received::Completion(sent) => {
                let SendResult { result, time } = sent;
                match result {
                    SendResultPayload::JobCompleted(completion) => {
                        let reaction = reaction(
                            &completion,
                            self.init_script_tag.as_str(),
                            self.is_dedicated_worker,
                        );
                        self.leaving = matches!(reaction, Reaction::Exit);
                        Directive::Process {
                            completion,
                            latency: latency_secs(time, now),
                            reaction,
                        }
                    },
                    SendResultPayload::UpdateFlow(update) => Directive::UpdateFlow {
                        update,
                        step: JobId::nil(),
                        unrecoverable: true,
                        enqueued_at: time,
                    },
                }
            },
            Received::WakeUp => Directive::Idle,
            Received::KillPill => Directive::Idle,
            Received::Pending => Directive::Wait,
            Received::EndOfStream => {
                self.done = true;
                Directive::Finished
            },
        }
    }
}

/// Queues the completion of a job for the processor, stamped with the time
/// `now`. Completions that executors send go onto the unbounded queue, which
/// takes them without making the executor wait.
pub fn send_job_completed(job_completed_tx: &mut BackgroundProcessor, jc: JobCompletion, now: u64)
    ensures
        final(job_completed_tx)@ == (ProcessorView {
            inbox: InboxView {
                unbounded: old(job_completed_tx)@.inbox.unbounded.push(
                    SendResult { result: SendResultPayload::JobCompleted(jc), time: now },
                ),
                ..old(job_completed_tx)@.inbox
            },
            ..old(job_completed_tx)@
        }),
{
    job_completed_tx.send_unbounded(
        SendResult { result: SendResultPayload::JobCompleted(jc), time: now },
    );
}

/// The processor is done exactly from the directive on that says so: it is
/// not done before its loop has ended, it is done once it has, and whatever it
/// is asked then, it stays done, says so again, and reads nothing.
pub proof fn lemma_done_once_and_for_all(
    processor: ProcessorView,
    same_worker_queue_size: u16,
    now: u64,
)
    requires
        processor.well_formed(),
    ensures
        processor.after_next(same_worker_queue_size, now).well_formed(),
        processor.after_next(same_worker_queue_size, now).done <==> processor.directive(
            same_worker_queue_size,
            now,
        ) is Finished,
        processor.done ==> processor.after_next(same_worker_queue_size, now) == processor,
        processor.leaving ==> processor.after_next(same_worker_queue_size, now).inbox
            == processor.inbox,
{
}

/// While the processor reads, it reads as its receiver does: what it hands
/// out or takes note of is what the receiver yields, and the receiver is left
/// as a read leaves it. So what holds of a draining receiver holds of the
/// processor after the kill-pill.
pub proof fn lemma_processor_reads_its_receiver(
    processor: ProcessorView,
    same_worker_queue_size: u16,
    now: u64,
)
    requires
        processor.reads(),
    ensures
        processor.after_next(same_worker_queue_size, now).inbox == processor.inbox.after_recv(
            same_worker_queue_size,
        ),
        match processor.inbox.yields(same_worker_queue_size) {
            Received::Completion(sent) => match sent.result {
                SendResultPayload::JobCompleted(completion) => processor.directive(
                    same_worker_queue_size,
                    now,
                ) matches Directive::Process { completion: handed_out, .. } && handed_out
                    == completion,
                SendResultPayload::UpdateFlow(update) => processor.directive(
                    same_worker_queue_size,
                    now,
                ) matches Directive::UpdateFlow { update: handed_out, step, unrecoverable, .. }
                    && handed_out == update && step == JobId(0) && unrecoverable,
            },
            Received::WakeUp => processor.directive(same_worker_queue_size, now) is Idle,
            Received::KillPill => processor.directive(same_worker_queue_size, now) is Idle,
            Received::Pending => processor.directive(same_worker_queue_size, now) is Wait,
            Received::EndOfStream => processor.directive(same_worker_queue_size, now)
                is Finished,
        },
{
}

} // verus!
