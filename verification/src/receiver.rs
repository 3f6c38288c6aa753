//! The multi-source receiver: two queues of results and two signals, read
//! under a fixed priority.
//!
//! Results arrive on an unbounded queue, which never refuses an item, and on a
//! bounded one, which refuses items beyond its bound. A wake-up is a single
//! pending notice, however often it was raised. A kill-pill switches the
//! receiver to draining: from then on it hands out what is queued, reports no
//! signal any more and, once the worker has no job of its own in flight, ends
//! the stream.

use std::collections::VecDeque;
use vstd::multiset::Multiset;
use vstd::prelude::*;

verus! {

/// What one read of the receiver yields.
#[derive(Debug, PartialEq, Eq)]
pub enum Received<T> {
    /// The oldest result of the queue that had priority.
    Completion(T),
    /// Something changed; there is nothing to process.
    WakeUp,
    /// The kill-pill was observed; the receiver is draining from now on.
    KillPill,
    /// Nothing is ready. The reader asks again when something was sent or
    /// a job of the worker has ended.
    Pending,
    /// The receiver was drained; no further read yields anything else.
    EndOfStream,
}

/// The receiver as a mathematical value.
pub struct InboxView<T> {
    pub unbounded: Seq<T>,
    pub bounded: Seq<T>,
    pub bound: nat,
    pub wake_up: bool,
    pub kill_pill: bool,
    pub draining: bool,
}

impl<T> InboxView<T> {
    /// What a read yields.
    ///
    /// The unbounded queue is served first, then the bounded one. With both
    /// empty, a draining receiver ends the stream if the worker has no job of
    /// its own in flight, and has the reader ask again if it has. A receiver
    /// that is not draining reports a pending wake-up before a pending
    /// kill-pill, and with neither the reader waits.
    pub open spec fn yields(self, same_worker_queue_size: u16) -> Received<T> {
        if self.unbounded.len() > 0 {
            Received::Completion(self.unbounded.first())
        } else if self.bounded.len() > 0 {
            Received::Completion(self.bounded.first())
        } else if self.draining {
            if same_worker_queue_size == 0 {
                Received::EndOfStream
            } else {
                Received::Pending
            }
        } else if self.wake_up {
            Received::WakeUp
        } else if self.kill_pill {
            Received::KillPill
        } else {
            Received::Pending
        }
    }

    /// The receiver after a read.
    pub open spec fn after_recv(self, same_worker_queue_size: u16) -> InboxView<T> {
        if self.unbounded.len() > 0 {
            InboxView { unbounded: self.unbounded.drop_first(), ..self }
        } else if self.bounded.len() > 0 {
            InboxView { bounded: self.bounded.drop_first(), ..self }
        } else if self.draining {
            self
        } else if self.wake_up {
            InboxView { wake_up: false, ..self }
        } else if self.kill_pill {
            InboxView { kill_pill: false, draining: true, ..self }
        } else {
            self
        }
    }

    /// The bounded queue holds no more than its bound.
    pub open spec fn well_formed(self) -> bool {
        self.bounded.len() <= self.bound
    }

    /// The number of results that are queued.
    pub open spec fn queued(self) -> nat {
        self.unbounded.len() + self.bounded.len()
    }

    /// The results that a draining receiver hands out, read after read, until
    /// it ends the stream, when nothing is sent meanwhile and the worker has no
    /// job of its own in flight.
    pub open spec fn drained(self) -> Seq<T>
        decreases self.queued(),
    {
        let draining = InboxView { draining: true, ..self };
        match draining.yields(0) {
            Received::Completion(item) => seq![item] + draining.after_recv(0).drained(),
            _ => Seq::empty(),
        }
    }
}

/// The receiver. `T` is what the queues carry.
pub struct Inbox<T> {
    unbounded: VecDeque<T>,
    bounded: VecDeque<T>,
    bound: usize,
    wake_up: bool,
    kill_pill: bool,
    draining: bool,
}

impl<T> View for Inbox<T> {
    type V = InboxView<T>;

    closed spec fn view(&self) -> InboxView<T> {
        InboxView {
            unbounded: self.unbounded@,
            bounded: self.bounded@,
            bound: self.bound as nat,
            wake_up: self.wake_up,
            kill_pill: self.kill_pill,
            draining: self.draining,
        }
    }
}

impl<T> Inbox<T> {
    /// An empty receiver whose bounded queue takes up to `bound` results.
    pub fn new(bound: usize) -> (inbox: Inbox<T>)
        ensures
            inbox@.well_formed(),
            inbox@ == (InboxView::<T> {
                unbounded: Seq::empty(),
                bounded: Seq::empty(),
                bound: bound as nat,
                wake_up: false,
                kill_pill: false,
                draining: false,
            }),
    {
        Inbox {
            unbounded: VecDeque::new(),
            bounded: VecDeque::new(),
            bound,
            wake_up: false,
            kill_pill: false,
            draining: false,
        }
    }

    /// Queues a result on the unbounded queue, behind those already there.
    pub fn send_unbounded(&mut self, item: T)
        ensures
            final(self)@ == (InboxView { unbounded: old(self)@.unbounded.push(item), ..old(self)@ }),
    {
        self.unbounded.push_back(item);
    }

    /// Queues a result on the bounded queue if it has room, and hands the
    /// result back if it has none.
    pub fn try_send_bounded(&mut self, item: T) -> (refused: Option<T>)
        ensures
            old(self)@.bounded.len() < old(self)@.bound ==> refused is None && final(self)@ == (
            InboxView { bounded: old(self)@.bounded.push(item), ..old(self)@ }),
            old(self)@.bounded.len() >= old(self)@.bound ==> refused == Some(item) && final(self)@
                == old(self)@,
            old(self)@.well_formed() ==> final(self)@.well_formed(),
    {
        if self.bounded.len() < self.bound {
            self.bounded.push_back(item);
            None
        } else {
            Some(item)
        }
    }

    /// Raises the wake-up. Raising it again before it is read changes nothing.
    pub fn notify_wake_up(&mut self)
        ensures
            final(self)@ == (InboxView { wake_up: true, ..old(self)@ }),
    {
        self.wake_up = true;
    }

    /// Sends the kill-pill. It is observed by a later read, after the results
    /// that are ready then.
    pub fn send_kill_pill(&mut self)
        ensures
            final(self)@ == (InboxView { kill_pill: true, ..old(self)@ }),
    {
        self.kill_pill = true;
    }

    /// Whether the kill-pill was observed.
    pub fn is_draining(&self) -> (b: bool)
        ensures
            b == self@.draining,
    {
        self.draining
    }

    /// The number of results on the unbounded queue.
    pub fn unbounded_len(&self) -> (n: usize)
        ensures
            n == self@.unbounded.len(),
    {
        self.unbounded.len()
    }

    /// The number of results on the bounded queue.
    pub fn bounded_len(&self) -> (n: usize)
        ensures
            n == self@.bounded.len(),
    {
        self.bounded.len()
    }

    /// Reads the receiver once.
    ///
    /// `same_worker_queue_size` is the number of jobs that this worker still
    /// has in flight for itself; a draining receiver does not end the stream
    /// while it is above zero.
    pub fn recv(&mut self, same_worker_queue_size: u16) -> (received: Received<T>)
        ensures
            received == old(self)@.yields(same_worker_queue_size),
            final(self)@ == old(self)@.after_recv(same_worker_queue_size),
            old(self)@.well_formed() ==> final(self)@.well_formed(),
    {
        if let Some(item) = self.unbounded.pop_front() {
            return Received::Completion(item);
        }
        if let Some(item) = self.bounded.pop_front() {
            return Received::Completion(item);
        }
        if self.draining {
            if same_worker_queue_size == 0 {
                Received::EndOfStream
            } else {
                Received::Pending
            }
        } else if self.wake_up {
            self.wake_up = false;
            Received::WakeUp
        } else if self.kill_pill {
            self.kill_pill = false;
            self.draining = true;
            Received::KillPill
        } else {
            Received::Pending
        }
    }
}

/// A result of the bounded queue is handed out only when the unbounded queue
/// is empty, whatever the mode, and so in particular while draining.
pub proof fn lemma_unbounded_first<T>(inbox: InboxView<T>, same_worker_queue_size: u16)
    requires
        inbox.unbounded.len() > 0,
    ensures
        inbox.yields(same_worker_queue_size) == Received::Completion(inbox.unbounded.first()),
        inbox.after_recv(same_worker_queue_size).bounded == inbox.bounded,
{
}

/// Once the kill-pill was observed and the worker has no job of its own in
/// flight, every read either hands out a queued result, which leaves one
/// fewer, or ends the stream, which it does exactly when nothing is queued.
/// Each read yields exactly one of the two.
pub proof fn lemma_drain_step<T>(inbox: InboxView<T>)
    requires
        inbox.draining,
    ensures
        inbox.queued() == 0 <==> inbox.yields(0) == Received::<T>::EndOfStream,
        inbox.queued() > 0 <==> inbox.yields(0) is Completion,
        inbox.queued() > 0 ==> inbox.after_recv(0).queued() + 1 == inbox.queued(),
        inbox.after_recv(0).draining,
{
}

/// A draining receiver to which nothing more is sent ends the stream after
/// exactly as many reads as results were queued, and hands those results out
/// with all of the unbounded queue before any of the bounded queue, each queue
/// in the order of arrival.
pub proof fn lemma_drain_hands_out_queued_in_order<T>(inbox: InboxView<T>)
    ensures
        inbox.drained() == inbox.unbounded + inbox.bounded,
        inbox.drained().len() == inbox.queued(),
    decreases inbox.queued(),
{
    let draining = InboxView { draining: true, ..inbox };
    if inbox.unbounded.len() > 0 {
        let rest = draining.after_recv(0);
        lemma_drain_hands_out_queued_in_order(rest);
        assert(inbox.unbounded + inbox.bounded =~= seq![inbox.unbounded.first()] + (rest.unbounded
            + rest.bounded));
    } else if inbox.bounded.len() > 0 {
        let rest = draining.after_recv(0);
        lemma_drain_hands_out_queued_in_order(rest);
        assert(inbox.unbounded + inbox.bounded =~= seq![inbox.bounded.first()] + (rest.unbounded
            + rest.bounded));
    }
}

/// A draining receiver together with the worker it belongs to: the results
/// that the jobs which the worker still has in flight for itself will send,
/// and the results that were handed out so far.
pub struct DrainView<T> {
    pub inbox: InboxView<T>,
    /// What the worker's own jobs in flight will send, each one result, onto
    /// the unbounded queue.
    pub residue: Seq<T>,
    pub handed_out: Seq<T>,
    /// The stream has ended.
    pub ended: bool,
}

impl<T> DrainView<T> {
    /// The number of jobs that the worker has in flight for itself.
    pub open spec fn same_worker_queue_size(self) -> u16 {
        self.residue.len() as u16
    }

    /// One of the worker's own jobs ends and sends its result. Nothing
    /// happens when there is none, or when the stream has ended.
    pub open spec fn after_submit(self) -> DrainView<T> {
        if self.ended || self.residue.len() == 0 {
            self
        } else {
            DrainView {
                inbox: InboxView {
                    unbounded: self.inbox.unbounded.push(self.residue.first()),
                    ..self.inbox
                },
                residue: self.residue.drop_first(),
                ..self
            }
        }
    }

    /// The receiver is read once.
    pub open spec fn after_read(self) -> DrainView<T> {
        if self.ended {
            self
        } else {
            let inbox = self.inbox.after_recv(self.same_worker_queue_size());
            match self.inbox.yields(self.same_worker_queue_size()) {
                Received::Completion(item) => DrainView {
                    inbox,
                    handed_out: self.handed_out.push(item),
                    ..self
                },
                Received::EndOfStream => DrainView { inbox, ended: true, ..self },
                _ => DrainView { inbox, ..self },
            }
        }
    }

    /// What a schedule leads to: at each of its steps one of the worker's own
    /// jobs sends its result (`true`) or the receiver is read (`false`).
    pub open spec fn after(self, schedule: Seq<bool>) -> DrainView<T>
        decreases schedule.len(),
    {
        if schedule.len() == 0 {
            self
        } else if schedule.first() {
            self.after_submit().after(schedule.drop_first())
        } else {
            self.after_read().after(schedule.drop_first())
        }
    }

    /// The number of steps of a schedule that change anything.
    pub open spec fn steps_taken(self, schedule: Seq<bool>) -> nat
        decreases schedule.len(),
    {
        if schedule.len() == 0 {
            0
        } else {
            let next = if schedule.first() {
                self.after_submit()
            } else {
                self.after_read()
            };
            let here: nat = if next == self {
                0
            } else {
                1
            };
            here + next.steps_taken(schedule.drop_first())
        }
    }

    /// All results, wherever they are: handed out, queued, or still to be
    /// sent.
    pub open spec fn all(self) -> Multiset<T> {
        self.handed_out.to_multiset().add(self.inbox.unbounded.to_multiset()).add(
            self.inbox.bounded.to_multiset(),
        ).add(self.residue.to_multiset())
    }

    /// The steps that are left: every result still to be sent takes two,
    /// every queued result one, and the end of the stream one.
    pub open spec fn steps_left(self) -> nat {
        let end: nat = if self.ended {
            0
        } else {
            1
        };
        2 * self.residue.len() + self.inbox.queued() + end
    }

    /// A receiver that observed the kill-pill, with a worker whose jobs in
    /// flight can be counted in sixteen bits. A stream that has ended has
    /// nothing left to hand out.
    pub open spec fn well_formed(self) -> bool {
        &&& self.inbox.draining
        &&& self.residue.len() <= u16::MAX
        &&& self.ended ==> self.inbox.queued() == 0 && self.residue.len() == 0
    }
}

/// One step of a draining receiver and its worker loses no result and makes
/// none up, and unless it changes nothing it brings the end nearer by one.
pub proof fn lemma_drain_step_conserves<T>(drain: DrainView<T>, submit: bool)
    requires
        drain.well_formed(),
    ensures
        ({
            let next = if submit {
                drain.after_submit()
            } else {
                drain.after_read()
            };
            &&& next.well_formed()
            &&& next.all() == drain.all()
            &&& next == drain || next.steps_left() + 1 == drain.steps_left()
        }),
{
    broadcast use vstd::seq_lib::group_to_multiset_ensures;

    if !drain.ended {
        if submit {
            if drain.residue.len() > 0 {
                lemma_first_goes_elsewhere(drain.residue);
            }
        } else if drain.inbox.unbounded.len() > 0 {
            lemma_first_goes_elsewhere(drain.inbox.unbounded);
        } else if drain.inbox.bounded.len() > 0 {
            lemma_first_goes_elsewhere(drain.inbox.bounded);
        }
    }
}

/// Taking the first of some results and adding it again leaves the same
/// results.
proof fn lemma_first_goes_elsewhere<T>(results: Seq<T>)
    requires
        results.len() > 0,
    ensures
        results.drop_first().to_multiset().insert(results.first()) == results.to_multiset(),
{
    broadcast use vstd::seq_lib::group_to_multiset_ensures;

    assert(results.drop_first() =~= results.remove(0));
    assert(results.contains(results.first()));
    assert(results.drop_first().to_multiset().insert(results.first()) =~= results.to_multiset());
}

/// As long as the stream has not ended, something can happen: a job of the
/// worker sends its result, or a read hands out a result or ends the stream.
pub proof fn lemma_drain_is_never_stuck<T>(drain: DrainView<T>)
    requires
        drain.well_formed(),
        !drain.ended,
    ensures
        drain.after_submit() != drain || drain.after_read() != drain,
{
    if drain.residue.len() > 0 {
        assert(drain.after_submit().residue.len() < drain.residue.len());
    }
}

/// After the kill-pill the processor ends in finitely many steps and consumes
/// only what was queued and what the worker's own jobs in flight still send.
///
/// Whatever the schedule, no result is lost or made up on the way; every
/// step that changes anything uses up one of the steps that are left; and
/// once the stream has ended, every result has been handed out.
pub proof fn lemma_drain_ends<T>(drain: DrainView<T>, schedule: Seq<bool>)
    requires
        drain.well_formed(),
    ensures
        drain.after(schedule).well_formed(),
        drain.after(schedule).all() == drain.all(),
        drain.steps_taken(schedule) + drain.after(schedule).steps_left() == drain.steps_left(),
        drain.after(schedule).ended ==> drain.after(schedule).handed_out.to_multiset()
            == drain.all(),
    decreases schedule.len(),
{
    if schedule.len() > 0 {
        lemma_drain_step_conserves(drain, schedule.first());
        let next = if schedule.first() {
            drain.after_submit()
        } else {
            drain.after_read()
        };
        lemma_drain_ends(next, schedule.drop_first());
    }
    let end = drain.after(schedule);
    if end.ended {
        assert(end.inbox.unbounded =~= Seq::<T>::empty());
        assert(end.inbox.bounded =~= Seq::<T>::empty());
        assert(end.residue =~= Seq::<T>::empty());
        assert(Seq::<T>::empty().to_multiset() =~= Multiset::<T>::empty()) by {
            broadcast use vstd::seq_lib::group_to_multiset_ensures;

        }
    }
}

} // verus!
