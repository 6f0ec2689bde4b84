//! The producer of one activation: the task that pushes copies of a batch
//! into a bounded queue until all are sent or the consumer is gone.
//!
//! Sending is asynchronous and belongs to the caller. The producer is the
//! part that decides. The caller asks [`Producer::next`] what to do, performs
//! the send, and reports how it went with [`Producer::record`]:
//!
//! ```text
//! loop {
//!     match producer.next() {
//!         ProducerAction::Send { batch, .. } => {
//!             let outcome = /* send `batch`, waiting while the queue is full */;
//!             producer.record(outcome);
//!         }
//!         ProducerAction::Stop => break,
//!     }
//! }
//! ```
//!
//! The laws at the end of this module speak of every such run, whatever the
//! queue answers.

use crate::columnar::{share_batch, Batch};
use crate::text::{append_decimal, decimal};
use vstd::prelude::*;
use vstd::string::StringExecFns;

verus! {

/// The number of batches that the queue between producer and consumer holds
/// before a send has to wait.
pub const QUEUE_CAPACITY: usize = 100;

/// How one send ended.
#[derive(Clone, Copy, Debug, PartialEq, Eq, Structural)]
pub enum SendOutcome {
    /// The queue took the batch.
    Delivered,
    /// The receiving end is gone: the consumer stopped reading.
    Disconnected,
}

/// What the producer asks of its caller.
#[derive(Debug)]
pub enum ProducerAction {
    /// Send this copy of the batch, the `index`-th of the run, counted
    /// from 0, and report the outcome.
    Send { index: usize, batch: Batch },
    /// Nothing more is to be sent.
    Stop,
}

/// One send of a run, as a proof sees it: which copy, and the batch it
/// carries.
pub struct Attempt {
    /// The number of copies delivered before this one.
    pub index: nat,
    /// The batch handed to the queue.
    pub batch: Batch,
}

/// What a proof knows of a producer.
pub struct ProducerView {
    /// The batch that every send carries.
    pub batch: Batch,
    /// The number of copies to send.
    pub total: nat,
    /// The number of copies that the queue took so far.
    pub sent: nat,
    /// A send found the consumer gone.
    pub hung_up: bool,
}

impl ProducerView {
    /// The state before anything is sent.
    pub open spec fn start(batch: Batch, total: nat) -> ProducerView {
        ProducerView { batch, total, sent: 0, hung_up: false }
    }

    /// No more copies are counted as sent than there are to send.
    pub open spec fn wf(self) -> bool {
        self.sent <= self.total
    }

    /// A send is due: the consumer is not known to be gone and copies remain.
    pub open spec fn due(self) -> bool {
        !self.hung_up && self.sent < self.total
    }

    /// The state after the outcome of the send that was due. Where none was
    /// due, nothing changes.
    pub open spec fn recorded(self, outcome: SendOutcome) -> ProducerView {
        if !self.due() {
            self
        } else {
            match outcome {
                SendOutcome::Delivered => ProducerView { sent: self.sent + 1, ..self },
                SendOutcome::Disconnected => ProducerView { hung_up: true, ..self },
            }
        }
    }

    /// The state after a run in which the queue answers the sends, one after
    /// the other, with `outcomes`.
    pub open spec fn run(self, outcomes: Seq<SendOutcome>) -> ProducerView
        decreases outcomes.len(),
    {
        if outcomes.len() == 0 {
            self
        } else {
            self.recorded(outcomes[0]).run(outcomes.drop_first())
        }
    }

    /// The send that is due in this state.
    pub open spec fn attempt(self) -> Attempt {
        Attempt { index: self.sent, batch: self.batch }
    }

    /// The sends that such a run attempts, in the order in which it attempts
    /// them. The run goes on while a send is due and the queue has answered
    /// the one before.
    pub open spec fn attempts(self, outcomes: Seq<SendOutcome>) -> Seq<Attempt>
        decreases outcomes.len(),
    {
        if outcomes.len() == 0 || !self.due() {
            Seq::empty()
        } else {
            seq![self.attempt()] + self.recorded(outcomes[0]).attempts(outcomes.drop_first())
        }
    }
}

/// The sends of a full replay: the copies `0, 1, .., total - 1` of one batch.
pub open spec fn full_replay(batch: Batch, total: nat) -> Seq<Attempt> {
    Seq::new(total, |i: int| Attempt { index: i as nat, batch })
}

/// Every outcome is a delivery.
pub open spec fn all_delivered(outcomes: Seq<SendOutcome>) -> bool {
    forall|k: int| 0 <= k < outcomes.len() ==> #[trigger] outcomes[k] == SendOutcome::Delivered
}

/// The diagnostic of a producer that found its consumer gone after `sent` of
/// `total` batches.
pub open spec fn hangup_text(sent: nat, total: nat) -> Seq<char> {
    "Repeat generator got hangup after "@ + decimal(sent) + "/"@ + decimal(total) + " batches"@
}

/// The deciding half of a producer task.
#[derive(Debug)]
pub struct Producer {
    batch: Batch,
    total: usize,
    sent: usize,
    hung_up: bool,
}

impl View for Producer {
    type V = ProducerView;

    closed spec fn view(&self) -> ProducerView {
        ProducerView {
            batch: self.batch,
            total: self.total as nat,
            sent: self.sent as nat,
            hung_up: self.hung_up,
        }
    }
}

impl Producer {
    #[verifier::type_invariant]
    spec fn counted(self) -> bool {
        self.sent <= self.total
    }

    /// A producer that is to send `total` copies of `batch`.
    pub fn new(batch: Batch, total: usize) -> (producer: Producer)
        ensures
            producer@ == ProducerView::start(batch, total as nat),
            producer@.wf(),
    {
        Producer { batch, total, sent: 0, hung_up: false }
    }

    /// The capacity to give the queue. It is never 0.
    pub fn queue_capacity(&self) -> (capacity: usize)
        ensures
            capacity == QUEUE_CAPACITY,
            capacity >= 1,
    {
        QUEUE_CAPACITY
    }

    /// The number of copies to send in all.
    pub fn total(&self) -> (total: usize)
        ensures
            total == self@.total,
    {
        self.total
    }

    /// The number of copies that the queue took so far. It never passes the
    /// number of copies to send.
    pub fn sent(&self) -> (sent: usize)
        ensures
            sent == self@.sent,
            self@.wf(),
    {
        proof {
            use_type_invariant(self);
        }
        self.sent
    }

    /// Whether a send found the consumer gone.
    pub fn hung_up(&self) -> (hung_up: bool)
        ensures
            hung_up == self@.hung_up,
    {
        self.hung_up
    }

    /// What to do now: send the next copy, or stop.
    ///
    /// A send is asked for exactly while one is due. The copy is the
    /// producer's batch, and its index is the number of copies delivered
    /// before it.
    pub fn next(&self) -> (action: ProducerAction)
        ensures
            self@.due() ==> action == (ProducerAction::Send {
                index: self@.attempt().index as usize,
                batch: self@.attempt().batch,
            }),
            !self@.due() ==> action == ProducerAction::Stop,
    {
        if !self.hung_up && self.sent < self.total {
            ProducerAction::Send { index: self.sent, batch: share_batch(&self.batch) }
        } else {
            ProducerAction::Stop
        }
    }

    /// Records the outcome of the send that [`Producer::next`] asked for.
    ///
    /// A delivery counts one more copy as sent. A disconnect ends the run:
    /// no later send is due. Where no send was due, nothing changes.
    pub fn record(&mut self, outcome: SendOutcome)
        ensures
            final(self)@ == old(self)@.recorded(outcome),
    {
        if !self.hung_up && self.sent < self.total {
            match outcome {
                SendOutcome::Delivered => {
                    self.sent = self.sent + 1;
                },
                SendOutcome::Disconnected => {
                    self.hung_up = true;
                },
            }
        }
    }

    /// The diagnostic to emit when the run is over: a line that says how many
    /// batches had been sent when the consumer was found gone, or nothing
    /// when it never was.
    pub fn diagnostic(&self) -> (line: Option<String>)
        ensures
            line is Some <==> self@.hung_up,
            line matches Some(text) ==> text@ == hangup_text(self@.sent, self@.total),
    {
        if self.hung_up {
            let mut text = String::from_str("Repeat generator got hangup after ");
            append_decimal(&mut text, self.sent);
            text.append("/");
            append_decimal(&mut text, self.total);
            text.append(" batches");
            Some(text)
        } else {
            None
        }
    }
}

/// A run attempts its sends in order, without a gap and without a repeat,
/// and every send carries the producer's batch: the `i`-th attempt of a run
/// is the send with index `sent + i` of that batch. All attempts but the last
/// were delivered.
pub proof fn attempts_in_order(state: ProducerView, outcomes: Seq<SendOutcome>, i: int)
    requires
        0 <= i < state.attempts(outcomes).len(),
    ensures
        state.attempts(outcomes)[i] == (Attempt { index: state.sent + i as nat, batch: state.batch }),
        i < outcomes.len(),
        i + 1 < state.attempts(outcomes).len() ==> outcomes[i] == SendOutcome::Delivered,
    decreases outcomes.len(),
{
    attempts_bounded(state, outcomes);
    let rest = state.recorded(outcomes[0]);
    let tail = outcomes.drop_first();
    if i > 0 {
        attempts_in_order(rest, tail, i - 1);
        assert(tail[i - 1] == outcomes[i]);
    } else if 1 < state.attempts(outcomes).len() {
        assert(rest.attempts(tail).len() > 0);
    }
}

/// A run never counts more copies than there are to send.
pub proof fn run_keeps_count(state: ProducerView, outcomes: Seq<SendOutcome>)
    requires
        state.wf(),
    ensures
        state.run(outcomes).wf(),
    decreases outcomes.len(),
{
    if outcomes.len() > 0 {
        run_keeps_count(state.recorded(outcomes[0]), outcomes.drop_first());
    }
}

/// A run attempts at most one send for each answer of the queue.
pub proof fn attempts_bounded(state: ProducerView, outcomes: Seq<SendOutcome>)
    ensures
        state.attempts(outcomes).len() <= outcomes.len(),
    decreases outcomes.len(),
{
    if outcomes.len() > 0 && state.due() {
        attempts_bounded(state.recorded(outcomes[0]), outcomes.drop_first());
    }
}

/// When every send is delivered, the producer sends each remaining copy
/// exactly once and then stops: a run that the queue answers at least once
/// for each remaining copy attempts `total - sent` sends, and ends with all
/// `total` sent, no hangup and no send due.
pub proof fn delivers_every_copy(state: ProducerView, outcomes: Seq<SendOutcome>)
    requires
        state.wf(),
        !state.hung_up,
        all_delivered(outcomes),
        outcomes.len() >= state.total - state.sent,
    ensures
        state.attempts(outcomes).len() == state.total - state.sent,
        state.run(outcomes).sent == state.total,
        !state.run(outcomes).hung_up,
        !state.run(outcomes).due(),
        state.run(outcomes).batch == state.batch,
        state.run(outcomes).total == state.total,
    decreases outcomes.len(),
{
    if outcomes.len() > 0 {
        let rest = state.recorded(outcomes[0]);
        let tail = outcomes.drop_first();
        assert(all_delivered(tail)) by {
            assert forall|k: int| 0 <= k < tail.len() implies #[trigger] tail[k]
                == SendOutcome::Delivered by {
                assert(tail[k] == outcomes[k + 1]);
            }
        }
        delivers_every_copy(rest, tail);
    }
}

/// Without an early disconnect, an activation sends its batch exactly `total`
/// times: a fresh producer whose every send is delivered attempts the sends
/// `0, 1, .., total - 1`, each carrying the same batch, and then has no send
/// due.
pub proof fn replays_every_copy(batch: Batch, total: nat, outcomes: Seq<SendOutcome>)
    requires
        all_delivered(outcomes),
        outcomes.len() >= total,
    ensures
        ProducerView::start(batch, total).attempts(outcomes) == full_replay(batch, total),
        ProducerView::start(batch, total).run(outcomes).sent == total,
        !ProducerView::start(batch, total).run(outcomes).due(),
{
    let start = ProducerView::start(batch, total);
    delivers_every_copy(start, outcomes);
    assert forall|i: int| 0 <= i < total implies #[trigger] start.attempts(outcomes)[i] == (Attempt {
        index: i as nat,
        batch,
    }) by {
        attempts_in_order(start, outcomes, i);
    }
}

/// A producer that has nothing to send stops at once: with a repeat count of
/// 0 no send is due, and no run attempts one.
pub proof fn nothing_to_send(batch: Batch, outcomes: Seq<SendOutcome>)
    ensures
        !ProducerView::start(batch, 0).due(),
        ProducerView::start(batch, 0).attempts(outcomes).len() == 0,
        ProducerView::start(batch, 0).run(outcomes) == ProducerView::start(batch, 0),
    decreases outcomes.len(),
{
    if outcomes.len() > 0 {
        nothing_to_send(batch, outcomes.drop_first());
    }
}

/// Once the producer has hung up it never sends again, whatever the queue
/// would answer.
pub proof fn hung_up_stays(state: ProducerView, outcomes: Seq<SendOutcome>)
    requires
        state.hung_up,
    ensures
        state.run(outcomes) == state,
        state.attempts(outcomes).len() == 0,
    decreases outcomes.len(),
{
    if outcomes.len() > 0 {
        hung_up_stays(state, outcomes.drop_first());
    }
}

/// The producer notices a disconnect within one send: when the queue takes
/// `delivered` copies and refuses the next, the run attempts exactly
/// `delivered + 1` sends, however many answers follow, and ends hung up with
/// `delivered` more copies sent.
pub proof fn disconnect_stops(state: ProducerView, outcomes: Seq<SendOutcome>, delivered: int)
    requires
        !state.hung_up,
        0 <= delivered < outcomes.len(),
        state.sent + delivered < state.total,
        all_delivered(outcomes.take(delivered)),
        outcomes[delivered] == SendOutcome::Disconnected,
    ensures
        state.attempts(outcomes).len() == delivered + 1,
        state.run(outcomes).hung_up,
        state.run(outcomes).sent == state.sent + delivered,
        !state.run(outcomes).due(),
    decreases outcomes.len(),
{
    let rest = state.recorded(outcomes[0]);
    let tail = outcomes.drop_first();
    if delivered == 0 {
        hung_up_stays(rest, tail);
    } else {
        assert(outcomes.take(delivered)[0] == outcomes[0]);
        assert(all_delivered(tail.take(delivered - 1))) by {
            assert forall|k: int| 0 <= k < delivered - 1 implies #[trigger] tail.take(
                delivered - 1,
            )[k] == SendOutcome::Delivered by {
                assert(tail.take(delivered - 1)[k] == outcomes.take(delivered)[k + 1]);
            }
        }
        disconnect_stops(rest, tail, delivered - 1);
    }
}

} // verus!
