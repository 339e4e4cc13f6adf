//! Delivery of an envelope to its recipients, one inbox after the other.
//!
//! The transport is the caller's. The dispatcher says which inbox is next,
//! is told how the delivery went, and keeps the list of inboxes that did
//! not take the envelope. How one delivery went never changes what is
//! attempted next.

use vstd::prelude::*;
use crate::activity::{clone_texts, Envelope, EnvelopeView};
use crate::error::ApubError;

verus! {

/// How one delivery went.
#[derive(Clone, Copy, Debug, PartialEq, Eq, Structural)]
pub enum Delivery {
    /// The inbox took the envelope.
    Acknowledged,
    /// The inbox could not be reached, or refused.
    Failed,
}

/// What the caller is to do next.
#[derive(Clone, Debug, PartialEq, Eq)]
pub enum Step {
    /// Deliver the envelope to this inbox, then record how it went.
    Deliver { inbox: String },
    /// Every inbox has been attempted.
    Done,
}

/// What a `Step` holds.
pub ghost enum StepView {
    Deliver { inbox: Seq<char> },
    Done,
}

impl View for Step {
    type V = StepView;

    open spec fn view(&self) -> StepView {
        match self {
            Step::Deliver { inbox } => StepView::Deliver { inbox: inbox@ },
            Step::Done => StepView::Done,
        }
    }
}

/// The state of a dispatch: the envelope, the inboxes in the order in which
/// they are attempted, how many have been attempted, and those among them
/// that failed.
pub ghost struct DispatcherView {
    pub envelope: EnvelopeView,
    pub inboxes: Seq<Seq<char>>,
    pub attempted: nat,
    pub failed: Seq<Seq<char>>,
}

/// The inboxes among `inboxes` whose delivery failed, in order, where
/// `deliveries[i]` says how the delivery to `inboxes[i]` went.
pub open spec fn failures(inboxes: Seq<Seq<char>>, deliveries: Seq<Delivery>) -> Seq<Seq<char>>
    recommends
        inboxes.len() == deliveries.len(),
    decreases inboxes.len(),
{
    if inboxes.len() == 0 || deliveries.len() == 0 {
        Seq::empty()
    } else {
        let before = failures(inboxes.drop_last(), deliveries.drop_last());
        if deliveries.last() == Delivery::Failed {
            before.push(inboxes.last())
        } else {
            before
        }
    }
}

impl DispatcherView {
    /// No more inboxes are counted as attempted than there are.
    pub open spec fn wf(self) -> bool {
        self.attempted <= self.inboxes.len()
    }

    /// The state before the first delivery.
    pub open spec fn start(envelope: EnvelopeView, inboxes: Seq<Seq<char>>) -> DispatcherView {
        DispatcherView { envelope, inboxes, attempted: 0, failed: Seq::empty() }
    }

    /// What the caller is to do in this state.
    pub open spec fn next(self) -> StepView {
        if self.attempted < self.inboxes.len() {
            StepView::Deliver { inbox: self.inboxes[self.attempted as int] }
        } else {
            StepView::Done
        }
    }

    /// The state after the pending delivery went as `delivery` says. With
    /// nothing pending the state stays.
    pub open spec fn record(self, delivery: Delivery) -> DispatcherView {
        if self.attempted < self.inboxes.len() {
            DispatcherView {
                attempted: self.attempted + 1,
                failed: if delivery == Delivery::Failed {
                    self.failed.push(self.inboxes[self.attempted as int])
                } else {
                    self.failed
                },
                ..self
            }
        } else {
            self
        }
    }

    /// The state after the deliveries went as `deliveries` says, in order.
    pub open spec fn run(self, deliveries: Seq<Delivery>) -> DispatcherView
        decreases deliveries.len(),
    {
        if deliveries.len() == 0 {
            self
        } else {
            self.run(deliveries.drop_last()).record(deliveries.last())
        }
    }

    /// What the dispatch as a whole reports: success where no delivery
    /// failed.
    pub open spec fn outcome(self) -> Result<(), ApubError> {
        if self.failed.len() == 0 {
            Ok(())
        } else {
            Err(ApubError::DeliveryFailed)
        }
    }
}

/// The delivery of one envelope to a list of inboxes.
#[derive(Clone, Debug, PartialEq, Eq)]
pub struct Dispatcher {
    envelope: Envelope,
    inboxes: Vec<String>,
    attempted: usize,
    failed: Vec<String>,
}

impl View for Dispatcher {
    type V = DispatcherView;

    closed spec fn view(&self) -> DispatcherView {
        DispatcherView {
            envelope: self.envelope@,
            inboxes: self.inboxes.deep_view(),
            attempted: self.attempted as nat,
            failed: self.failed.deep_view(),
        }
    }
}

impl Dispatcher {
    /// Prepares the delivery of `envelope` to `inboxes`.
    pub fn new(envelope: Envelope, inboxes: Vec<String>) -> (dispatcher: Dispatcher)
        ensures
            dispatcher@ == DispatcherView::start(envelope@, inboxes.deep_view()),
            dispatcher@.wf(),
    {
        let dispatcher = Dispatcher { envelope, inboxes, attempted: 0, failed: Vec::new() };
        assert(dispatcher.failed.deep_view() =~= Seq::<Seq<char>>::empty());
        dispatcher
    }

    /// The envelope that is delivered.
    pub fn envelope(&self) -> (envelope: &Envelope)
        ensures
            envelope@ == self@.envelope,
    {
        &self.envelope
    }

    /// What the caller is to do next.
    pub fn next(&self) -> (step: Step)
        ensures
            step@ == self@.next(),
    {
        if self.attempted < self.inboxes.len() {
            Step::Deliver { inbox: self.inboxes[self.attempted].clone() }
        } else {
            Step::Done
        }
    }

    /// Takes note of how the pending delivery went, and moves on to the
    /// next inbox whatever the answer.
    pub fn record(&mut self, delivery: Delivery)
        ensures
            final(self)@ == old(self)@.record(delivery),
            old(self)@.wf() ==> final(self)@.wf(),
    {
        if self.attempted < self.inboxes.len() {
            let ghost before = self.failed.deep_view();
            match delivery {
                Delivery::Failed => {
                    let inbox = self.inboxes[self.attempted].clone();
                    self.failed.push(inbox);
                    assert(self.failed.deep_view() =~= before.push(
                        self.inboxes.deep_view()[self.attempted as int],
                    ));
                },
                Delivery::Acknowledged => {},
            }
            self.attempted = self.attempted + 1;
        }
    }

    /// Whether every inbox has been attempted.
    pub fn is_done(&self) -> (done: bool)
        ensures
            done == (self@.next() == StepView::Done),
    {
        self.attempted >= self.inboxes.len()
    }

    /// The inboxes that did not take the envelope, in the order in which
    /// they were attempted.
    pub fn failed(&self) -> (failed: Vec<String>)
        ensures
            failed.deep_view() == self@.failed,
    {
        clone_texts(&self.failed)
    }

    /// What the dispatch reports to its caller: `DeliveryFailed` where any
    /// delivery failed so far.
    pub fn outcome(&self) -> (outcome: Result<(), ApubError>)
        ensures
            outcome == self@.outcome(),
    {
        if self.failed.len() == 0 {
            Ok(())
        } else {
            Err(ApubError::DeliveryFailed)
        }
    }
}

/// Every inbox is attempted, in order, however the deliveries before it
/// went: after `k` deliveries the state counts `k` attempts, the next step
/// is the delivery to the inbox at `k` (or the end, after the last), and
/// the failed inboxes are exactly those whose own delivery failed.
pub proof fn lemma_deliveries_are_independent(
    envelope: EnvelopeView,
    inboxes: Seq<Seq<char>>,
    deliveries: Seq<Delivery>,
)
    requires
        deliveries.len() <= inboxes.len(),
    ensures
        ({
            let state = DispatcherView::start(envelope, inboxes).run(deliveries);
            &&& state.envelope == envelope
            &&& state.inboxes == inboxes
            &&& state.attempted == deliveries.len()
            &&& state.failed == failures(inboxes.take(deliveries.len() as int), deliveries)
            &&& state.next() == if deliveries.len() < inboxes.len() {
                StepView::Deliver { inbox: inboxes[deliveries.len() as int] }
            } else {
                StepView::Done
            }
        }),
    decreases deliveries.len(),
{
    if deliveries.len() > 0 {
        let k = deliveries.len() as int;
        lemma_deliveries_are_independent(envelope, inboxes, deliveries.drop_last());
        assert(inboxes.take(k).drop_last() =~= inboxes.take(k - 1));
    }
}

/// Whether a delivery to `inbox` failed, where `deliveries[i]` says how the
/// delivery to `inboxes[i]` went.
pub open spec fn delivery_failed_to(
    inboxes: Seq<Seq<char>>,
    deliveries: Seq<Delivery>,
    inbox: Seq<char>,
) -> bool {
    exists|i: int|
        0 <= i < inboxes.len() && i < deliveries.len() && inboxes[i] == inbox
            && #[trigger] deliveries[i] == Delivery::Failed
}

/// An inbox is among the failed exactly when a delivery to it failed.
pub proof fn lemma_failures_are_the_failed(
    inboxes: Seq<Seq<char>>,
    deliveries: Seq<Delivery>,
    inbox: Seq<char>,
)
    requires
        inboxes.len() == deliveries.len(),
    ensures
        failures(inboxes, deliveries).contains(inbox) <==> delivery_failed_to(
            inboxes,
            deliveries,
            inbox,
        ),
    decreases inboxes.len(),
{
    if inboxes.len() > 0 {
        let n = inboxes.len() as int;
        let head_inboxes = inboxes.drop_last();
        let head = deliveries.drop_last();
        let before = failures(head_inboxes, head);
        let all = failures(inboxes, deliveries);
        let last_failed_to_it = deliveries[n - 1] == Delivery::Failed && inboxes[n - 1] == inbox;
        lemma_failures_are_the_failed(head_inboxes, head, inbox);

        // Among the failed of all: among those of the head, or the last.
        assert(all.contains(inbox) <==> before.contains(inbox) || last_failed_to_it) by {
            if before.contains(inbox) {
                let j = choose|j: int| 0 <= j < before.len() && before[j] == inbox;
                assert(all[j] == inbox);
            }
            if last_failed_to_it {
                assert(all[before.len() as int] == inbox);
            }
            if all.contains(inbox) {
                let j = choose|j: int| 0 <= j < all.len() && all[j] == inbox;
                if j < before.len() {
                    assert(before[j] == inbox);
                }
            }
        }

        // A delivery to it failed: one of the head, or the last.
        assert(delivery_failed_to(inboxes, deliveries, inbox) <==> delivery_failed_to(
            head_inboxes,
            head,
            inbox,
        ) || last_failed_to_it) by {
            if delivery_failed_to(head_inboxes, head, inbox) {
                let i = choose|i: int|
                    0 <= i < head_inboxes.len() && i < head.len() && head_inboxes[i] == inbox
                        && #[trigger] head[i] == Delivery::Failed;
                assert(inboxes[i] == inbox && deliveries[i] == Delivery::Failed);
            }
            if delivery_failed_to(inboxes, deliveries, inbox) {
                let i = choose|i: int|
                    0 <= i < inboxes.len() && i < deliveries.len() && inboxes[i] == inbox
                        && #[trigger] deliveries[i] == Delivery::Failed;
                if i < n - 1 {
                    assert(head_inboxes[i] == inbox && head[i] == Delivery::Failed);
                }
            }
        }
    }
}

/// A dispatch reports success exactly when no delivery failed.
pub proof fn lemma_outcome_reports_failures(
    envelope: EnvelopeView,
    inboxes: Seq<Seq<char>>,
    deliveries: Seq<Delivery>,
)
    requires
        deliveries.len() == inboxes.len(),
    ensures
        DispatcherView::start(envelope, inboxes).run(deliveries).outcome() is Ok <==> forall|i: int|
            0 <= i < deliveries.len() ==> #[trigger] deliveries[i] == Delivery::Acknowledged,
{
    lemma_deliveries_are_independent(envelope, inboxes, deliveries);
    assert(inboxes.take(inboxes.len() as int) =~= inboxes);
    let failed = failures(inboxes, deliveries);
    if failed.len() > 0 {
        // What is among the failed points at a delivery that failed.
        assert(failed.contains(failed[0]));
        lemma_failures_are_the_failed(inboxes, deliveries, failed[0]);
    }
    if exists|i: int| 0 <= i < deliveries.len() && #[trigger] deliveries[i] != Delivery::Acknowledged {
        // A delivery that failed puts its inbox among the failed.
        let i = choose|i: int|
            0 <= i < deliveries.len() && #[trigger] deliveries[i] != Delivery::Acknowledged;
        assert(deliveries[i] == Delivery::Failed);
        lemma_failures_are_the_failed(inboxes, deliveries, inboxes[i]);
        assert(failed.contains(inboxes[i]));
    }
}

} // verus!
