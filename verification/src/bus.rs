//! The event bus: fan-out planning and fault-isolated settlement.
//!
//! Publishing an event produces a [`Publish`] plan: the event together with
//! every currently registered handle for its type, in registration order.
//! The surrounding runtime attempts delivery to each handle in that order
//! and reports one [`DeliveryOutcome`] per handle; [`collect_faults`] then
//! converts each fault — and nothing else — into exactly one fatal report,
//! so a fault in one subscriber neither reaches the supervisor's own call
//! stack nor takes later subscribers out of the plan.

use vstd::prelude::*;

use crate::frame::FrameView;
use crate::logging::Oops;
use crate::messages::{
    panic_message, spec_panic_message, Connected, NotRegistered, NotRegisteredView,
    PanicPayload, PrivateMessageReceived, PrivateMessageReceivedView, RawMessage,
};
use crate::registry::{recipients_in, EventType, Handle};

verus! {

/// An event the supervisor publishes on the bus.
#[derive(Debug, PartialEq)]
pub enum Event {
    Connected,
    Raw(RawMessage),
    NotRegistered(NotRegistered),
    PrivateMessageReceived(PrivateMessageReceived),
}

/// The mathematical model of an [`Event`].
pub enum EventView {
    Connected,
    Raw(FrameView),
    NotRegistered(NotRegisteredView),
    PrivateMessageReceived(PrivateMessageReceivedView),
}

impl View for Event {
    type V = EventView;

    open spec fn view(&self) -> EventView {
        match self {
            Event::Connected => EventView::Connected,
            Event::Raw(m) => EventView::Raw(m@),
            Event::NotRegistered(m) => EventView::NotRegistered(m@),
            Event::PrivateMessageReceived(m) => EventView::PrivateMessageReceived(m@),
        }
    }
}

/// The registry tag an event is published under.
pub open spec fn tag_of(e: EventView) -> u64 {
    match e {
        EventView::Connected => <Connected as EventType>::spec_tag(),
        EventView::Raw(_) => <RawMessage as EventType>::spec_tag(),
        EventView::NotRegistered(_) => <NotRegistered as EventType>::spec_tag(),
        EventView::PrivateMessageReceived(_) => <PrivateMessageReceived as EventType>::spec_tag(),
    }
}

/// The executable counterpart of [`tag_of`].
pub fn event_tag(e: &Event) -> (t: u64)
    ensures
        t == tag_of(e@),
{
    match e {
        Event::Connected => Connected::tag(),
        Event::Raw(_) => RawMessage::tag(),
        Event::NotRegistered(_) => NotRegistered::tag(),
        Event::PrivateMessageReceived(_) => PrivateMessageReceived::tag(),
    }
}

/// One publish call's fan-out plan: the event, and every handle it is to be
/// delivered to, in registration order.  Dispatch follows this order;
/// completion order across subscribers is unconstrained.
#[derive(Debug)]
pub struct Publish {
    pub event: Event,
    pub recipients: Vec<Handle>,
}

/// How one subscriber's delivery attempt ended.
#[derive(Debug, PartialEq)]
pub enum DeliveryOutcome {
    /// The subscriber accepted the event.
    Delivered,
    /// The subscriber panicked; the payload is what the panic carried.
    Faulted(PanicPayload),
}

/// The payloads of the faulted outcomes, in order.
pub open spec fn faults_of(s: Seq<DeliveryOutcome>) -> Seq<PanicPayload>
    decreases s.len(),
{
    if s.len() == 0 {
        Seq::empty()
    } else {
        (match s[0] {
            DeliveryOutcome::Faulted(p) => seq![p],
            DeliveryOutcome::Delivered => Seq::empty(),
        }) + faults_of(s.drop_first())
    }
}

/// Converts every fault among the delivery outcomes of one publish call into
/// exactly one fatal report, in delivery order, and nothing else.  The
/// outcomes of successful deliveries produce nothing, and no fault is ever
/// re-raised: the reports are handed to the logging and escalation path.
/// A fault's payload carries no backtrace, so the reports' backtrace text
/// is empty.
pub fn collect_faults(outcomes: &Vec<DeliveryOutcome>) -> (fatals: Vec<Oops>)
    ensures
        fatals@.len() == faults_of(outcomes@).len(),
        forall|k: int|
            0 <= k < fatals@.len() ==> (#[trigger] fatals@[k]).fatal && fatals@[k].error@
                == spec_panic_message(faults_of(outcomes@)[k]) && fatals@[k].backtrace@
                == Seq::<char>::empty(),
{
    let n = outcomes.len();
    let mut fatals: Vec<Oops> = Vec::new();
    let mut i: usize = 0;
    while i < n
        invariant
            n == outcomes@.len(),
            i <= n,
            fatals@.len() == faults_of(outcomes@.subrange(0, i as int)).len(),
            forall|k: int|
                0 <= k < fatals@.len() ==> (#[trigger] fatals@[k]).fatal && fatals@[k].error@
                    == spec_panic_message(faults_of(outcomes@.subrange(0, i as int))[k])
                    && fatals@[k].backtrace@ == Seq::<char>::empty(),
        decreases n - i,
    {
        proof {
            lemma_faults_of_push(outcomes@.subrange(0, i as int), outcomes@[i as int]);
            assert(outcomes@.subrange(0, i as int).push(outcomes@[i as int]) =~= outcomes@
                .subrange(0, i as int + 1));
        }
        match &outcomes[i] {
            DeliveryOutcome::Faulted(p) => {
                let message = panic_message(p);
                fatals.push(Oops { error: message, fatal: true, backtrace: String::new() });
            },
            DeliveryOutcome::Delivered => {},
        }
        i += 1;
    }
    proof {
        assert(outcomes@.subrange(0, n as int) =~= outcomes@);
    }
    fatals
}

/// Appending one outcome appends that outcome's faults.
proof fn lemma_faults_of_push(s: Seq<DeliveryOutcome>, x: DeliveryOutcome)
    ensures
        faults_of(s.push(x)) == faults_of(s) + (match x {
            DeliveryOutcome::Faulted(p) => seq![p],
            DeliveryOutcome::Delivered => Seq::<PanicPayload>::empty(),
        }),
    decreases s.len(),
{
    if s.len() == 0 {
        assert(s.push(x).drop_first() =~= Seq::<DeliveryOutcome>::empty());
        assert(faults_of(s.push(x).drop_first()) == Seq::<PanicPayload>::empty());
        assert(s.push(x)[0] == x);
        assert(faults_of(s) == Seq::<PanicPayload>::empty());
        assert(faults_of(s.push(x)) =~= faults_of(s) + (match x {
            DeliveryOutcome::Faulted(p) => seq![p],
            DeliveryOutcome::Delivered => Seq::<PanicPayload>::empty(),
        }));
    } else {
        assert(s.push(x).drop_first() =~= s.drop_first().push(x));
        lemma_faults_of_push(s.drop_first(), x);
        assert(faults_of(s.push(x)) =~= faults_of(s) + (match x {
            DeliveryOutcome::Faulted(p) => seq![p],
            DeliveryOutcome::Delivered => Seq::<PanicPayload>::empty(),
        }));
    }
}

/// A publish call with no registered subscribers for its event's type has an
/// empty fan-out plan: nothing is delivered, nothing can fail.
pub proof fn lemma_publish_without_subscribers_is_noop(
    m: Map<u64, Seq<Handle>>,
    tag: u64,
)
    requires
        !m.dom().contains(tag) || m[tag].len() == 0,
    ensures
        recipients_in(m, tag).len() == 0,
{
}

/// When exactly one delivery of a publish call faults, exactly one fatal
/// report is produced, and it carries that fault's payload: every other
/// subscriber's outcome contributes nothing.
pub proof fn lemma_single_fault_single_fatal(outcomes: Seq<DeliveryOutcome>, i: int)
    requires
        0 <= i < outcomes.len(),
        outcomes[i] is Faulted,
        forall|k: int| 0 <= k < outcomes.len() && k != i ==> !((#[trigger] outcomes[k]) is Faulted),
    ensures
        faults_of(outcomes).len() == 1,
        seq![faults_of(outcomes)[0]] == (match outcomes[i] {
            DeliveryOutcome::Faulted(p) => seq![p],
            DeliveryOutcome::Delivered => Seq::<PanicPayload>::empty(),
        }),
    decreases outcomes.len(),
{
    if i == 0 {
        lemma_no_fault_no_fatal(outcomes.drop_first());
    } else {
        lemma_single_fault_single_fatal(outcomes.drop_first(), i - 1);
    }
}

/// Deliveries that all succeed produce no fatal report at all.
pub proof fn lemma_no_fault_no_fatal(outcomes: Seq<DeliveryOutcome>)
    requires
        forall|k: int| 0 <= k < outcomes.len() ==> !((#[trigger] outcomes[k]) is Faulted),
    ensures
        faults_of(outcomes).len() == 0,
    decreases outcomes.len(),
{
    if outcomes.len() > 0 {
        lemma_no_fault_no_fatal(outcomes.drop_first());
    }
}

} // verus!
