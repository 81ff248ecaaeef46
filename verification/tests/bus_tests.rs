//! Fan-out settlement: one fatal report per fault, and nothing else.

use irc_bot::bus::{collect_faults, event_tag, DeliveryOutcome, Event};
use irc_bot::messages::{
    PanicPayload, RawMessage, TAG_CONNECTED, TAG_NOT_REGISTERED, TAG_RAW_MESSAGE,
};
use irc_bot::{Command, Frame};

#[test]
fn one_fault_gives_exactly_one_fatal_report() {
    let outcomes = vec![
        DeliveryOutcome::Delivered,
        DeliveryOutcome::Faulted(PanicPayload::Text(String::from("subscriber died"))),
        DeliveryOutcome::Delivered,
    ];
    let fatals = collect_faults(&outcomes);
    assert_eq!(fatals.len(), 1);
    assert!(fatals[0].fatal);
    assert_eq!(fatals[0].error, "subscriber died");
    assert_eq!(fatals[0].backtrace, "");
}

#[test]
fn successful_deliveries_settle_without_any_report() {
    let outcomes = vec![DeliveryOutcome::Delivered, DeliveryOutcome::Delivered];
    assert!(collect_faults(&outcomes).is_empty());
}

#[test]
fn faults_settle_in_delivery_order_with_a_generic_label_for_opaque_payloads() {
    let outcomes = vec![
        DeliveryOutcome::Faulted(PanicPayload::Opaque),
        DeliveryOutcome::Delivered,
        DeliveryOutcome::Faulted(PanicPayload::Text(String::from("later"))),
    ];
    let fatals = collect_faults(&outcomes);
    assert_eq!(fatals.len(), 2);
    assert_eq!(fatals[0].error, "Panic");
    assert_eq!(fatals[1].error, "later");
    assert!(fatals.iter().all(|o| o.fatal));
}

#[test]
fn events_are_tagged_with_their_types_tag() {
    assert_eq!(event_tag(&Event::Connected), TAG_CONNECTED);
    let raw = Event::Raw(RawMessage(Frame { prefix: None, command: Command::Other }));
    assert_eq!(event_tag(&raw), TAG_RAW_MESSAGE);
    let nr = Event::NotRegistered(irc_bot::messages::NotRegistered {
        args: vec![],
        suffix: None,
    });
    assert_eq!(event_tag(&nr), TAG_NOT_REGISTERED);
}
