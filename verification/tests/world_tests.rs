//! The supervisor: event derivation, ordering guarantees, and the
//! command/settle protocol.

use irc_bot::bus::Event;
use irc_bot::logging::Directive;
use irc_bot::messages::{
    Connected, Identify, NotRegistered, PrivateMessage, Quit, RawMessage, Registration,
    SessionCommand, SessionError, StartListening,
};
use irc_bot::{Command, Frame, Handle, World};

fn info_frame() -> Frame {
    Frame { prefix: None, command: Command::Other }
}

fn not_registered_frame(args: Vec<&str>) -> Frame {
    Frame {
        prefix: None,
        command: Command::Response {
            code: 451,
            args: args.into_iter().map(String::from).collect(),
            suffix: None,
        },
    }
}

/// Every delivery of `event_matches` planned for `recipient`, in order.
fn deliveries_to(out: &[irc_bot::bus::Publish], recipient: Handle) -> Vec<&Event> {
    out.iter()
        .filter(|p| p.recipients.contains(&recipient))
        .map(|p| &p.event)
        .collect()
}

#[test]
fn register_and_receive_messages() {
    let mut world = World::new("this-is-a-client");
    let mock = Handle { id: 7 };

    // tell the world we want to register for raw messages
    let msg: Registration<RawMessage> = Registration::register(mock);
    world.handle_registration(msg);

    let before = world.publish(Event::Raw(RawMessage(info_frame())));
    assert_eq!(before.recipients.len(), 1);

    // then send a message and check it is planned for the subscriber
    let out = world.handle_raw_message(RawMessage(info_frame()));
    let got = deliveries_to(&out, mock);
    assert_eq!(got.len(), 1);
    assert_eq!(*got[0], Event::Raw(RawMessage(info_frame())));
}

#[test]
fn raw_messages_are_forwarded_to_subscribers() {
    let mut world = World::new("asd");
    let sub = Handle { id: 3 };

    world.handle_registration(Registration::<RawMessage>::for_actor(sub, true));

    let msg = RawMessage(info_frame());
    let out = world.handle_raw_message(msg.clone());

    let got = deliveries_to(&out, sub);
    assert_eq!(got.len(), 1);
    assert_eq!(*got[0], Event::Raw(msg));
}

#[test]
fn connected_is_published_before_the_first_raw_message() {
    let mut world = World::new(());
    let h = Handle { id: 1 };
    world.handle_registration(Registration::<Connected>::register(h));
    world.handle_registration(Registration::<RawMessage>::register(h));

    let f1 = RawMessage(info_frame());
    let out = world.handle_raw_message(f1.clone());

    let got = deliveries_to(&out, h);
    assert_eq!(got.len(), 2);
    assert_eq!(*got[0], Event::Connected);
    assert_eq!(*got[1], Event::Raw(f1));
}

#[test]
fn connected_is_published_exactly_once() {
    let mut world = World::new(());
    let h = Handle { id: 1 };
    world.handle_registration(Registration::<Connected>::register(h));
    world.handle_registration(Registration::<RawMessage>::register(h));

    let first = world.handle_raw_message(RawMessage(info_frame()));
    let second = world.handle_raw_message(RawMessage(info_frame()));

    assert_eq!(deliveries_to(&first, h).len(), 2);
    let later = deliveries_to(&second, h);
    assert_eq!(later.len(), 1);
    assert_eq!(*later[0], Event::Raw(RawMessage(info_frame())));
}

#[test]
fn not_registered_response_is_derived_before_the_raw_echo() {
    let mut world = World::new(());
    let h = Handle { id: 1 };
    world.handle_registration(Registration::<NotRegistered>::register(h));
    world.handle_registration(Registration::<RawMessage>::register(h));
    // swallow the first-frame Connected
    world.handle_raw_message(RawMessage(info_frame()));

    let frame = not_registered_frame(vec!["*", "nick"]);
    let out = world.handle_raw_message(RawMessage(frame.clone()));

    let got = deliveries_to(&out, h);
    assert_eq!(got.len(), 2);
    assert_eq!(
        *got[0],
        Event::NotRegistered(NotRegistered {
            args: vec![String::from("*"), String::from("nick")],
            suffix: None,
        })
    );
    assert_eq!(*got[1], Event::Raw(RawMessage(frame)));
}

#[test]
fn private_messages_are_derived_before_the_raw_echo() {
    let mut world = World::new(());
    let h = Handle { id: 1 };
    world.handle_registration(Registration::<irc_bot::messages::PrivateMessageReceived>::register(
        h,
    ));
    world.handle_raw_message(RawMessage(info_frame()));

    let frame = Frame {
        prefix: Some(String::from("alice!user@host")),
        command: Command::PrivMsg {
            target: String::from("#rust"),
            content: String::from("hello"),
        },
    };
    let out = world.handle_raw_message(RawMessage(frame.clone()));

    let got = deliveries_to(&out, h);
    assert_eq!(got.len(), 1);
    match got[0] {
        Event::PrivateMessageReceived(pm) => {
            assert_eq!(pm.msg_target, "#rust");
            assert_eq!(pm.content, "hello");
            assert_eq!(pm.raw, frame);
        }
        other => panic!("expected a private message event, got {:?}", other),
    }
}

#[test]
fn frames_matching_no_derived_shape_fall_through_silently() {
    let mut world = World::new(());
    world.handle_raw_message(RawMessage(info_frame()));
    let out = world.handle_raw_message(RawMessage(Frame {
        prefix: None,
        command: Command::Response {
            code: 1,
            args: vec![],
            suffix: Some(String::from("Welcome")),
        },
    }));
    // only the raw echo, and with nobody registered its plan is empty
    assert_eq!(out.len(), 1);
    assert!(out[0].recipients.is_empty());
}

#[test]
fn publishing_with_no_subscribers_is_a_noop() {
    let world = World::new(());
    let plan = world.publish(Event::Connected);
    assert!(plan.recipients.is_empty());
    assert_eq!(plan.event, Event::Connected);
}

#[test]
fn dispatch_follows_registration_order() {
    let mut world = World::new(());
    let h1 = Handle { id: 1 };
    let h2 = Handle { id: 2 };
    world.handle_registration(Registration::<Connected>::register(h1));
    world.handle_registration(Registration::<Connected>::register(h2));

    let plan = world.publish(Event::Connected);
    assert_eq!(plan.recipients, vec![h1, h2]);
}

#[test]
fn unregistered_subscribers_no_longer_receive() {
    let mut world = World::new(());
    let h = Handle { id: 1 };
    world.handle_registration(Registration::<Connected>::register(h));
    world.handle_registration(Registration::<Connected>::unregister(h));
    let plan = world.publish(Event::Connected);
    assert!(plan.recipients.is_empty());
}

#[test]
fn start_listening_is_accepted_exactly_once() {
    let mut world = World::new(());
    assert!(world.handle_start_listening(StartListening).is_ok());
    assert!(world.handle_start_listening(StartListening).is_err());
}

#[test]
fn quit_stops_the_run_loop_with_success_whatever_the_transport_said() {
    let mut world = World::new(());
    let cmd = world.handle_quit(Quit::new("bye"));
    assert_eq!(
        cmd,
        SessionCommand::Quit {
            reason: String::from("bye")
        }
    );

    let d = world.settle_quit(Err(SessionError {
        message: String::from("connection reset"),
    }));
    assert_eq!(d, Directive::StopProcess { success: true });
    assert_eq!(*world.log_entries(), vec![String::from("connection reset")]);

    let mut quiet = World::new(());
    let d = quiet.settle_quit(Ok(()));
    assert_eq!(d, Directive::StopProcess { success: true });
    assert!(quiet.log_entries().is_empty());
}

#[test]
fn a_signal_is_a_quit_with_the_customary_reason() {
    let mut world = World::new(());
    let cmd = world.handle_signal();
    assert_eq!(
        cmd,
        SessionCommand::Quit {
            reason: String::from("Leaving...")
        }
    );
}

#[test]
fn failed_commands_are_logged_and_returned_but_never_fatal() {
    let mut world = World::new(());
    let cmd = world.handle_private_message(PrivateMessage {
        to: String::from("alice"),
        content: String::from("hi"),
    });
    assert_eq!(
        cmd,
        SessionCommand::SendPrivateMessage {
            to: String::from("alice"),
            content: String::from("hi"),
        }
    );

    let outcome = world.settle_private_message(Err(SessionError {
        message: String::from("cannot send"),
    }));
    assert!(outcome.is_err());
    assert_eq!(*world.log_entries(), vec![String::from("cannot send")]);

    let ok = world.settle_private_message(Ok(()));
    assert!(ok.is_ok());
    assert_eq!(world.log_entries().len(), 1);
}

#[test]
fn identify_is_forwarded_and_failures_logged() {
    let mut world = World::new(());
    assert_eq!(world.handle_identify(Identify), SessionCommand::Identify);
    let out = world.settle_identify(Err(SessionError {
        message: String::from("no nick"),
    }));
    assert!(out.is_err());
    assert_eq!(*world.log_entries(), vec![String::from("no nick")]);
}

#[test]
fn a_panic_report_is_fatal_for_the_whole_process() {
    let mut world = World::new(());
    let p = irc_bot::messages::Panic {
        message: String::from("boom"),
        file: String::from("bot.rs"),
        line: 10,
        column: 2,
        thread: Some(String::from("main")),
        backtrace: String::from("at bot.rs:10"),
    };
    let d = world.handle_panic(p);
    assert_eq!(d, Directive::StopProcess { success: false });

    // the full diagnostic is retained: nothing of the record is dropped
    let records = world.panic_records();
    assert_eq!(records.len(), 1);
    assert_eq!(records[0].message, "boom");
    assert_eq!(records[0].file, "bot.rs");
    assert_eq!(records[0].line, 10);
    assert_eq!(records[0].column, 2);
    assert_eq!(records[0].thread.as_deref(), Some("main"));
    assert_eq!(records[0].backtrace, "at bot.rs:10");
}

#[test]
fn failed_joins_are_logged_and_returned_but_never_fatal() {
    let mut world = World::new(());
    let cmd = world.handle_join(irc_bot::messages::Join {
        channels: String::from("#rust"),
    });
    assert_eq!(
        cmd,
        SessionCommand::JoinChannels {
            channels: String::from("#rust")
        }
    );

    let outcome = world.settle_join(Err(SessionError {
        message: String::from("no such channel"),
    }));
    assert!(outcome.is_err());
    assert_eq!(*world.log_entries(), vec![String::from("no such channel")]);

    let ok = world.settle_join(Ok(()));
    assert!(ok.is_ok());
    assert_eq!(world.log_entries().len(), 1);
}

#[test]
fn a_first_frame_with_a_derived_event_publishes_three_events() {
    let mut world = World::new(());
    let frame = not_registered_frame(vec!["*"]);
    let out = world.handle_raw_message(RawMessage(frame));
    // first frame: Connected, NotRegistered, Raw — in that order
    assert_eq!(out.len(), 3);
    assert_eq!(out[0].event, Event::Connected);
    assert!(matches!(out[1].event, Event::NotRegistered(_)));
    assert!(matches!(out[2].event, Event::Raw(_)));
}
