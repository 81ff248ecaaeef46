//! Message construction, the panic record, and the diagnostics sink.

use irc_bot::config::Args;
use irc_bot::logging::{log_level, Directive, Level, Logger, Oops};
use irc_bot::messages::{panic_message, Panic, PanicLocation, PanicPayload, Quit};
use irc_bot::{Command, Frame};

#[test]
fn quit_carries_its_reason_and_defaults_to_the_customary_one() {
    assert_eq!(Quit::new("bye").msg, "bye");
    assert_eq!(Quit::default().msg, "Leaving...");
}

#[test]
fn panic_messages_come_from_the_payload_when_it_is_text() {
    assert_eq!(
        panic_message(&PanicPayload::Text(String::from("index out of bounds"))),
        "index out of bounds"
    );
    assert_eq!(panic_message(&PanicPayload::Opaque), "Panic");
}

#[test]
fn a_panic_record_keeps_its_location_when_one_was_reported() {
    let p = Panic::from_parts(
        &PanicPayload::Text(String::from("boom")),
        Some(PanicLocation {
            file: String::from("src/bot.rs"),
            line: 42,
            column: 7,
        }),
        Some(String::from("worker")),
        String::from("stack trace"),
    );
    assert_eq!(p.message, "boom");
    assert_eq!(p.file, "src/bot.rs");
    assert_eq!(p.line, 42);
    assert_eq!(p.column, 7);
    assert_eq!(p.thread.as_deref(), Some("worker"));
    assert_eq!(p.backtrace, "stack trace");
}

#[test]
fn a_panic_record_without_a_location_falls_back_to_defaults() {
    let p = Panic::from_parts(&PanicPayload::Opaque, None, None, String::new());
    assert_eq!(p.message, "Panic");
    assert_eq!(p.file, "");
    assert_eq!(p.line, 0);
    assert_eq!(p.column, 0);
    assert!(p.thread.is_none());
}

#[test]
fn an_empty_backtrace_is_logged_as_absent() {
    let mut p = Panic::default();
    assert!(p.backtrace_text().is_none());
    p.backtrace = String::from("at main");
    assert_eq!(p.backtrace_text().as_deref(), Some("at main"));
}

#[test]
fn a_fatal_report_stops_the_process_and_a_plain_one_does_not() {
    let mut logger = Logger::new();
    let d = logger.handle_oops(Oops::new(String::from("could not join")));
    assert_eq!(d, Directive::Continue);
    let d = logger.handle_oops(Oops::fatal(String::from("panicked")));
    assert_eq!(d, Directive::StopProcess { success: false });

    let reports = logger.fault_reports();
    assert_eq!(reports.len(), 2);
    assert_eq!(reports[0].error, "could not join");
    assert!(!reports[0].fatal);
    assert_eq!(reports[1].error, "panicked");
    assert!(reports[1].fatal);
}

#[test]
fn a_failure_report_keeps_its_backtrace_text() {
    let mut logger = Logger::new();
    let report = Oops {
        error: String::from("subscriber died"),
        fatal: true,
        backtrace: String::from("at fan-out"),
    };
    logger.handle_oops(report);
    let reports = logger.fault_reports();
    assert_eq!(reports.len(), 1);
    assert_eq!(reports[0].backtrace, "at fan-out");
}

#[test]
fn a_retained_panic_record_keeps_every_field() {
    let mut logger = Logger::new();
    let p = Panic {
        message: String::from("oh no"),
        file: String::from("lib.rs"),
        line: 3,
        column: 4,
        thread: None,
        backtrace: String::from("trace"),
    };
    logger.handle_panic(p);
    let records = logger.panic_records();
    assert_eq!(records.len(), 1);
    assert_eq!(records[0].message, "oh no");
    assert_eq!(records[0].file, "lib.rs");
    assert_eq!(records[0].line, 3);
    assert_eq!(records[0].column, 4);
    assert!(records[0].thread.is_none());
    assert_eq!(records[0].backtrace, "trace");
}

#[test]
fn verbosity_selects_the_log_level() {
    assert_eq!(log_level(0), Level::Info);
    assert_eq!(log_level(1), Level::Debug);
    assert_eq!(log_level(2), Level::Trace);
    assert_eq!(log_level(9), Level::Trace);
}

#[test]
fn the_default_arguments_match_the_customary_setup() {
    let args = Args::default();
    assert_eq!(args.nick, "Michael-F-Bryan");
    assert_eq!(args.server, "irc.mozilla.org");
    assert_eq!(args.identify, "");
    assert!(args.channels.is_empty());
    assert_eq!(args.verbosity, 0);
}

#[test]
fn cloned_frames_equal_their_original() {
    let frame = Frame {
        prefix: Some(String::from("server")),
        command: Command::Response {
            code: 451,
            args: vec![String::from("*")],
            suffix: Some(String::from("You have not registered")),
        },
    };
    assert_eq!(frame.clone(), frame);
    let pm = Frame {
        prefix: None,
        command: Command::PrivMsg {
            target: String::from("#chat"),
            content: String::from("hi"),
        },
    };
    assert_eq!(pm.clone(), pm);
}
