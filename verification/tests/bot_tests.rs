//! The auto-identify bot's consumer contract.

use irc_bot::logging::{Directive, Logger};
use irc_bot::messages::{Connected, SessionCommand, SessionError};
use irc_bot::Bot;

#[test]
fn on_connected_the_bot_identifies_then_messages_the_nickname_service() {
    let bot = Bot::new(Logger::new(), String::from("hunter2"));
    let cmds = bot.handle_connected(Connected);
    assert_eq!(cmds.len(), 2);
    assert_eq!(cmds[0], SessionCommand::Identify);
    assert_eq!(
        cmds[1],
        SessionCommand::SendPrivateMessage {
            to: String::from("NickServ"),
            content: String::from("IDENTIFY hunter2"),
        }
    );
}

#[test]
fn a_successful_identification_keeps_the_bot_running() {
    let mut bot = Bot::new(Logger::new(), String::from("pw"));
    let d = bot.settle_identification(Ok(()));
    assert_eq!(d, Directive::Continue);
}

#[test]
fn a_failed_identification_is_fatal_and_logged() {
    let mut bot = Bot::new(Logger::new(), String::from("pw"));
    let d = bot.settle_identification(Err(SessionError {
        message: String::from("Unable to identify"),
    }));
    assert_eq!(d, Directive::StopProcess { success: false });
}
