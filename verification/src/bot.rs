//! The auto-identify bot: a subscriber that reacts to `Connected`.
//!
//! On connection it identifies with the server and sends the identification
//! password to the nickname service.  Its business logic is deliberately
//! small; what matters is its consumer contract: exactly which commands it
//! issues back through the supervisor, and that a failed identification is
//! a fatal condition.

use vstd::prelude::*;
use vstd::string::StringExecFns;

use crate::logging::{Directive, Logger};
use crate::messages::{Connected, SessionCommand, SessionError};

verus! {

/// A consumer of `Connected` that identifies the bot with the server.
#[derive(Debug)]
pub struct Bot {
    logger: Logger,
    identify_password: String,
}

impl Bot {
    /// The password sent to the nickname service.
    pub closed spec fn password(&self) -> Seq<char> {
        self.identify_password@
    }

    /// The diagnostics logged so far.
    pub closed spec fn log(&self) -> Seq<Seq<char>> {
        self.logger@
    }

    /// A bot that will identify with the given password.
    pub fn new(logger: Logger, identify_password: String) -> (b: Bot)
        ensures
            b.password() == identify_password@,
            b.log() == logger@,
    {
        Bot { logger, identify_password }
    }

    /// On `Connected`: identify, then tell the nickname service the
    /// password — exactly those two commands, in that order.  Hand the
    /// combined outcome to [`Bot::settle_identification`].
    pub fn handle_connected(&self, _msg: Connected) -> (cmds: Vec<SessionCommand>)
        ensures
            cmds@.len() == 2,
            cmds@[0] == SessionCommand::Identify,
            cmds@[1] matches SessionCommand::SendPrivateMessage { to, content } && to@
                == "NickServ"@ && content@ == "IDENTIFY "@ + self.password(),
    {
        let to = String::from_str("NickServ");
        let content = String::from_str("IDENTIFY ").concat(self.identify_password.as_str());
        let mut cmds: Vec<SessionCommand> = Vec::new();
        cmds.push(SessionCommand::Identify);
        cmds.push(SessionCommand::SendPrivateMessage { to, content });
        cmds
    }

    /// After the identification commands were performed: a failure is
    /// logged and treated as fatal — an unidentified bot is of no use, so
    /// the process is stopped with a failure status.
    pub fn settle_identification(&mut self, outcome: Result<(), SessionError>) -> (d: Directive)
        ensures
            final(self).password() == old(self).password(),
            final(self).log() == (match outcome {
                Ok(()) => old(self).log(),
                Err(e) => old(self).log().push(e.message@),
            }),
            d == (match outcome {
                Ok(()) => Directive::Continue,
                Err(_) => Directive::StopProcess { success: false },
            }),
    {
        match outcome {
            Ok(()) => Directive::Continue,
            Err(e) => {
                self.logger.log(e.message);
                Directive::StopProcess { success: false }
            },
        }
    }
}

} // verus!
