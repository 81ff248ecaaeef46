//! The start-up configuration.

use vstd::prelude::*;

verus! {

/// What the bot needs to know at start-up.  The surrounding runtime fills
/// this in, typically from the command line.
#[derive(Debug, PartialEq)]
pub struct Args {
    /// The nickname to use.
    pub nick: String,
    /// The password to use when identifying with the server.
    pub identify: String,
    /// The server to connect to.
    pub server: String,
    /// The channels to join on startup.
    pub channels: Vec<String>,
    /// How verbose the diagnostics output should be.
    pub verbosity: usize,
}

impl Default for Args {
    /// The customary defaults: the author's nickname, the Mozilla server,
    /// no channels, no password, quiet output.
    fn default() -> (a: Args)
        ensures
            a.nick@ == "Michael-F-Bryan"@,
            a.identify@ == Seq::<char>::empty(),
            a.server@ == "irc.mozilla.org"@,
            a.channels.deep_view() == Seq::<Seq<char>>::empty(),
            a.verbosity == 0,
    {
        let a = Args {
            nick: "Michael-F-Bryan".to_owned(),
            identify: String::new(),
            server: "irc.mozilla.org".to_owned(),
            channels: Vec::new(),
            verbosity: 0,
        };
        proof {
            assert(a.channels.deep_view() =~= Seq::<Seq<char>>::empty());
        }
        a
    }
}

} // verus!
