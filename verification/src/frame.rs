//! The model of a raw inbound protocol frame.
//!
//! The wire protocol itself (framing, line parsing) is owned by an external
//! client library; the supervisor only ever inspects a frame's prefix and
//! command, so a frame is modelled as exactly those parts, as plain values.

use vstd::prelude::*;

verus! {

/// The numeric server response that reports a registration failure.
pub const ERR_NOTREGISTERED: u16 = 451;

/// The parts of a frame's command that the supervisor inspects.
#[derive(Debug, PartialEq)]
pub enum Command {
    /// A numeric server response with its arguments and optional suffix.
    Response { code: u16, args: Vec<String>, suffix: Option<String> },
    /// A direct or channel text message.
    PrivMsg { target: String, content: String },
    /// Any other command; the supervisor treats its content as opaque.
    Other,
}

/// A raw inbound protocol frame.
#[derive(Debug, PartialEq)]
pub struct Frame {
    /// The frame's origin prefix, when the server sent one.
    pub prefix: Option<String>,
    /// The frame's command.
    pub command: Command,
}

/// The mathematical model of a [`Command`].
pub enum CommandView {
    Response { code: u16, args: Seq<Seq<char>>, suffix: Option<Seq<char>> },
    PrivMsg { target: Seq<char>, content: Seq<char> },
    Other,
}

/// The mathematical model of a [`Frame`].
pub struct FrameView {
    pub prefix: Option<Seq<char>>,
    pub command: CommandView,
}

impl View for Command {
    type V = CommandView;

    open spec fn view(&self) -> CommandView {
        match self {
            Command::Response { code, args, suffix } => CommandView::Response {
                code: *code,
                args: args.deep_view(),
                suffix: suffix.deep_view(),
            },
            Command::PrivMsg { target, content } => CommandView::PrivMsg {
                target: target@,
                content: content@,
            },
            Command::Other => CommandView::Other,
        }
    }
}

impl View for Frame {
    type V = FrameView;

    open spec fn view(&self) -> FrameView {
        FrameView { prefix: self.prefix.deep_view(), command: self.command@ }
    }
}

/// A copy of a string, equal to the original in every character.
pub fn clone_string(s: &String) -> (r: String)
    ensures
        r@ == s@,
{
    s.clone()
}

/// A copy of an optional string, equal to the original.
pub fn clone_opt_string(s: &Option<String>) -> (r: Option<String>)
    ensures
        r.deep_view() == s.deep_view(),
{
    match s {
        Some(inner) => Some(clone_string(inner)),
        None => None,
    }
}

/// A copy of a list of strings, equal to the original element by element.
pub fn clone_strings(v: &Vec<String>) -> (r: Vec<String>)
    ensures
        r.deep_view() == v.deep_view(),
{
    let n = v.len();
    let mut out: Vec<String> = Vec::new();
    let mut i: usize = 0;
    while i < n
        invariant
            n == v@.len(),
            i <= n,
            out.deep_view() == v.deep_view().subrange(0, i as int),
        decreases n - i,
    {
        let ghost prev = out@;
        proof {
            assert(out.deep_view().len() == i as int);
            assert(prev.len() == i as int);
        }
        let copied = clone_string(&v[i]);
        out.push(copied);
        proof {
            assert(out@ == prev.push(copied));
            assert forall|k: int| 0 <= k < out@.len() implies out.deep_view()[k] == v.deep_view()
                .subrange(0, i as int + 1)[k] by {
                if k < i as int {
                    assert(out@[k] == prev[k]);
                }
            }
            assert(out.deep_view() =~= v.deep_view().subrange(0, i as int + 1));
        }
        i += 1;
    }
    proof {
        assert(out.deep_view() =~~= v.deep_view());
    }
    out
}

impl Clone for Command {
    /// A copy of the command, with the same model.
    fn clone(&self) -> (r: Command)
        ensures
            r@ == self@,
    {
        match self {
            Command::Response { code, args, suffix } => Command::Response {
                code: *code,
                args: clone_strings(args),
                suffix: clone_opt_string(suffix),
            },
            Command::PrivMsg { target, content } => Command::PrivMsg {
                target: clone_string(target),
                content: clone_string(content),
            },
            Command::Other => Command::Other,
        }
    }
}

impl Clone for Frame {
    /// A copy of the frame, with the same model.
    fn clone(&self) -> (r: Frame)
        ensures
            r@ == self@,
    {
        Frame { prefix: clone_opt_string(&self.prefix), command: self.command.clone() }
    }
}

} // verus!
