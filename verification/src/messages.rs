//! The messages understood by the supervisor and its subscribers.
//!
//! Domain events derived from the inbound stream ([`Connected`],
//! [`RawMessage`], [`NotRegistered`], [`PrivateMessageReceived`]), outbound
//! commands ([`PrivateMessage`], [`Join`], [`Identify`], [`Quit`]),
//! registration requests, and the record an unhandled panic is reported as.

use core::marker::PhantomData;
use vstd::prelude::*;

use crate::frame::{clone_opt_string, clone_string, clone_strings, Frame, FrameView};
use crate::registry::{
    register_in, unregister_in, EventType, Handle, MessageBox, RegistryOp,
};

verus! {

/// The registry tag of [`RawMessage`].
pub const TAG_RAW_MESSAGE: u64 = 1;

/// The registry tag of [`Connected`].
pub const TAG_CONNECTED: u64 = 2;

/// The registry tag of [`NotRegistered`].
pub const TAG_NOT_REGISTERED: u64 = 3;

/// The registry tag of [`PrivateMessageReceived`].
pub const TAG_PRIVATE_MESSAGE_RECEIVED: u64 = 4;

/// A raw message as received from the server; published for every inbound
/// frame.
#[derive(Debug, PartialEq)]
pub struct RawMessage(pub Frame);

impl View for RawMessage {
    type V = FrameView;

    open spec fn view(&self) -> FrameView {
        self.0@
    }
}

impl Clone for RawMessage {
    /// A copy of the message, with the same model.
    fn clone(&self) -> (r: RawMessage)
        ensures
            r@ == self@,
    {
        RawMessage(self.0.clone())
    }
}

impl EventType for RawMessage {
    open spec fn spec_tag() -> u64 {
        TAG_RAW_MESSAGE
    }

    fn tag() -> u64 {
        TAG_RAW_MESSAGE
    }
}

/// We have just connected to the server; published exactly once, before the
/// first raw message.
#[derive(Debug, Clone, Copy, PartialEq, Eq, Structural)]
pub struct Connected;

impl EventType for Connected {
    open spec fn spec_tag() -> u64 {
        TAG_CONNECTED
    }

    fn tag() -> u64 {
        TAG_CONNECTED
    }
}

/// The server reported a registration failure; carries the response's
/// diagnostic arguments.
#[derive(Debug, PartialEq)]
pub struct NotRegistered {
    pub args: Vec<String>,
    pub suffix: Option<String>,
}

/// The mathematical model of a [`NotRegistered`] event.
pub struct NotRegisteredView {
    pub args: Seq<Seq<char>>,
    pub suffix: Option<Seq<char>>,
}

impl View for NotRegistered {
    type V = NotRegisteredView;

    open spec fn view(&self) -> NotRegisteredView {
        NotRegisteredView { args: self.args.deep_view(), suffix: self.suffix.deep_view() }
    }
}

impl Clone for NotRegistered {
    /// A copy of the event, with the same model.
    fn clone(&self) -> (r: NotRegistered)
        ensures
            r@ == self@,
    {
        NotRegistered { args: clone_strings(&self.args), suffix: clone_opt_string(&self.suffix) }
    }
}

impl EventType for NotRegistered {
    open spec fn spec_tag() -> u64 {
        TAG_NOT_REGISTERED
    }

    fn tag() -> u64 {
        TAG_NOT_REGISTERED
    }
}

/// An inbound frame was a direct or channel text message.
#[derive(Debug, PartialEq)]
pub struct PrivateMessageReceived {
    pub msg_target: String,
    pub content: String,
    pub raw: Frame,
}

/// The mathematical model of a [`PrivateMessageReceived`] event.
pub struct PrivateMessageReceivedView {
    pub msg_target: Seq<char>,
    pub content: Seq<char>,
    pub raw: FrameView,
}

impl View for PrivateMessageReceived {
    type V = PrivateMessageReceivedView;

    open spec fn view(&self) -> PrivateMessageReceivedView {
        PrivateMessageReceivedView {
            msg_target: self.msg_target@,
            content: self.content@,
            raw: self.raw@,
        }
    }
}

impl Clone for PrivateMessageReceived {
    /// A copy of the event, with the same model.
    fn clone(&self) -> (r: PrivateMessageReceived)
        ensures
            r@ == self@,
    {
        PrivateMessageReceived {
            msg_target: clone_string(&self.msg_target),
            content: clone_string(&self.content),
            raw: self.raw.clone(),
        }
    }
}

impl EventType for PrivateMessageReceived {
    open spec fn spec_tag() -> u64 {
        TAG_PRIVATE_MESSAGE_RECEIVED
    }

    fn tag() -> u64 {
        TAG_PRIVATE_MESSAGE_RECEIVED
    }
}

/// A marker for the message types a bot can ask to receive.
pub trait BotMessage: EventType {}

impl BotMessage for RawMessage {}

impl BotMessage for Connected {}

impl BotMessage for NotRegistered {}

/// Tell the supervisor to disconnect from the server and halt the run loop.
#[derive(Debug, PartialEq)]
pub struct Quit {
    pub msg: String,
}

impl Quit {
    /// A quit request with the given disconnect reason.
    pub fn new(msg: &str) -> (q: Quit)
        ensures
            q.msg@ == msg@,
    {
        Quit { msg: msg.to_owned() }
    }
}

impl Default for Quit {
    /// A quit request with the customary disconnect reason.
    fn default() -> (q: Quit)
        ensures
            q.msg@ == "Leaving..."@,
    {
        Quit::new("Leaving...")
    }
}

/// Send a private message.
#[derive(Debug, PartialEq)]
pub struct PrivateMessage {
    pub to: String,
    pub content: String,
}

/// Join the given channels.
#[derive(Debug, PartialEq)]
pub struct Join {
    pub channels: String,
}

/// Identify with the server, typically by sending a nick and username.
#[derive(Debug, Clone, Copy, PartialEq, Eq, Structural)]
pub struct Identify;

/// Tell the supervisor to start listening for inbound frames.  Accepted at
/// most once; a second request is rejected with an explicit error.
#[derive(Debug, Clone, Copy, PartialEq, Eq, Structural)]
pub struct StartListening;

/// Ask what channels we are currently listening to.
#[derive(Debug, Clone, Copy, PartialEq, Eq, Structural)]
pub struct Channels;

/// Subscribe or unsubscribe a handle to the event type `M`.
pub struct Registration<M: EventType> {
    register: bool,
    recipient: Handle,
    marker: PhantomData<M>,
}

impl<M: EventType> Registration<M> {
    /// Whether this request adds (rather than removes) the handle.
    pub closed spec fn is_register(&self) -> bool {
        self.register
    }

    /// The handle the request is about.
    pub closed spec fn spec_recipient(&self) -> Handle {
        self.recipient
    }

    /// A request to add or remove `recipient` for the event type `M`.
    pub fn new(recipient: Handle, register: bool) -> (r: Registration<M>)
        ensures
            r.is_register() == register,
            r.spec_recipient() == recipient,
    {
        Registration { register, recipient, marker: PhantomData }
    }

    /// A request to subscribe `recipient` to the event type `M`.
    pub fn register(recipient: Handle) -> (r: Registration<M>)
        ensures
            r.is_register(),
            r.spec_recipient() == recipient,
    {
        Registration::new(recipient, true)
    }

    /// A request to unsubscribe `recipient` from the event type `M`.
    pub fn unregister(recipient: Handle) -> (r: Registration<M>)
        ensures
            !r.is_register(),
            r.spec_recipient() == recipient,
    {
        Registration::new(recipient, false)
    }

    /// A request about a whole actor: an actor is addressed by the handle
    /// that delivers to it, so this is registration under that handle.
    pub fn for_actor(addr: Handle, register: bool) -> (r: Registration<M>)
        ensures
            r.is_register() == register,
            r.spec_recipient() == addr,
    {
        Registration::new(addr, register)
    }

    /// Applies the request to a registry.
    pub fn apply(self, message_box: &mut MessageBox)
        requires
            old(message_box).wf(),
        ensures
            final(message_box).wf(),
            final(message_box)@ == (if self.is_register() {
                register_in(old(message_box)@, M::spec_tag(), self.spec_recipient())
            } else {
                unregister_in(old(message_box)@, M::spec_tag(), self.spec_recipient())
            }),
            final(message_box).history() == old(message_box).history().push(
                (if self.is_register() {
                    RegistryOp::Register { tag: M::spec_tag(), recipient: self.spec_recipient() }
                } else {
                    RegistryOp::Unregister { tag: M::spec_tag(), recipient: self.spec_recipient() }
                }),
            ),
    {
        let Registration { register, recipient, marker: _ } = self;
        if register {
            message_box.register::<M>(recipient);
        } else {
            message_box.unregister::<M>(recipient);
        }
    }
}

/// What an unhandled panic's payload turned out to hold: a recognizable
/// string, or something opaque.
#[derive(Debug, PartialEq)]
pub enum PanicPayload {
    Text(String),
    Opaque,
}

/// The diagnostic text extracted from a panic payload: the payload's own
/// string when it carries one, a generic label otherwise.
pub open spec fn spec_panic_message(p: PanicPayload) -> Seq<char> {
    match p {
        PanicPayload::Text(s) => s@,
        PanicPayload::Opaque => "Panic"@,
    }
}

/// Extracts a best-effort diagnostic string from a panic payload, falling
/// back to a generic label when the payload is not a recognizable string.
pub fn panic_message(payload: &PanicPayload) -> (m: String)
    ensures
        m@ == spec_panic_message(*payload),
{
    match payload {
        PanicPayload::Text(s) => clone_string(s),
        PanicPayload::Opaque => "Panic".to_owned(),
    }
}

/// The source location a panic was reported at.
#[derive(Debug, PartialEq)]
pub struct PanicLocation {
    pub file: String,
    pub line: u32,
    pub column: u32,
}

/// An unhandled panic, as forwarded to the logging and escalation path.
#[derive(Debug, PartialEq)]
pub struct Panic {
    pub message: String,
    pub file: String,
    pub line: u32,
    pub column: u32,
    pub thread: Option<String>,
    pub backtrace: String,
}

impl Panic {
    /// Builds the record the panic trap forwards: the payload's diagnostic
    /// text, the source location when one was reported, the thread's name
    /// when it has one, and the backtrace text.
    pub fn from_parts(
        payload: &PanicPayload,
        location: Option<PanicLocation>,
        thread: Option<String>,
        backtrace: String,
    ) -> (p: Panic)
        ensures
            p.message@ == spec_panic_message(*payload),
            (match location {
                Some(loc) => p.file == loc.file && p.line == loc.line && p.column == loc.column,
                None => p.file@ == Seq::<char>::empty() && p.line == 0 && p.column == 0,
            }),
            p.thread == thread,
            p.backtrace == backtrace,
    {
        let message = panic_message(payload);
        match location {
            Some(loc) => Panic {
                message,
                file: loc.file,
                line: loc.line,
                column: loc.column,
                thread,
                backtrace,
            },
            None => Panic { message, file: String::new(), line: 0, column: 0, thread, backtrace },
        }
    }

    /// The backtrace as the log should carry it: absent when its text is
    /// empty.
    pub fn backtrace_text(&self) -> (r: Option<String>)
        ensures
            (match r {
                Some(bt) => bt@ == self.backtrace@ && self.backtrace@.len() > 0,
                None => self.backtrace@.len() == 0,
            }),
    {
        if self.backtrace.as_str().is_empty() {
            None
        } else {
            Some(clone_string(&self.backtrace))
        }
    }
}

impl Default for Panic {
    /// A panic record with no information at all.
    fn default() -> (p: Panic)
        ensures
            p.message@ == Seq::<char>::empty(),
            p.file@ == Seq::<char>::empty(),
            p.line == 0,
            p.column == 0,
            p.thread is None,
            p.backtrace@ == Seq::<char>::empty(),
    {
        Panic {
            message: String::new(),
            file: String::new(),
            line: 0,
            column: 0,
            thread: None,
            backtrace: String::new(),
        }
    }
}

/// A command for the external protocol session, produced by the supervisor
/// and performed by the surrounding runtime.
#[derive(Debug, PartialEq)]
pub enum SessionCommand {
    SendPrivateMessage { to: String, content: String },
    JoinChannels { channels: String },
    Identify,
    Quit { reason: String },
}

/// An error reported by the external protocol session, carried as its text.
#[derive(Debug, PartialEq)]
pub struct SessionError {
    pub message: String,
}

} // verus!
