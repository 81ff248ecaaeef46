//! The connection supervisor: the entire state of the world.
//!
//! A [`World`] owns the external protocol session handle, the subscriber
//! registry, and the fatal-shutdown decision.  Every inbound frame is turned
//! into a sequence of published events with hard ordering guarantees:
//! `Connected` is published exactly once, strictly before the first frame's
//! own raw echo, and a frame's derived events always precede that echo.
//!
//! The supervisor never performs I/O itself: outbound commands are returned
//! as [`SessionCommand`] values for the surrounding runtime to perform, and
//! the transport's outcome is handed back to a `settle_*` method, which logs
//! any failure and decides whether the run loop keeps going.  A transport
//! failure is never fatal; of quit, an OS signal, and an escalated fatal
//! condition — the only paths that stop anything — each stops the entire
//! process, as [`Directive`] records.

use vstd::prelude::*;

use crate::bus::{event_tag, tag_of, Event, EventView, Publish};
use crate::channel::Channel;
use crate::frame::{
    clone_opt_string, clone_string, clone_strings, Command, CommandView, FrameView,
    ERR_NOTREGISTERED,
};
use crate::logging::{Directive, Logger, Oops};
use crate::messages::{
    Identify, Join, NotRegistered, NotRegisteredView, Panic, PrivateMessage,
    PrivateMessageReceived, PrivateMessageReceivedView, Quit, RawMessage, Registration,
    SessionCommand, SessionError, StartListening,
};
use crate::registry::{apply_op, recipients_in, EventType, Handle, MessageBox, RegistryOp};

verus! {

/// Listening was already started; a second start is rejected rather than
/// risking the inbound stream being attached twice.
#[derive(Debug, Clone, Copy, PartialEq, Eq, Structural)]
pub struct AlreadyListening;

/// The events a frame gives rise to beyond its raw echo: a registration
/// failure report, or a received private message.  A frame matching neither
/// shape derives nothing; that is not an error.
pub open spec fn derived_events(f: FrameView) -> Seq<EventView> {
    match f.command {
        CommandView::Response { code, args, suffix } => {
            if code == ERR_NOTREGISTERED {
                seq![
                    EventView::NotRegistered(
                        NotRegisteredView { args, suffix },
                    ),
                ]
            } else {
                Seq::empty()
            }
        },
        CommandView::PrivMsg { target, content } => {
            seq![
                EventView::PrivateMessageReceived(
                    PrivateMessageReceivedView {
                        msg_target: target,
                        content,
                        raw: f,
                    },
                ),
            ]
        },
        CommandView::Other => Seq::empty(),
    }
}

/// Everything one inbound frame publishes, in publish order: `Connected`
/// first when this is the very first frame, then the frame's derived
/// events, then — always last — the frame's own raw echo.
pub open spec fn events_for_frame(first: bool, f: FrameView) -> Seq<EventView> {
    (if first {
        seq![EventView::Connected]
    } else {
        Seq::<EventView>::empty()
    }) + derived_events(f) + seq![EventView::Raw(f)]
}

/// The entire state of the world.
pub struct World<C> {
    hooks: MessageBox,
    channels: Vec<Channel>,
    client: C,
    logger: Logger,
    message_count: usize,
    listening: bool,
}

impl<C> World<C> {
    /// The subscriber registry's state: tag to ordered handle list.
    pub closed spec fn registry(&self) -> Map<u64, Seq<Handle>> {
        self.hooks@
    }

    /// Every registry operation applied so far, in order.
    pub closed spec fn registry_history(&self) -> Seq<RegistryOp> {
        self.hooks.history()
    }

    /// How many inbound frames have been handled.
    pub closed spec fn count(&self) -> usize {
        self.message_count
    }

    /// Whether listening has been started.
    pub closed spec fn is_listening(&self) -> bool {
        self.listening
    }

    /// The plain diagnostic lines logged so far.
    pub closed spec fn log(&self) -> Seq<Seq<char>> {
        self.logger@
    }

    /// The failure reports retained so far, each with its text, fatal flag
    /// and backtrace text.
    pub closed spec fn reports(&self) -> Seq<Oops> {
        self.logger.reports()
    }

    /// The panic records retained so far, each with its message, file,
    /// line, column, thread and backtrace.
    pub closed spec fn panics(&self) -> Seq<Panic> {
        self.logger.panics()
    }

    /// The owned session handle.
    pub closed spec fn spec_client(&self) -> C {
        self.client
    }

    /// The channels currently listened to.
    pub closed spec fn channel_list(&self) -> Seq<Channel> {
        self.channels@
    }

    /// Well-formed: the registry's state matches its history.
    pub closed spec fn wf(&self) -> bool {
        self.hooks.wf()
    }

    /// Everything but the diagnostics sink is as it was.
    pub open spec fn only_log_changed(pre: Self, post: Self) -> bool {
        &&& post.registry() == pre.registry()
        &&& post.registry_history() == pre.registry_history()
        &&& post.count() == pre.count()
        &&& post.is_listening() == pre.is_listening()
        &&& post.spec_client() == pre.spec_client()
        &&& post.channel_list() == pre.channel_list()
    }

    /// Nothing observable changed at all.
    pub open spec fn unchanged(pre: Self, post: Self) -> bool {
        &&& Self::only_log_changed(pre, post)
        &&& post.log() == pre.log()
        &&& post.reports() == pre.reports()
        &&& post.panics() == pre.panics()
    }

    /// A world around a session handle, with a fresh silent log.
    pub fn new(client: C) -> (w: World<C>)
        ensures
            w.wf(),
            w.registry() == Map::<u64, Seq<Handle>>::empty(),
            w.registry_history() == Seq::<RegistryOp>::empty(),
            w.count() == 0,
            !w.is_listening(),
            w.log() == Seq::<Seq<char>>::empty(),
            w.reports() == Seq::<Oops>::empty(),
            w.panics() == Seq::<Panic>::empty(),
            w.spec_client() == client,
            w.channel_list() == Seq::<Channel>::empty(),
    {
        World::new_with_logger(client, Logger::new())
    }

    /// A world around a session handle, logging into the given sink.
    pub fn new_with_logger(client: C, logger: Logger) -> (w: World<C>)
        ensures
            w.wf(),
            w.registry() == Map::<u64, Seq<Handle>>::empty(),
            w.registry_history() == Seq::<RegistryOp>::empty(),
            w.count() == 0,
            !w.is_listening(),
            w.log() == logger@,
            w.reports() == logger.reports(),
            w.panics() == logger.panics(),
            w.spec_client() == client,
            w.channel_list() == Seq::<Channel>::empty(),
    {
        World {
            client,
            logger,
            hooks: MessageBox::new(),
            channels: Vec::new(),
            message_count: 0,
            listening: false,
        }
    }

    /// The owned session handle, for the runtime performing commands.
    pub fn client(&self) -> (c: &C)
        ensures
            *c == self.spec_client(),
    {
        &self.client
    }

    /// The channels currently listened to.
    pub fn channels(&self) -> (r: &Vec<Channel>)
        ensures
            r@ == self.channel_list(),
    {
        &self.channels
    }

    /// The diagnostic lines logged so far, for forwarding or inspection.
    pub fn log_entries(&self) -> (r: &Vec<String>)
        ensures
            r.deep_view() == self.log(),
    {
        self.logger.entries()
    }

    /// The retained failure reports, for forwarding or inspection.
    pub fn fault_reports(&self) -> (r: &Vec<Oops>)
        ensures
            r@ == self.reports(),
    {
        self.logger.fault_reports()
    }

    /// The retained panic records, for forwarding or inspection.
    pub fn panic_records(&self) -> (r: &Vec<Panic>)
        ensures
            r@ == self.panics(),
    {
        self.logger.panic_records()
    }

    /// Applies a subscription request to the registry, synchronously with
    /// respect to the supervisor's own loop.
    pub fn handle_registration<M: EventType>(&mut self, msg: Registration<M>)
        requires
            old(self).wf(),
        ensures
            final(self).wf(),
            final(self).registry() == apply_op(
                old(self).registry(),
                (if msg.is_register() {
                    RegistryOp::Register { tag: M::spec_tag(), recipient: msg.spec_recipient() }
                } else {
                    RegistryOp::Unregister { tag: M::spec_tag(), recipient: msg.spec_recipient() }
                }),
            ),
            final(self).registry_history() == old(self).registry_history().push(
                (if msg.is_register() {
                    RegistryOp::Register { tag: M::spec_tag(), recipient: msg.spec_recipient() }
                } else {
                    RegistryOp::Unregister { tag: M::spec_tag(), recipient: msg.spec_recipient() }
                }),
            ),
            final(self).count() == old(self).count(),
            final(self).is_listening() == old(self).is_listening(),
            final(self).log() == old(self).log(),
            final(self).reports() == old(self).reports(),
            final(self).panics() == old(self).panics(),
            final(self).spec_client() == old(self).spec_client(),
            final(self).channel_list() == old(self).channel_list(),
    {
        msg.apply(&mut self.hooks);
    }

    /// Attaches the inbound stream: allowed exactly once.  A second request
    /// is rejected with an explicit error and changes nothing.
    pub fn handle_start_listening(&mut self, _msg: StartListening) -> (r: Result<(), AlreadyListening>)
        requires
            old(self).wf(),
        ensures
            final(self).wf(),
            r is Ok <==> !old(self).is_listening(),
            final(self).is_listening(),
            final(self).registry() == old(self).registry(),
            final(self).registry_history() == old(self).registry_history(),
            final(self).count() == old(self).count(),
            final(self).log() == old(self).log(),
            final(self).reports() == old(self).reports(),
            final(self).panics() == old(self).panics(),
            final(self).spec_client() == old(self).spec_client(),
            final(self).channel_list() == old(self).channel_list(),
    {
        if self.listening {
            Err(AlreadyListening)
        } else {
            self.listening = true;
            Ok(())
        }
    }

    /// The fan-out plan for one event: the event, and every handle currently
    /// registered for its type, in registration order.  Publishing mutates
    /// nothing and cannot fail; with no subscribers the plan is simply
    /// empty.
    pub fn publish(&self, event: Event) -> (p: Publish)
        requires
            self.wf(),
        ensures
            p.event == event,
            p.recipients@ == recipients_in(self.registry(), tag_of(event@)),
    {
        let t = event_tag(&event);
        let recipients = self.hooks.recipients_tag(t);
        Publish { event, recipients }
    }

    /// Handles one inbound frame: publishes `Connected` first if this is the
    /// very first frame, then the frame's derived events, then the frame's
    /// raw echo, each fanned out to the handles registered for its type at
    /// the time of the call.  The frame counter grows by one (saturating at
    /// the machine limit, far beyond any session's lifetime).
    pub fn handle_raw_message(&mut self, msg: RawMessage) -> (out: Vec<Publish>)
        requires
            old(self).wf(),
        ensures
            final(self).wf(),
            final(self).registry() == old(self).registry(),
            final(self).registry_history() == old(self).registry_history(),
            final(self).is_listening() == old(self).is_listening(),
            final(self).log() == old(self).log(),
            final(self).reports() == old(self).reports(),
            final(self).panics() == old(self).panics(),
            final(self).spec_client() == old(self).spec_client(),
            final(self).channel_list() == old(self).channel_list(),
            final(self).count() == (if old(self).count() < usize::MAX {
                (old(self).count() + 1) as usize
            } else {
                old(self).count()
            }),
            out@.len() == events_for_frame(old(self).count() == 0, msg@).len(),
            forall|k: int|
                0 <= k < out@.len() ==> (#[trigger] out@[k]).event@ == events_for_frame(
                    old(self).count() == 0,
                    msg@,
                )[k] && out@[k].recipients@ == recipients_in(
                    old(self).registry(),
                    tag_of(events_for_frame(old(self).count() == 0, msg@)[k]),
                ),
    {
        let ghost fv = msg@;
        let first = self.message_count == 0;
        let ghost evs = events_for_frame(first, fv);
        let mut events: Vec<Event> = Vec::new();
        if first {
            events.push(Event::Connected);
        }
        match &msg.0.command {
            Command::Response { code, args, suffix } => {
                if *code == ERR_NOTREGISTERED {
                    events.push(
                        Event::NotRegistered(
                            NotRegistered {
                                args: clone_strings(args),
                                suffix: clone_opt_string(suffix),
                            },
                        ),
                    );
                }
            },
            Command::PrivMsg { target, content } => {
                events.push(
                    Event::PrivateMessageReceived(
                        PrivateMessageReceived {
                            msg_target: clone_string(target),
                            content: clone_string(content),
                            raw: msg.0.clone(),
                        },
                    ),
                );
            },
            Command::Other => {},
        }
        events.push(Event::Raw(msg));
        proof {
            assert(events@.len() == evs.len());
            assert(forall|k: int| 0 <= k < events@.len() ==> (#[trigger] events@[k])@ == evs[k]);
        }
        if self.message_count < usize::MAX {
            self.message_count = self.message_count + 1;
        }
        let mut out: Vec<Publish> = Vec::new();
        let mut rest = events;
        while rest.len() > 0
            invariant
                self.wf(),
                out@.len() + rest@.len() == evs.len(),
                forall|k: int|
                    0 <= k < out@.len() ==> (#[trigger] out@[k]).event@ == evs[k]
                        && out@[k].recipients@ == recipients_in(self.registry(), tag_of(evs[k])),
                forall|k: int|
                    0 <= k < rest@.len() ==> (#[trigger] rest@[k])@ == evs[out@.len() + k],
            decreases rest@.len(),
        {
            let e = rest.remove(0);
            let p = self.publish(e);
            out.push(p);
        }
        out
    }

    /// A quit request: the session is told to disconnect with the request's
    /// reason.  Hand the transport's outcome to [`World::settle_quit`].
    pub fn handle_quit(&mut self, msg: Quit) -> (cmd: SessionCommand)
        requires
            old(self).wf(),
        ensures
            final(self).wf(),
            Self::unchanged(*old(self), *final(self)),
            cmd == (SessionCommand::Quit { reason: msg.msg }),
    {
        SessionCommand::Quit { reason: msg.msg }
    }

    /// An OS-level interrupt is treated as a quit with the customary
    /// disconnect reason.  Hand the outcome to [`World::settle_quit`].
    pub fn handle_signal(&mut self) -> (cmd: SessionCommand)
        requires
            old(self).wf(),
        ensures
            final(self).wf(),
            Self::unchanged(*old(self), *final(self)),
            cmd matches SessionCommand::Quit { reason } && reason@ == "Leaving..."@,
    {
        SessionCommand::Quit { reason: "Leaving...".to_owned() }
    }

    /// After the session was told to quit: a transport failure is logged,
    /// never escalated, and either way the run loop stops with a success
    /// status — quitting is the one normal, intentional termination path.
    pub fn settle_quit(&mut self, outcome: Result<(), SessionError>) -> (d: Directive)
        requires
            old(self).wf(),
        ensures
            final(self).wf(),
            Self::only_log_changed(*old(self), *final(self)),
            final(self).log() == (match outcome {
                Ok(()) => old(self).log(),
                Err(e) => old(self).log().push(e.message@),
            }),
            final(self).reports() == old(self).reports(),
            final(self).panics() == old(self).panics(),
            d == (Directive::StopProcess { success: true }),
    {
        match outcome {
            Ok(()) => {},
            Err(e) => { self.logger.log(e.message) },
        }
        Directive::StopProcess { success: true }
    }

    /// A request to send a private message is forwarded verbatim to the
    /// session.  Hand the outcome to [`World::settle_private_message`].
    pub fn handle_private_message(&mut self, msg: PrivateMessage) -> (cmd: SessionCommand)
        requires
            old(self).wf(),
        ensures
            final(self).wf(),
            Self::unchanged(*old(self), *final(self)),
            cmd == (SessionCommand::SendPrivateMessage { to: msg.to, content: msg.content }),
    {
        SessionCommand::SendPrivateMessage { to: msg.to, content: msg.content }
    }

    /// After a private message was sent: a failure is logged and returned to
    /// the caller; the supervisor keeps running either way.
    pub fn settle_private_message(&mut self, outcome: Result<(), SessionError>) -> (r: Result<
        (),
        SessionError,
    >)
        requires
            old(self).wf(),
        ensures
            final(self).wf(),
            Self::only_log_changed(*old(self), *final(self)),
            final(self).log() == (match outcome {
                Ok(()) => old(self).log(),
                Err(e) => old(self).log().push(e.message@),
            }),
            final(self).reports() == old(self).reports(),
            final(self).panics() == old(self).panics(),
            r == outcome,
    {
        if let Err(e) = &outcome {
            self.logger.log(clone_string(&e.message));
        }
        outcome
    }

    /// A join request is forwarded verbatim to the session; its outcome goes
    /// straight back to the caller through [`World::settle_join`].
    pub fn handle_join(&mut self, msg: Join) -> (cmd: SessionCommand)
        requires
            old(self).wf(),
        ensures
            final(self).wf(),
            Self::unchanged(*old(self), *final(self)),
            cmd == (SessionCommand::JoinChannels { channels: msg.channels }),
    {
        SessionCommand::JoinChannels { channels: msg.channels }
    }

    /// After a join: a failure is logged and returned to the caller; the
    /// supervisor keeps running either way.
    pub fn settle_join(&mut self, outcome: Result<(), SessionError>) -> (r: Result<
        (),
        SessionError,
    >)
        requires
            old(self).wf(),
        ensures
            final(self).wf(),
            Self::only_log_changed(*old(self), *final(self)),
            final(self).log() == (match outcome {
                Ok(()) => old(self).log(),
                Err(e) => old(self).log().push(e.message@),
            }),
            final(self).reports() == old(self).reports(),
            final(self).panics() == old(self).panics(),
            r == outcome,
    {
        if let Err(e) = &outcome {
            self.logger.log(clone_string(&e.message));
        }
        outcome
    }

    /// An identify request is forwarded verbatim to the session.  Hand the
    /// outcome to [`World::settle_identify`].
    pub fn handle_identify(&mut self, _msg: Identify) -> (cmd: SessionCommand)
        requires
            old(self).wf(),
        ensures
            final(self).wf(),
            Self::unchanged(*old(self), *final(self)),
            cmd == SessionCommand::Identify,
    {
        SessionCommand::Identify
    }

    /// After an identify: a failure is logged and returned to the caller;
    /// the supervisor keeps running either way.
    pub fn settle_identify(&mut self, outcome: Result<(), SessionError>) -> (r: Result<
        (),
        SessionError,
    >)
        requires
            old(self).wf(),
        ensures
            final(self).wf(),
            Self::only_log_changed(*old(self), *final(self)),
            final(self).log() == (match outcome {
                Ok(()) => old(self).log(),
                Err(e) => old(self).log().push(e.message@),
            }),
            final(self).reports() == old(self).reports(),
            final(self).panics() == old(self).panics(),
            r == outcome,
    {
        if let Err(e) = &outcome {
            self.logger.log(clone_string(&e.message));
        }
        outcome
    }

    /// A reported panic is a fatal condition: the full diagnostic —
    /// message, file, line, column, thread, backtrace — is retained in the
    /// sink with nothing dropped, and the whole process is stopped with a
    /// failure status.
    pub fn handle_panic(&mut self, msg: Panic) -> (d: Directive)
        requires
            old(self).wf(),
        ensures
            final(self).wf(),
            Self::only_log_changed(*old(self), *final(self)),
            final(self).panics() == old(self).panics().push(msg),
            final(self).log() == old(self).log(),
            final(self).reports() == old(self).reports(),
            d == (Directive::StopProcess { success: false }),
    {
        self.logger.handle_panic(msg);
        Directive::StopProcess { success: false }
    }
}

/// On the very first frame, the first published event is `Connected` and the
/// last is the frame's raw echo; on every later frame `Connected` is never
/// published again; and on every frame whatever lies between is a derived
/// event, so each derived event strictly precedes its frame's raw echo.
pub proof fn lemma_event_order(f: FrameView)
    ensures
        events_for_frame(true, f)[0] == EventView::Connected,
        events_for_frame(true, f).last() == EventView::Raw(f),
        events_for_frame(false, f).last() == EventView::Raw(f),
        forall|k: int|
            0 <= k < events_for_frame(false, f).len() ==> events_for_frame(false, f)[k]
                != EventView::Connected,
        forall|k: int|
            0 < k < events_for_frame(true, f).len() - 1 ==> ((events_for_frame(true, f)[k])
                is NotRegistered || (events_for_frame(true, f)[k]) is PrivateMessageReceived),
{
    let et = events_for_frame(true, f);
    let ef = events_for_frame(false, f);
    assert(et.last() == EventView::Raw(f));
    assert(ef.last() == EventView::Raw(f));
    assert forall|k: int| 0 <= k < ef.len() implies ef[k] != EventView::Connected by {
        if k < derived_events(f).len() {
            assert(ef[k] == derived_events(f)[k]);
        }
    }
    assert forall|k: int| 0 < k < et.len() - 1 implies ((et[k]) is NotRegistered || (et[k])
        is PrivateMessageReceived) by {
        assert(et[k] == derived_events(f)[k - 1]);
    }
}

} // verus!
