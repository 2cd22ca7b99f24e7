//! The life of one peer: handshake, running, draining, and the two ways to
//! end.
//!
//! The peer is driven by the event loop. The loop waits for signals, inbound
//! messages and timer ticks, tells the peer what happened, and carries out
//! what the peer answers. The peer itself performs no input or output.

use vstd::prelude::*;
use crate::engine::{
    after_command, after_publisher_created, after_subscription_opened, after_subscription_scan,
    after_topic_scan, command_reaction, count_views, listing_views, subscription_requests,
    topic_scan_matches, ConsumerCount, ControlFlow, Engine, EngineView, Reaction, TopicListing,
    TopicScan,
};
use crate::message::{message_views, Header, Message, MessageView};
use crate::text::text_views;

verus! {

/// The protocol version this peer speaks.
pub const PROTOCOL_VERSION: u16 = 0;

/// How many seconds pass between two scans of the local topics and of the
/// consumers of the mirror publishers.
pub const SCAN_INTERVAL_SECONDS: u64 = 10;

/// How many milliseconds pass between two turns in which the local bus is
/// serviced, where it needs that.
pub const SERVICE_INTERVAL_MILLISECONDS: u64 = 100;

/// How many messages the inbound queue holds, and how many frames the
/// outbound queue, before their senders have to wait.
pub const QUEUE_CAPACITY: usize = 10;

/// Where a peer stands in its life.
#[derive(Debug, Clone, Copy, PartialEq, Eq)]
pub enum Phase {
    /// Nothing was sent or received yet.
    New,
    /// The local header was sent; the remote header is awaited.
    HandshakeSent,
    /// The remote header was accepted.
    HandshakeDone,
    /// Control messages are processed and topics are scanned.
    Running,
    /// The peer shuts down in good order.
    Draining,
    /// The peer ends because of an error.
    Fatal,
    /// The peer has ended.
    Terminated,
}

/// What became of the remote header.
#[derive(Debug, Clone, PartialEq, Eq)]
pub enum Handshake {
    /// The versions agree.
    Accepted,
    /// The versions differ: `farewell` is sent if it can be, and the peer
    /// ends in failure.
    Incompatible { farewell: Message },
    /// No header was awaited; nothing changed.
    OutOfTurn,
}

/// Why a message was not answered with a reaction.
#[derive(Debug, Clone, PartialEq, Eq)]
pub enum PeerError {
    /// The peer is not running: before the handshake has succeeded, and once
    /// the peer drains or has failed, no inbound message is processed.
    NotRunning,
    /// The remote reported a fatal error; this peer ends in failure too.
    RemoteFatal { message: String },
}

/// The last things a peer does before it ends.
#[derive(Debug, Clone, PartialEq, Eq)]
pub struct Farewell {
    /// The topics whose forwarders are to be cancelled.
    pub cancelled: Vec<String>,
    /// The message to send, if it can be, before the transport is flushed:
    /// `Hangup` from a peer that ends in good order, nothing from one that
    /// has failed.
    pub hangup: Option<Message>,
}

/// A peer as a mathematical value.
pub struct PeerView {
    pub phase: Phase,
    /// Whether the peer ends, or has ended, in failure.
    pub failed: bool,
    pub engine: EngineView,
}

/// The text of the `FatalError` that answers a header of another version.
pub open spec fn incompatible_text() -> Seq<char> {
    "Remote version incompatible."@
}

impl PeerView {
    /// The peer when the process starts.
    pub open spec fn fresh() -> PeerView {
        PeerView { phase: Phase::New, failed: false, engine: EngineView::empty() }
    }

    /// The peer once its own header is on the wire.
    pub open spec fn after_start(self) -> PeerView {
        if self.phase == Phase::New {
            PeerView { phase: Phase::HandshakeSent, ..self }
        } else {
            self
        }
    }

    /// The peer once the remote header was read.
    pub open spec fn after_header(self, remote: Header) -> PeerView {
        if self.phase != Phase::HandshakeSent {
            self
        } else if remote.version == PROTOCOL_VERSION {
            PeerView { phase: Phase::HandshakeDone, ..self }
        } else {
            PeerView { phase: Phase::Fatal, failed: true, ..self }
        }
    }

    /// The peer once the event loop has started.
    pub open spec fn after_run(self) -> PeerView {
        if self.phase == Phase::HandshakeDone {
            PeerView { phase: Phase::Running, ..self }
        } else {
            self
        }
    }

    /// The peer once an inbound message was handed to it.
    pub open spec fn after_message(self, message: MessageView) -> PeerView {
        if self.phase != Phase::Running {
            self
        } else {
            match command_reaction(self.engine, message) {
                Err(_) => PeerView { phase: Phase::Fatal, failed: true, ..self },
                Ok(reaction) => PeerView {
                    phase: if reaction.flow == ControlFlow::Exit {
                        Phase::Draining
                    } else {
                        Phase::Running
                    },
                    failed: self.failed,
                    engine: after_command(self.engine, message),
                },
            }
        }
    }

    /// The peer once a termination signal arrived.
    pub open spec fn after_signal(self) -> PeerView {
        if self.phase == Phase::Running {
            PeerView { phase: Phase::Draining, ..self }
        } else {
            self
        }
    }

    /// The peer once a local error ended it: a failed read or write, a frame
    /// that could not be decoded, a closed queue.
    pub open spec fn after_failure(self) -> PeerView {
        if self.phase == Phase::Terminated || self.phase == Phase::Fatal {
            self
        } else {
            PeerView { phase: Phase::Fatal, failed: true, ..self }
        }
    }

    /// The peer once it has shut down: no forwarder is left.
    pub open spec fn after_shutdown(self) -> PeerView {
        if self.phase == Phase::Draining || self.phase == Phase::Fatal {
            PeerView {
                phase: Phase::Terminated,
                failed: self.failed,
                engine: EngineView { subscribers: Set::empty(), ..self.engine },
            }
        } else {
            self
        }
    }

    /// The exit code of the process: 0 after a shutdown in good order.
    pub open spec fn exit_code(self) -> u8 {
        if self.failed {
            1
        } else {
            0
        }
    }
}

/// The state of one peer.
pub struct Peer {
    phase: Phase,
    failed: bool,
    engine: Engine,
}

impl View for Peer {
    type V = PeerView;

    closed spec fn view(&self) -> PeerView {
        PeerView { phase: self.phase, failed: self.failed, engine: self.engine@ }
    }
}

impl Peer {
    /// A peer that has neither sent nor received anything.
    pub fn new() -> (peer: Peer)
        ensures
            peer@ == PeerView::fresh(),
            peer@.engine.wf(),
    {
        Peer { phase: Phase::New, failed: false, engine: Engine::new() }
    }

    /// The phase the peer is in.
    pub fn phase(&self) -> (phase: Phase)
        ensures
            phase == self@.phase,
    {
        self.phase
    }

    /// The exit code that the process ends with: 0 after a shutdown in good
    /// order, 1 after a fatal error.
    pub fn exit_code(&self) -> (code: u8)
        ensures
            code == self@.exit_code(),
    {
        if self.failed {
            1
        } else {
            0
        }
    }

    /// Starts the handshake: a new peer answers with the header to send and
    /// then awaits the remote's; any other peer answers with nothing.
    pub fn start(&mut self) -> (header: Option<Header>)
        ensures
            final(self)@ == old(self)@.after_start(),
            header == (if old(self)@.phase == Phase::New {
                Some(Header { version: PROTOCOL_VERSION })
            } else {
                None
            }),
    {
        match self.phase {
            Phase::New => {
                self.phase = Phase::HandshakeSent;
                Some(Header { version: PROTOCOL_VERSION })
            },
            _ => None,
        }
    }

    /// Takes the remote's header. While one is awaited, a header of this
    /// peer's version is accepted, and one of any other version ends the peer
    /// in failure with a `FatalError` for the remote.
    pub fn receive_header(&mut self, remote: Header) -> (outcome: Handshake)
        ensures
            final(self)@ == old(self)@.after_header(remote),
            old(self)@.phase != Phase::HandshakeSent ==> outcome == Handshake::OutOfTurn,
            old(self)@.phase == Phase::HandshakeSent && remote.version == PROTOCOL_VERSION
                ==> outcome == Handshake::Accepted,
            old(self)@.phase == Phase::HandshakeSent && remote.version != PROTOCOL_VERSION
                ==> (outcome matches Handshake::Incompatible { farewell } && farewell@ == (
            MessageView::FatalError { message: incompatible_text() })),
    {
        match self.phase {
            Phase::HandshakeSent => {
                if remote.version == PROTOCOL_VERSION {
                    self.phase = Phase::HandshakeDone;
                    Handshake::Accepted
                } else {
                    self.phase = Phase::Fatal;
                    self.failed = true;
                    Handshake::Incompatible {
                        farewell: Message::FatalError {
                            message: "Remote version incompatible.".to_owned(),
                        },
                    }
                }
            },
            _ => Handshake::OutOfTurn,
        }
    }

    /// Enters the event loop after an accepted handshake. The result tells
    /// whether the peer is running now.
    pub fn run(&mut self) -> (running: bool)
        ensures
            final(self)@ == old(self)@.after_run(),
            running == (final(self)@.phase == Phase::Running),
    {
        match self.phase {
            Phase::HandshakeDone => {
                self.phase = Phase::Running;
                true
            },
            Phase::Running => true,
            _ => false,
        }
    }

    /// Hands one inbound message to the peer. A running peer applies it to
    /// the engine: `Hangup` starts the shutdown, a `FatalError` ends the peer
    /// in failure. A peer in any other phase refuses the message and does not
    /// change.
    pub fn on_message(&mut self, message: Message) -> (result: Result<Reaction, PeerError>)
        ensures
            final(self)@ == old(self)@.after_message(message@),
            old(self)@.engine.wf() ==> final(self)@.engine.wf(),
            old(self)@.phase != Phase::Running ==> result matches Err(PeerError::NotRunning),
            old(self)@.phase == Phase::Running ==> match command_reaction(
                old(self)@.engine,
                message@,
            ) {
                Ok(reaction) => result matches Ok(got) && got@ == reaction,
                Err(text) => result matches Err(PeerError::RemoteFatal { message }) && message@
                    == text,
            },
    {
        match self.phase {
            Phase::Running => match self.engine.process_command(message) {
                Ok(reaction) => {
                    match reaction.flow {
                        ControlFlow::Exit => {
                            self.phase = Phase::Draining;
                        },
                        ControlFlow::Continue => {},
                    }
                    Ok(reaction)
                },
                Err(fatal) => {
                    self.phase = Phase::Fatal;
                    self.failed = true;
                    Err(PeerError::RemoteFatal { message: fatal.message })
                },
            },
            _ => Err(PeerError::NotRunning),
        }
    }

    /// Tells the peer that a termination signal arrived: a running peer
    /// starts to drain. The result tells whether the event loop is to stop.
    pub fn on_signal(&mut self) -> (stop: bool)
        ensures
            final(self)@ == old(self)@.after_signal(),
            stop == (final(self)@.phase != Phase::Running),
    {
        match self.phase {
            Phase::Running => {
                self.phase = Phase::Draining;
                true
            },
            _ => true,
        }
    }

    /// Tells the peer that a local error ended it. Unless the peer has failed
    /// or ended before, the answer is the `FatalError` that tells the remote
    /// why, to be sent if it can be.
    pub fn fail(&mut self, reason: String) -> (farewell: Option<Message>)
        ensures
            final(self)@ == old(self)@.after_failure(),
            old(self)@.engine.wf() ==> final(self)@.engine.wf(),
            farewell is Some <==> old(self)@.phase != Phase::Fatal && old(self)@.phase
                != Phase::Terminated,
            farewell matches Some(message) ==> message@ == (MessageView::FatalError {
                message: reason@,
            }),
    {
        match self.phase {
            Phase::Terminated | Phase::Fatal => None,
            _ => {
                self.phase = Phase::Fatal;
                self.failed = true;
                Some(Message::FatalError { message: reason })
            },
        }
    }

    /// Ends a peer that drains or has failed: every forwarder is to be
    /// cancelled, and a peer that has not failed says `Hangup` to the remote.
    /// A peer in any other phase answers with nothing and does not change.
    pub fn shutdown(&mut self) -> (farewell: Option<Farewell>)
        ensures
            final(self)@ == old(self)@.after_shutdown(),
            old(self)@.engine.wf() ==> final(self)@.engine.wf(),
            farewell is Some <==> old(self)@.phase == Phase::Draining || old(self)@.phase
                == Phase::Fatal,
            farewell matches Some(last) ==> text_views(last.cancelled@).no_duplicates()
                && text_views(last.cancelled@).to_set() == old(self)@.engine.subscribers,
            farewell matches Some(last) ==> (last.hangup is Some <==> !old(self)@.failed),
            farewell matches Some(last) ==> (last.hangup matches Some(message) ==> message@
                == MessageView::Hangup),
    {
        match self.phase {
            Phase::Draining | Phase::Fatal => {
                let cancelled = self.engine.cancel_all();
                self.phase = Phase::Terminated;
                let hangup = if self.failed {
                    None
                } else {
                    Some(Message::Hangup)
                };
                Some(Farewell { cancelled, hangup })
            },
            _ => None,
        }
    }

    /// The mirrored topics whose consumers are to be counted before the next
    /// [`Peer::scan_for_subscriptions`].
    pub fn publisher_names(&self) -> (names: Vec<String>)
        ensures
            text_views(names@).no_duplicates(),
            text_views(names@).to_set() == self@.engine.publishers,
    {
        self.engine.publisher_names()
    }

    /// Holds the engine's view of the local bus against what the bus lists
    /// now (see [`Engine::scan_for_topics`]). Only a running peer scans; a
    /// peer in any other phase answers with nothing and does not change.
    pub fn scan_for_topics(&mut self, listing: &Vec<TopicListing>) -> (scan: Option<TopicScan>)
        ensures
            scan is Some <==> old(self)@.phase == Phase::Running,
            final(self)@.phase == old(self)@.phase,
            final(self)@.failed == old(self)@.failed,
            old(self)@.engine.wf() ==> final(self)@.engine.wf(),
            final(self)@.engine == (if old(self)@.phase == Phase::Running {
                after_topic_scan(old(self)@.engine, listing_views(listing@))
            } else {
                old(self)@.engine
            }),
            scan matches Some(found) ==> topic_scan_matches(
                found,
                old(self)@.engine,
                listing_views(listing@),
            ),
    {
        match self.phase {
            Phase::Running => Some(self.engine.scan_for_topics(listing)),
            _ => None,
        }
    }

    /// Holds the consumer counts of the mirror publishers against what was
    /// asked of the remote (see [`Engine::scan_for_subscriptions`]). Only a
    /// running peer scans; a peer in any other phase answers with nothing
    /// and does not change.
    pub fn scan_for_subscriptions(&mut self, counts: &Vec<ConsumerCount>) -> (requests: Option<
        Vec<Message>,
    >)
        ensures
            requests is Some <==> old(self)@.phase == Phase::Running,
            final(self)@.phase == old(self)@.phase,
            final(self)@.failed == old(self)@.failed,
            old(self)@.engine.wf() ==> final(self)@.engine.wf(),
            final(self)@.engine == (if old(self)@.phase == Phase::Running {
                after_subscription_scan(old(self)@.engine, count_views(counts@))
            } else {
                old(self)@.engine
            }),
            requests matches Some(messages) ==> message_views(messages@) == subscription_requests(
                old(self)@.engine,
                count_views(counts@),
            ),
    {
        match self.phase {
            Phase::Running => Some(self.engine.scan_for_subscriptions(counts)),
            _ => None,
        }
    }

    /// Reports a created mirror publisher to a running peer (see
    /// [`Engine::publisher_created`]). The result tells whether it was
    /// registered; where it was not, the caller drops it.
    pub fn publisher_created(&mut self, name: String) -> (registered: bool)
        ensures
            final(self)@.phase == old(self)@.phase,
            final(self)@.failed == old(self)@.failed,
            old(self)@.engine.wf() ==> final(self)@.engine.wf(),
            final(self)@.engine == (if old(self)@.phase == Phase::Running {
                after_publisher_created(old(self)@.engine, name@)
            } else {
                old(self)@.engine
            }),
            registered == (old(self)@.phase == Phase::Running
                && !old(self)@.engine.known_topics.contains_key(name@)),
    {
        match self.phase {
            Phase::Running => self.engine.publisher_created(name),
            _ => false,
        }
    }

    /// Reports a started forwarder to a running peer (see
    /// [`Engine::subscription_opened`]). The result tells whether it was
    /// registered; where it was not, the caller cancels it.
    pub fn subscription_opened(&mut self, name: String) -> (registered: bool)
        ensures
            final(self)@.phase == old(self)@.phase,
            final(self)@.failed == old(self)@.failed,
            old(self)@.engine.wf() ==> final(self)@.engine.wf(),
            final(self)@.engine == (if old(self)@.phase == Phase::Running {
                after_subscription_opened(old(self)@.engine, name@)
            } else {
                old(self)@.engine
            }),
            registered == (old(self)@.phase == Phase::Running
                && old(self)@.engine.known_topics.contains_key(name@)),
    {
        match self.phase {
            Phase::Running => self.engine.subscription_opened(name),
            _ => false,
        }
    }
}

/// After the handshake a fresh peer runs exactly if the remote speaks this
/// peer's version; if it does not, the peer has failed and ends with a
/// non-zero exit code.
pub proof fn lemma_handshake_decides(remote: Header)
    ensures
        remote.version == PROTOCOL_VERSION ==> PeerView::fresh().after_start().after_header(
            remote,
        ).after_run().phase == Phase::Running,
        remote.version != PROTOCOL_VERSION ==> PeerView::fresh().after_start().after_header(
            remote,
        ).phase == Phase::Fatal && PeerView::fresh().after_start().after_header(
            remote,
        ).after_run().after_shutdown().phase == Phase::Terminated
            && PeerView::fresh().after_start().after_header(
            remote,
        ).after_run().after_shutdown().exit_code() != 0,
{
}

/// A peer that does not run leaves every inbound message unprocessed, and
/// only an accepted header leads a peer to run.
pub proof fn lemma_no_command_before_handshake(peer: PeerView, message: MessageView)
    requires
        peer.phase != Phase::Running,
    ensures
        peer.after_message(message) == peer,
        peer.after_run().phase == Phase::Running ==> peer.phase == Phase::HandshakeDone,
        forall|remote: Header|
            #![trigger peer.after_header(remote)]
            peer.phase != Phase::HandshakeDone && peer.after_header(remote).phase
                == Phase::HandshakeDone ==> remote.version == PROTOCOL_VERSION,
{
}

/// A termination signal ends a running peer in good order: it drains, shuts
/// down without a forwarder left, and exits with code 0.
pub proof fn lemma_signal_ends_in_good_order(peer: PeerView)
    requires
        peer.phase == Phase::Running,
        !peer.failed,
    ensures
        peer.after_signal().phase == Phase::Draining,
        peer.after_signal().after_shutdown().phase == Phase::Terminated,
        peer.after_signal().after_shutdown().engine.subscribers == Set::<Seq<char>>::empty(),
        peer.after_signal().after_shutdown().exit_code() == 0,
{
}

} // verus!
