//! The event loop as a state machine: what an instance holds, and what each event,
//! request and outcome makes of it.

use crate::error::Error;
use crate::ids::{DestinationHash, LinkId};
use crate::stream::{Listener, ReticulumStream};
use tokio::sync::{mpsc, oneshot};
use vstd::prelude::*;

verus! {

/// How far a link has come.
#[derive(Clone, Copy, Debug, PartialEq, Eq, Structural)]
pub enum LinkState {
    Pending,
    Handshake,
    Active,
    Stale,
    Closed,
}

/// A connection that waits for its link to be established.
#[verifier::reject_recursive_types(H)]
pub struct ConnectionRequest<H> {
    pub handle: H,
    pub response: oneshot::Sender<Result<ReticulumStream, Error>>,
    pub hash: DestinationHash,
}

/// What the node tells of links and of the resources that travel on them.
pub enum NodeEvent {
    LinkRequest { link_id: LinkId, destination_hash: DestinationHash },
    LinkEstablished { link_id: LinkId },
    LinkStale { link_id: LinkId },
    LinkRecovered { link_id: LinkId },
    LinkClosed { link_id: LinkId },
    ResourceAdvertised { link_id: LinkId },
    ResourceTransferStarted { link_id: LinkId },
    ResourceProgress { link_id: LinkId },
    ResourceCompleted { link_id: LinkId, resource_hash: [u8; 32], data: Vec<u8>, is_sender: bool },
    ResourceFailed { link_id: LinkId, resource_hash: [u8; 32], error: String, is_sender: bool },
    InterfaceDown { id: u64 },
    Other,
}

/// How to go on once a requestor was answered.
#[verifier::reject_recursive_types(H)]
pub enum Afterwards<H> {
    /// Handling is over; with this error where nobody was there to be answered.
    Report { undelivered: Error },
    /// The link is closed from this end too, unless nobody was there to be answered.
    Close { handle: H },
    /// Handling is over; where nobody was there to be answered, nobody listens either.
    Listen { hash: DestinationHash },
}

/// What handling has come to: it is over, or something has to be done whose outcome goes
/// back to the [`Context`](crate::instance::Context), which says how to go on.
#[allow(inconsistent_fields)]
#[verifier::reject_recursive_types(H)]
pub enum Step<H> {
    /// Handling is over.
    Done(Result<(), Error>),
    /// Answer who asked for a connection, with `reply_connect`.
    ReplyConnect {
        response: oneshot::Sender<Result<ReticulumStream, Error>>,
        reply: Result<ReticulumStream, Error>,
        then: Afterwards<H>,
    },
    /// Answer who asked for a listener, with `reply_listener`.
    ReplyListener {
        response: oneshot::Sender<Result<Listener, Error>>,
        reply: Result<Listener, Error>,
        then: Afterwards<H>,
    },
    /// Have the node accept a link; then `link_accepted`.
    AcceptLink {
        link_id: LinkId,
        destination_hash: DestinationHash,
        listener: mpsc::Sender<ReticulumStream>,
    },
    /// Pass a stream to a listener; then `stream_offered`.
    OfferStream {
        destination_hash: DestinationHash,
        listener: mpsc::Sender<ReticulumStream>,
        stream: ReticulumStream,
    },
    /// Have the node accept all resources on a link; then `strategy_set`.
    SetStrategy { link_id: LinkId, request: Option<ConnectionRequest<H>> },
    /// Close a link from this end; then `node_done`.
    CloseLink { handle: H },
    /// Have the node accept the resource that is offered on a link; then `node_done`.
    AcceptResource { link_id: LinkId },
    /// Pass data to a stream; then `delivered`.
    Deliver {
        link_id: LinkId,
        resource_hash: [u8; 32],
        inbox: mpsc::Sender<Vec<u8>>,
        data: Vec<u8>,
    },
    /// Have the node send data on a link, compressed where that helps; then `resource_sent`.
    SendResource { link_id: LinkId, data: Vec<u8> },
    /// Have the node set up a link to a destination; then `connected`.
    Connect {
        hash: DestinationHash,
        signing_key: [u8; 32],
        response: oneshot::Sender<Result<ReticulumStream, Error>>,
    },
    /// Have the node register a destination; then `registered`.
    Register {
        hash: DestinationHash,
        response: oneshot::Sender<Result<Listener, Error>>,
    },
}

/// What woke the event loop. A source gives `None` when it has ended.
pub enum Wakeup {
    /// The token was cancelled.
    Cancelled,
    /// The node tells of an event.
    Event(Option<NodeEvent>),
    /// Somebody asks for a connection; with the public keys of the destination, where the
    /// node knows them.
    ConnectRequest(Option<ConnectRequest>),
    /// Somebody asks to listen for a destination.
    ListenerRequest(Option<ListenerRequest>),
    /// A stream has data to send on its link.
    ToSend(Option<(LinkId, Vec<u8>)>),
    /// Nothing happened for a while.
    Silence,
}

/// A connection that somebody asks for.
pub struct ConnectRequest {
    pub hash: DestinationHash,
    pub keys: Option<[u8; 64]>,
    pub response: oneshot::Sender<Result<ReticulumStream, Error>>,
}

/// A listener that somebody asks for.
pub struct ListenerRequest {
    pub hash: DestinationHash,
    pub response: oneshot::Sender<Result<Listener, Error>>,
}

/// What a turn of the event loop comes to.
#[verifier::reject_recursive_types(H)]
pub enum Turn<H> {
    /// The event loop is over.
    Stop,
    /// Handling has begun.
    Run(Step<H>),
    /// Have the node announce these destinations.
    Announce(Vec<DestinationHash>),
}

/// What an instance holds. Destinations and links stand under their ids.
#[verifier::ext_equal]
#[verifier::reject_recursive_types(H)]
pub struct ContextView<H> {
    pub listeners: Map<u128, mpsc::Sender<ReticulumStream>>,
    pub received: Map<u128, mpsc::Sender<Vec<u8>>>,
    pub connect_requests: Map<u128, ConnectionRequest<H>>,
    pub link_states: Map<u128, LinkState>,
    pub announce: Set<u128>,
}

impl<H> ContextView<H> {
    /// Nobody listens, nothing is announced and no link is known.
    pub open spec fn empty() -> Self {
        ContextView {
            listeners: Map::empty(),
            received: Map::empty(),
            connect_requests: Map::empty(),
            link_states: Map::empty(),
            announce: Set::empty(),
        }
    }

    /// The link with its state set.
    pub open spec fn with_state(self, link: LinkId, state: LinkState) -> Self {
        ContextView { link_states: self.link_states.insert(link.id, state), ..self }
    }

    /// A link that is known and has not been closed.
    pub open spec fn live(self, link: u128) -> bool {
        self.link_states.contains_key(link) && self.link_states[link] != LinkState::Closed
    }

    /// What holds at all times: every destination with a listener is announced, streams and
    /// waiting connections belong to links that are known and have not been closed, and a
    /// connection waits for every link that is pending.
    pub open spec fn wf(self) -> bool {
        &&& self.listeners.dom().subset_of(self.announce)
        &&& forall|link: u128| #[trigger]
            self.received.contains_key(link) ==> self.live(link)
        &&& forall|link: u128| #[trigger]
            self.connect_requests.contains_key(link) ==> self.live(link)
        &&& forall|link: u128| #[trigger]
            self.link_states.contains_key(link) && self.link_states[link] == LinkState::Pending
                ==> self.connect_requests.contains_key(link)
    }

    /// What an event leaves behind before its outcome is known.
    pub open spec fn after_event(self, event: NodeEvent) -> Self {
        match event {
            NodeEvent::LinkEstablished { link_id } => ContextView {
                connect_requests: self.connect_requests.remove(link_id.id),
                ..self.with_state(link_id, LinkState::Active)
            },
            NodeEvent::LinkStale { link_id } => self.with_state(link_id, LinkState::Stale),
            NodeEvent::LinkRecovered { link_id } => self.with_state(link_id, LinkState::Active),
            NodeEvent::LinkClosed { link_id } => ContextView {
                received: self.received.remove(link_id.id),
                connect_requests: self.connect_requests.remove(link_id.id),
                ..self.with_state(link_id, LinkState::Closed)
            },
            _ => self,
        }
    }

    /// What an event asks to be done.
    pub open spec fn event_step(self, event: NodeEvent) -> Step<H> {
        match event {
            NodeEvent::LinkRequest { link_id, destination_hash } => if self.listeners.contains_key(
                destination_hash.id,
            ) {
                Step::AcceptLink {
                    link_id,
                    destination_hash,
                    listener: self.listeners[destination_hash.id],
                }
            } else {
                Step::Done(Ok(()))
            },
            NodeEvent::LinkEstablished { link_id } => Step::SetStrategy {
                link_id,
                request: self.connect_requests.get(link_id.id),
            },
            NodeEvent::LinkClosed { link_id } => if self.connect_requests.contains_key(
                link_id.id,
            ) {
                Step::ReplyConnect {
                    response: self.connect_requests[link_id.id].response,
                    reply: Err(Error::LinkClosed),
                    then: Afterwards::Close { handle: self.connect_requests[link_id.id].handle },
                }
            } else {
                Step::Done(Ok(()))
            },
            NodeEvent::ResourceAdvertised { link_id } => Step::AcceptResource { link_id },
            NodeEvent::ResourceCompleted { link_id, resource_hash, data, is_sender } =>
            if is_sender {
                Step::Done(Ok(()))
            } else if self.received.contains_key(link_id.id) {
                Step::Deliver {
                    link_id,
                    resource_hash,
                    inbox: self.received[link_id.id],
                    data,
                }
            } else {
                Step::Done(
                    Err(
                        Error::StreamMissing {
                            link: link_id,
                            resource: resource_hash,
                            bytes: data@.len() as u64,
                        },
                    ),
                )
            },
            _ => Step::Done(Ok(())),
        }
    }

    /// What is asked for when somebody wants to listen: a second listener is refused.
    pub open spec fn listener_step(self, request: ListenerRequest) -> Step<H> {
        if self.listeners.contains_key(request.hash.id) {
            Step::ReplyListener {
                response: request.response,
                reply: Err(Error::ListenerExists { destination: request.hash }),
                then: Afterwards::Report {
                    undelivered: Error::DuplicateUndelivered { destination: request.hash },
                },
            }
        } else {
            Step::Register { hash: request.hash, response: request.response }
        }
    }

    /// What is left once a wakeup was seen to.
    pub open spec fn after_wakeup(self, wakeup: Wakeup) -> Self {
        match wakeup {
            Wakeup::Event(Some(event)) => self.after_event(event),
            _ => self,
        }
    }

    /// What a turn of the event loop comes to.
    pub open spec fn turns_to(self, wakeup: Wakeup, turn: Turn<H>) -> bool {
        match wakeup {
            Wakeup::Event(Some(event)) => turn == Turn::Run(self.event_step(event)),
            Wakeup::ConnectRequest(Some(request)) => turn matches Turn::Run(step) && connect_step(
                request,
                step,
            ),
            Wakeup::ListenerRequest(Some(request)) => turn == Turn::Run(
                self.listener_step(request),
            ),
            Wakeup::ToSend(Some((link_id, data))) => turn == Turn::Run(
                Step::<H>::SendResource { link_id, data },
            ),
            Wakeup::Silence => turn matches Turn::Announce(destinations) && {
                &&& ids_of(destinations@).to_set() == self.announce
                &&& ids_of(destinations@).no_duplicates()
            },
            _ => turn == Turn::<H>::Stop,
        }
    }

    /// What is left once the node has accepted a link, with `inbox` the way into its stream.
    pub open spec fn after_acceptance(self, link: LinkId, inbox: mpsc::Sender<Vec<u8>>) -> Self {
        ContextView {
            received: self.received.insert(link.id, inbox),
            ..self.with_state(link, LinkState::Handshake)
        }
    }

    /// What is left once a stream was passed to a listener, or found none there.
    pub open spec fn after_offer(self, destination: DestinationHash, taken: bool) -> Self {
        if taken {
            self
        } else {
            ContextView { listeners: self.listeners.remove(destination.id), ..self }
        }
    }

    /// What is left once a link that a connection waited for carries resources.
    pub open spec fn after_strategy(self, link: LinkId, inbox: mpsc::Sender<Vec<u8>>) -> Self {
        ContextView { received: self.received.insert(link.id, inbox), ..self }
    }

    /// What is left once the node has begun to set up a link.
    pub open spec fn after_connect(self, link: LinkId, request: ConnectionRequest<H>) -> Self {
        ContextView {
            connect_requests: self.connect_requests.insert(link.id, request),
            ..self.with_state(link, LinkState::Pending)
        }
    }

    /// What is left once a destination is registered, with `streams` the way into its
    /// listener.
    pub open spec fn after_registration(
        self,
        destination: DestinationHash,
        streams: mpsc::Sender<ReticulumStream>,
    ) -> Self {
        ContextView {
            announce: self.announce.insert(destination.id),
            listeners: self.listeners.insert(destination.id, streams),
            ..self
        }
    }

    /// What is left once a requestor was answered; `told` says whether it was there.
    pub open spec fn after_reply(self, then: Afterwards<H>, told: bool) -> Self {
        match then {
            Afterwards::Listen { hash } if !told => ContextView {
                listeners: self.listeners.remove(hash.id),
                ..self
            },
            _ => self,
        }
    }
}

/// Whether a wakeup ends the event loop: it was cancelled, or a source has ended.
pub open spec fn ends_loop(wakeup: Wakeup) -> bool {
    match wakeup {
        Wakeup::Cancelled => true,
        Wakeup::Event(event) => event is None,
        Wakeup::ConnectRequest(request) => request is None,
        Wakeup::ListenerRequest(request) => request is None,
        Wakeup::ToSend(message) => message is None,
        Wakeup::Silence => false,
    }
}

/// The ids in a list of destinations.
pub open spec fn ids_of(destinations: Seq<DestinationHash>) -> Seq<u128> {
    destinations.map_values(|destination: DestinationHash| destination.id)
}

/// What is asked for when somebody wants a connection: the destination has to be known, and
/// the half of its keys that signs goes into the link.
pub open spec fn connect_step<H>(request: ConnectRequest, step: Step<H>) -> bool {
    match request.keys {
        None => step == (Step::<H>::ReplyConnect {
            response: request.response,
            reply: Err(Error::NoAnnouncement { destination: request.hash }),
            then: Afterwards::Report {
                undelivered: Error::RefusalUndelivered { destination: request.hash },
            },
        }),
        Some(keys) => step matches Step::Connect { hash, signing_key, response } && {
            &&& hash == request.hash
            &&& signing_key@ == signing_half(keys@)
            &&& response == request.response
        },
    }
}

/// What follows when a requestor was answered; `told` says whether it was there.
pub open spec fn reply_step<H>(then: Afterwards<H>, told: bool) -> Step<H> {
    match then {
        Afterwards::Report { undelivered } => if told {
            Step::Done(Ok(()))
        } else {
            Step::Done(Err(undelivered))
        },
        Afterwards::Close { handle } => if told {
            Step::CloseLink { handle }
        } else {
            Step::Done(Err(Error::ClosureUndelivered))
        },
        Afterwards::Listen { hash } => if told {
            Step::Done(Ok(()))
        } else {
            Step::Done(Err(Error::ListenerUndelivered))
        },
    }
}

/// What follows when the node was asked to do something: nothing, or its failure.
pub open spec fn node_step<H>(outcome: Result<(), String>) -> Step<H> {
    match outcome {
        Ok(()) => Step::Done(Ok(())),
        Err(cause) => Step::Done(Err(Error::Node { cause })),
    }
}

/// The key by which a destination signs: the second half of its public keys.
pub open spec fn signing_half(keys: Seq<u8>) -> Seq<u8> {
    keys.subrange(32, 64)
}

} // verus!
