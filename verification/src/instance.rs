//! The instance that listens and connects, and the context that its event loop keeps.

use crate::channel::{answered, made_together, Attempt, Outlet, Stopper};
use crate::channel::{inbox_closed, inbox_limit, inbox_of, messages_into, messages_limit};
use crate::error::Error;
use crate::ids::{DestinationHash, LinkId};
use crate::model::{connect_step, ends_loop, ids_of, node_step, reply_step, signing_half};
use crate::model::{Afterwards, ConnectionRequest, ContextView, LinkState, NodeEvent, Step};
use crate::model::{ConnectRequest, ListenerRequest, Turn, Wakeup};
use crate::stream::{streams_into, streams_limit, Listener, ReticulumStream};
use crate::stream::{LISTENER_CAPACITY, STREAM_CAPACITY};
use std::collections::{HashMap, HashSet};
use tokio::sync::{mpsc, oneshot};
use tokio_util::sync::CancellationToken;
use vstd::prelude::*;
use vstd::std_specs::iter::IteratorSpec;

verus! {

broadcast use vstd::std_specs::hash::group_hash_axioms;

/// How many requests, and how many pieces of data to send, may wait for the event loop.
pub const REQUEST_CAPACITY: usize = 10;

/// The seconds without an event after which the destinations are announced.
pub const ANNOUNCE_SECONDS: u64 = 10;

/// A request for a connection, as it travels to the event loop.
pub type ConnectMessage = (DestinationHash, oneshot::Sender<Result<ReticulumStream, Error>>);

/// A request for a listener, as it travels to the event loop.
pub type ListenerMessage<D> = (D, oneshot::Sender<Result<Listener, Error>>);

/// The sender into the channel that a receiver of requests for connections belongs to.
pub uninterp spec fn requests_into(
    requests: mpsc::Receiver<ConnectMessage>,
) -> mpsc::Sender<ConnectMessage>;

/// How many requests the channel that a receiver of requests for connections belongs to was
/// made for.
pub uninterp spec fn requests_limit(requests: mpsc::Receiver<ConnectMessage>) -> usize;

/// `tokio::sync::mpsc::channel` for requests for connections: what is sent into the one half
/// comes out of the other, and so many requests fit in. It panics on a capacity of zero and
/// on one above `Semaphore::MAX_PERMITS`.
#[verifier::external_body]
fn request_channel(capacity: usize) -> (r: (
    mpsc::Sender<ConnectMessage>,
    mpsc::Receiver<ConnectMessage>,
))
    requires
        0 < capacity <= usize::MAX / 8,
    ensures
        requests_into(r.1) == r.0,
        requests_limit(r.1) == capacity,
{
    mpsc::channel(capacity)
}

/// Where the answer to a request for a connection is sent, for it to come out here.
pub uninterp spec fn stream_answers(
    answer: oneshot::Receiver<Result<ReticulumStream, Error>>,
) -> oneshot::Sender<Result<ReticulumStream, Error>>;

/// `tokio::sync::oneshot::channel` for the answer to a request for a connection: what is sent
/// into the one half comes out of the other.
#[verifier::external_body]
fn stream_answer() -> (r: (
    oneshot::Sender<Result<ReticulumStream, Error>>,
    oneshot::Receiver<Result<ReticulumStream, Error>>,
))
    ensures
        stream_answers(r.1) == r.0,
{
    oneshot::channel()
}

/// Where the answer to a request for a listener is sent, for it to come out here.
pub uninterp spec fn listener_answers(
    answer: oneshot::Receiver<Result<Listener, Error>>,
) -> oneshot::Sender<Result<Listener, Error>>;

/// `tokio::sync::oneshot::channel` for the answer to a request for a listener: what is sent
/// into the one half comes out of the other.
#[verifier::external_body]
fn listener_answer() -> (r: (
    oneshot::Sender<Result<Listener, Error>>,
    oneshot::Receiver<Result<Listener, Error>>,
))
    ensures
        listener_answers(r.1) == r.0,
{
    oneshot::channel()
}

/// The handle by which others ask the event loop for connections and listeners.
#[verifier::reject_recursive_types(D)]
pub struct ReticulumInstance<D> {
    pub cancel: CancellationToken,
    pub connect_requests: mpsc::Sender<ConnectMessage>,
    pub listener_requests: mpsc::Sender<ListenerMessage<D>>,
}

/// What the event loop runs on: its context and its sources.
#[verifier::reject_recursive_types(D)]
#[verifier::reject_recursive_types(H)]
pub struct EventLoop<D, H> {
    pub context: Context<H>,
    pub cancel: CancellationToken,
    pub connect_requests: mpsc::Receiver<ConnectMessage>,
    pub listener_requests: mpsc::Receiver<ListenerMessage<D>>,
    pub to_send: mpsc::Receiver<(LinkId, Vec<u8>)>,
}

impl<D> ReticulumInstance<D> {
    /// An instance, and the event loop behind it, which has yet to run. The two share a
    /// token. Requests of the instance come out in the event loop, and so does what the
    /// streams of the event loop send.
    pub fn new<H>() -> (r: (Self, EventLoop<D, H>))
        ensures
            r.1.context@ == ContextView::<H>::empty(),
            r.1.context@.wf(),
            r.1.context.token() == r.0.cancel,
            r.1.cancel == r.0.cancel,
            requests_into(r.1.connect_requests) == r.0.connect_requests,
            requests_limit(r.1.connect_requests) == REQUEST_CAPACITY,
            messages_into(r.1.to_send) == r.1.context.to_send(),
            messages_limit(r.1.to_send) == REQUEST_CAPACITY,
            made_together(REQUEST_CAPACITY, r.0.listener_requests, r.1.listener_requests),
            r.1.context.opened() == Seq::<LinkId>::empty(),
            !r.1.context.cancelled(),
    {
        let stopper = Stopper::new();
        let cancel = stopper.token();
        let (connect_sender, connect_requests) = request_channel(REQUEST_CAPACITY);
        let (listener_sender, listener_requests) = mpsc::channel(REQUEST_CAPACITY);
        let (outlet, to_send) = Outlet::channel(REQUEST_CAPACITY);
        let context = Context::new(outlet, stopper);
        let event_loop = EventLoop {
            context,
            cancel: cancel.clone(),
            connect_requests,
            listener_requests,
            to_send,
        };
        let instance = ReticulumInstance {
            cancel,
            connect_requests: connect_sender,
            listener_requests: listener_sender,
        };
        (instance, event_loop)
    }

    /// A connector that asks this instance.
    pub fn connector(&mut self) -> (r: Connector)
        ensures
            r.request == old(self).connect_requests,
            *final(self) == *old(self),
    {
        Connector { request: self.connect_requests.clone() }
    }

    /// The request for a listener, and where its answer will come.
    pub fn listener_request(&self, destination: D) -> (r: (
        ListenerMessage<D>,
        oneshot::Receiver<Result<Listener, Error>>,
    ))
        ensures
            r.0.0 == destination,
            r.0.1 == listener_answers(r.1),
    {
        let (sender, receiver) = listener_answer();
        ((destination, sender), receiver)
    }
}

/// The right to ask an instance for one connection.
#[derive(Debug)]
pub struct Connector {
    pub request: mpsc::Sender<ConnectMessage>,
}

impl Connector {
    /// The request for a connection, and where its answer will come.
    pub fn connect_request(&self, hash: DestinationHash) -> (r: (
        ConnectMessage,
        oneshot::Receiver<Result<ReticulumStream, Error>>,
    ))
        ensures
            r.0.0 == hash,
            r.0.1 == stream_answers(r.1),
    {
        let (sender, receiver) = stream_answer();
        ((hash, sender), receiver)
    }
}

/// What the event loop keeps.
#[verifier::reject_recursive_types(H)]
pub struct Context<H> {
    listeners: HashMap<u128, mpsc::Sender<ReticulumStream>>,
    outlet: Outlet,
    received: HashMap<u128, mpsc::Sender<Vec<u8>>>,
    stopper: Stopper,
    connect_requests: HashMap<u128, ConnectionRequest<H>>,
    link_states: HashMap<u128, LinkState>,
    announce: HashSet<u128>,
}

impl<H> View for Context<H> {
    type V = ContextView<H>;

    closed spec fn view(&self) -> ContextView<H> {
        ContextView {
            listeners: self.listeners@,
            received: self.received@,
            connect_requests: self.connect_requests@,
            link_states: self.link_states@,
            announce: self.announce@,
        }
    }
}

impl<H> Context<H> {
    /// The sender by which streams send, the same for all of them.
    pub closed spec fn to_send(&self) -> mpsc::Sender<(LinkId, Vec<u8>)> {
        self.outlet.sender()
    }

    /// The links that a stream was opened for, in order. Only streams send.
    pub closed spec fn opened(&self) -> Seq<LinkId> {
        self.outlet.opened()
    }

    /// The token that stops the event loop.
    pub closed spec fn token(&self) -> CancellationToken {
        self.stopper@
    }

    /// Whether the event loop has cancelled its token.
    pub closed spec fn cancelled(&self) -> bool {
        self.stopper.cancelled()
    }

    /// What nothing changes: the sender of the streams and the token.
    pub open spec fn same_handles(&self, before: &Self) -> bool {
        self.to_send() == before.to_send() && self.token() == before.token()
    }

    /// Nothing was sent and nobody was stopped: no stream was opened, and the token is as it
    /// was.
    pub open spec fn keeps(&self, before: &Self) -> bool {
        &&& self.same_handles(before)
        &&& self.opened() == before.opened()
        &&& self.cancelled() == before.cancelled()
    }

    /// A context that knows of nothing.
    pub fn new(outlet: Outlet, stopper: Stopper) -> (r: Self)
        ensures
            r@ == ContextView::<H>::empty(),
            r@.wf(),
            r.to_send() == outlet.sender(),
            r.opened() == outlet.opened(),
            r.token() == stopper@,
            r.cancelled() == stopper.cancelled(),
    {
        let r = Context {
            listeners: HashMap::new(),
            outlet,
            received: HashMap::new(),
            stopper,
            connect_requests: HashMap::new(),
            link_states: HashMap::new(),
            announce: HashSet::new(),
        };
        assert(r@ =~= ContextView::<H>::empty());
        r
    }

    /// The destinations to announce, each once, in no particular order.
    pub fn announcements(&self) -> (r: Vec<DestinationHash>)
        ensures
            ids_of(r@).to_set() == self@.announce,
            ids_of(r@).no_duplicates(),
    {
        let mut list: Vec<DestinationHash> = Vec::new();
        for id in ids: self.announce.iter()
            invariant
                ids.seq() == self.announce.iter().remaining(),
                list@.len() == ids.index(),
                forall|i: int| 0 <= i < ids.index() ==> (#[trigger] list@[i]).id == *ids.seq()[i],
        {
            list.push(DestinationHash { id: *id });
        }
        let ghost keys = self.announce.iter().remaining();
        assert(ids_of(list@) =~= keys.unref());
        assert(keys.unref().no_duplicates());
        list
    }

    /// A turn of the event loop. When a source has ended, the token is cancelled for the
    /// others to see.
    pub fn dispatch(&mut self, wakeup: Wakeup) -> (r: Turn<H>)
        ensures
            final(self)@ == old(self)@.after_wakeup(wakeup),
            old(self)@.turns_to(wakeup, r),
            r is Stop <==> ends_loop(wakeup),
            old(self)@.wf() ==> final(self)@.wf(),
            final(self).same_handles(old(self)),
            final(self).opened() == old(self).opened(),
            final(self).cancelled() == (old(self).cancelled() || (ends_loop(wakeup) && wakeup
                !is Cancelled)),
    {
        match wakeup {
            Wakeup::Cancelled => Turn::Stop,
            Wakeup::Event(Some(event)) => Turn::Run(self.handle_event(event)),
            Wakeup::ConnectRequest(Some(request)) => Turn::Run(
                self.handle_connect_request(request),
            ),
            Wakeup::ListenerRequest(Some(request)) => Turn::Run(
                self.handle_listener_request(request),
            ),
            Wakeup::ToSend(Some((link_id, data))) => Turn::Run(self.handle_to_send(link_id, data)),
            Wakeup::Silence => Turn::Announce(self.announcements()),
            _ => {
                self.stopper.cancel();
                Turn::Stop
            },
        }
    }

    /// What an event changes and asks for. A link request to a destination without a
    /// listener is ignored; data on a link without a stream is refused.
    pub fn handle_event(&mut self, event: NodeEvent) -> (r: Step<H>)
        ensures
            final(self)@ == old(self)@.after_event(event),
            r == old(self)@.event_step(event),
            old(self)@.wf() ==> final(self)@.wf(),
            final(self).keeps(old(self)),
    {
        match event {
            NodeEvent::LinkRequest { link_id, destination_hash } => {
                match self.listeners.get(&destination_hash.id) {
                    Some(listener) => Step::AcceptLink {
                        link_id,
                        destination_hash,
                        listener: listener.clone(),
                    },
                    None => Step::Done(Ok(())),
                }
            },
            NodeEvent::LinkEstablished { link_id } => {
                self.link_states.insert(link_id.id, LinkState::Active);
                let request = self.connect_requests.remove(&link_id.id);
                assert(self@ =~= old(self)@.after_event(event));
                Step::SetStrategy { link_id, request }
            },
            NodeEvent::LinkStale { link_id } => {
                self.link_states.insert(link_id.id, LinkState::Stale);
                assert(self@ =~= old(self)@.after_event(event));
                Step::Done(Ok(()))
            },
            NodeEvent::LinkRecovered { link_id } => {
                self.link_states.insert(link_id.id, LinkState::Active);
                assert(self@ =~= old(self)@.after_event(event));
                Step::Done(Ok(()))
            },
            NodeEvent::LinkClosed { link_id } => {
                self.received.remove(&link_id.id);
                self.link_states.insert(link_id.id, LinkState::Closed);
                let request = self.connect_requests.remove(&link_id.id);
                assert(self@ =~= old(self)@.after_event(event));
                match request {
                    Some(request) => Step::ReplyConnect {
                        response: request.response,
                        reply: Err(Error::LinkClosed),
                        then: Afterwards::Close { handle: request.handle },
                    },
                    None => Step::Done(Ok(())),
                }
            },
            NodeEvent::ResourceAdvertised { link_id } => Step::AcceptResource { link_id },
            NodeEvent::ResourceCompleted { link_id, resource_hash, data, is_sender } => {
                if is_sender {
                    return Step::Done(Ok(()));
                }
                match self.received.get(&link_id.id) {
                    Some(inbox) => Step::Deliver {
                        link_id,
                        resource_hash,
                        inbox: inbox.clone(),
                        data,
                    },
                    None => Step::Done(
                        Err(
                            Error::StreamMissing {
                                link: link_id,
                                resource: resource_hash,
                                bytes: data.len() as u64,
                            },
                        ),
                    ),
                }
            },
            _ => Step::Done(Ok(())),
        }
    }

    /// The node was asked to accept a link. Where it did, the link gets a stream, which is
    /// offered to the listener of the destination.
    pub fn link_accepted(
        &mut self,
        link_id: LinkId,
        destination_hash: DestinationHash,
        listener: mpsc::Sender<ReticulumStream>,
        outcome: Result<(), String>,
    ) -> (r: Step<H>)
        ensures
            match outcome {
                Err(cause) => {
                    &&& final(self)@ == old(self)@
                    &&& r == Step::<H>::Done(Err(Error::LinkNotAccepted { cause }))
                },
                Ok(()) => r matches Step::OfferStream {
                    destination_hash: offered,
                    listener: to,
                    stream,
                } && {
                    &&& final(self)@ == old(self)@.after_acceptance(
                        link_id,
                        inbox_of(stream.received),
                    )
                    &&& offered == destination_hash
                    &&& to == listener
                    &&& inbox_limit(stream.received) == STREAM_CAPACITY
                    &&& !inbox_closed(stream.received)
                    &&& stream.link == link_id
                    &&& stream.to_send.sender() == old(self).to_send()
                    &&& stream.record() == Seq::<Attempt<(LinkId, Vec<u8>)>>::empty()
                },
            },
            old(self)@.wf() ==> final(self)@.wf(),
            final(self).same_handles(old(self)),
            final(self).cancelled() == old(self).cancelled(),
            final(self).opened() == if outcome is Ok {
                old(self).opened().push(link_id)
            } else {
                old(self).opened()
            },
    {
        match outcome {
            Ok(()) => {
                self.link_states.insert(link_id.id, LinkState::Handshake);
                let (inbox, stream) = ReticulumStream::open(link_id, &mut self.outlet);
                self.received.insert(link_id.id, inbox);
                assert(self@ =~= old(self)@.after_acceptance(link_id, inbox));
                Step::OfferStream { destination_hash, listener, stream }
            },
            Err(cause) => Step::Done(Err(Error::LinkNotAccepted { cause })),
        }
    }

    /// A stream was offered to a listener. Where the listener is gone, nobody listens for
    /// the destination any more.
    pub fn stream_offered(&mut self, destination_hash: DestinationHash, taken: bool) -> (r: Step<H>)
        ensures
            final(self)@ == old(self)@.after_offer(destination_hash, taken),
            r == Step::<H>::Done(Ok(())),
            old(self)@.wf() ==> final(self)@.wf(),
            final(self).keeps(old(self)),
    {
        if !taken {
            self.listeners.remove(&destination_hash.id);
        }
        assert(self@ =~= old(self)@.after_offer(destination_hash, taken));
        Step::Done(Ok(()))
    }

    /// The node was asked to accept all resources on an established link. Where it does, a
    /// connection that waited for the link gets its stream; where it cannot, that connection
    /// is given up.
    pub fn strategy_set(
        &mut self,
        link_id: LinkId,
        request: Option<ConnectionRequest<H>>,
        outcome: Result<(), String>,
    ) -> (r: Step<H>)
        ensures
            match (outcome, request) {
                (Ok(()), Some(waiting)) => r matches Step::ReplyConnect {
                    response,
                    reply: Ok(stream),
                    then,
                } && {
                    &&& final(self)@ == old(self)@.after_strategy(
                        link_id,
                        inbox_of(stream.received),
                    )
                    &&& response == waiting.response
                    &&& inbox_limit(stream.received) == STREAM_CAPACITY
                    &&& !inbox_closed(stream.received)
                    &&& stream.link == link_id
                    &&& stream.to_send.sender() == old(self).to_send()
                    &&& stream.record() == Seq::<Attempt<(LinkId, Vec<u8>)>>::empty()
                    &&& then == Afterwards::<H>::Report { undelivered: Error::StreamUndelivered }
                },
                _ => final(self)@ == old(self)@ && r == node_step::<H>(outcome),
            },
            old(self)@.wf() && old(self)@.live(link_id.id) ==> final(self)@.wf(),
            final(self).same_handles(old(self)),
            final(self).cancelled() == old(self).cancelled(),
            final(self).opened() == if outcome is Ok && request is Some {
                old(self).opened().push(link_id)
            } else {
                old(self).opened()
            },
    {
        match outcome {
            Ok(()) => match request {
                Some(waiting) => {
                    let (inbox, stream) = ReticulumStream::open(link_id, &mut self.outlet);
                    self.received.insert(link_id.id, inbox);
                    assert(self@ =~= old(self)@.after_strategy(link_id, inbox));
                    Step::ReplyConnect {
                        response: waiting.response,
                        reply: Ok(stream),
                        then: Afterwards::Report { undelivered: Error::StreamUndelivered },
                    }
                },
                None => Step::Done(Ok(())),
            },
            Err(cause) => Step::Done(Err(Error::Node { cause })),
        }
    }

    /// The node was asked to close a link or to accept a resource.
    pub fn node_done(&self, outcome: Result<(), String>) -> (r: Step<H>)
        ensures
            r == node_step::<H>(outcome),
    {
        match outcome {
            Ok(()) => Step::Done(Ok(())),
            Err(cause) => Step::Done(Err(Error::Node { cause })),
        }
    }

    /// So many bytes of a resource were passed to the stream of a link, which took them
    /// or was gone.
    pub fn delivered(
        &self,
        link_id: LinkId,
        resource_hash: [u8; 32],
        bytes: u64,
        taken: bool,
    ) -> (r: Step<H>)
        ensures
            taken ==> r == Step::<H>::Done(Ok(())),
            !taken ==> r == Step::<H>::Done(
                Err(Error::StreamDropped { link: link_id, resource: resource_hash, bytes }),
            ),
    {
        if taken {
            Step::Done(Ok(()))
        } else {
            Step::Done(Err(Error::StreamDropped { link: link_id, resource: resource_hash, bytes }))
        }
    }

    /// Data that a stream wrote leaves on its link, all of it, as one resource.
    pub fn handle_to_send(&self, link_id: LinkId, data: Vec<u8>) -> (r: Step<H>)
        ensures
            r == (Step::<H>::SendResource { link_id, data }),
    {
        Step::SendResource { link_id, data }
    }

    /// The node was asked to send data on a link.
    pub fn resource_sent(&self, outcome: Result<(), String>) -> (r: Step<H>)
        ensures
            match outcome {
                Ok(()) => r == Step::<H>::Done(Ok(())),
                Err(cause) => r == Step::<H>::Done(Err(Error::ResourceNotSent { cause })),
            },
    {
        match outcome {
            Ok(()) => Step::Done(Ok(())),
            Err(cause) => Step::Done(Err(Error::ResourceNotSent { cause })),
        }
    }

    /// Somebody asks for a connection to a destination, whose public keys the node knows once
    /// it was announced. Without them the request is refused; with them a link is set up.
    pub fn handle_connect_request(&self, request: ConnectRequest) -> (r: Step<H>)
        ensures
            connect_step(request, r),
    {
        let ConnectRequest { hash, keys, response } = request;
        match keys {
            Some(keys) => Step::Connect { hash, signing_key: signing_key(&keys), response },
            None => Step::ReplyConnect {
                response,
                reply: Err(Error::NoAnnouncement { destination: hash }),
                then: Afterwards::Report {
                    undelivered: Error::RefusalUndelivered { destination: hash },
                },
            },
        }
    }

    /// The node was asked to set up a link. Where it began to, the request waits for the link
    /// to be established; where it could not, the requestor is told why.
    pub fn connected(
        &mut self,
        hash: DestinationHash,
        response: oneshot::Sender<Result<ReticulumStream, Error>>,
        outcome: Result<(H, LinkId), String>,
    ) -> (r: Step<H>)
        ensures
            match outcome {
                Ok((handle, link_id)) => {
                    &&& final(self)@ == old(self)@.after_connect(
                        link_id,
                        ConnectionRequest { handle, response, hash },
                    )
                    &&& r == Step::<H>::Done(Ok(()))
                },
                Err(cause) => {
                    &&& final(self)@ == old(self)@
                    &&& r == (Step::<H>::ReplyConnect {
                        response,
                        reply: Err(Error::Node { cause }),
                        then: Afterwards::Report {
                            undelivered: Error::FailureUndelivered { cause },
                        },
                    })
                },
            },
            old(self)@.wf() ==> final(self)@.wf(),
            final(self).keeps(old(self)),
    {
        match outcome {
            Ok((handle, link_id)) => {
                self.link_states.insert(link_id.id, LinkState::Pending);
                let request = ConnectionRequest { handle, response, hash };
                self.connect_requests.insert(link_id.id, request);
                assert(self@ =~= old(self)@.after_connect(link_id, request));
                Step::Done(Ok(()))
            },
            Err(cause) => Step::ReplyConnect {
                response,
                reply: Err(Error::Node { cause: cause.clone() }),
                then: Afterwards::Report { undelivered: Error::FailureUndelivered { cause } },
            },
        }
    }

    /// Somebody asks to listen for a destination. A second listener is refused.
    pub fn handle_listener_request(&self, request: ListenerRequest) -> (r: Step<H>)
        ensures
            r == self@.listener_step(request),
    {
        let ListenerRequest { hash, response } = request;
        if self.listeners.contains_key(&hash.id) {
            Step::ReplyListener {
                response,
                reply: Err(Error::ListenerExists { destination: hash }),
                then: Afterwards::Report {
                    undelivered: Error::DuplicateUndelivered { destination: hash },
                },
            }
        } else {
            Step::Register { hash, response }
        }
    }

    /// The node has registered a destination. It is announced from now on, and who asked gets
    /// the listener.
    pub fn registered(
        &mut self,
        hash: DestinationHash,
        response: oneshot::Sender<Result<Listener, Error>>,
    ) -> (r: Step<H>)
        ensures
            r matches Step::ReplyListener { response: back, reply: Ok(listener), then } && {
                &&& final(self)@ == old(self)@.after_registration(
                    hash,
                    streams_into(listener.streams),
                )
                &&& streams_limit(listener.streams) == LISTENER_CAPACITY
                &&& back == response
                &&& then == (Afterwards::<H>::Listen { hash })
            },
            old(self)@.wf() ==> final(self)@.wf(),
            final(self).keeps(old(self)),
    {
        let (sender, listener) = Listener::open();
        self.announce.insert(hash.id);
        self.listeners.insert(hash.id, sender);
        assert(self@ =~= old(self)@.after_registration(hash, sender));
        Step::ReplyListener { response, reply: Ok(listener), then: Afterwards::Listen { hash } }
    }

    /// A requestor was answered; `told` says whether it was there.
    pub fn replied(&mut self, then: Afterwards<H>, told: bool) -> (r: Step<H>)
        ensures
            final(self)@ == old(self)@.after_reply(then, told),
            r == reply_step(then, told),
            old(self)@.wf() ==> final(self)@.wf(),
            final(self).keeps(old(self)),
    {
        match then {
            Afterwards::Report { undelivered } => if told {
                Step::Done(Ok(()))
            } else {
                Step::Done(Err(undelivered))
            },
            Afterwards::Close { handle } => if told {
                Step::CloseLink { handle }
            } else {
                Step::Done(Err(Error::ClosureUndelivered))
            },
            Afterwards::Listen { hash } => if told {
                Step::Done(Ok(()))
            } else {
                self.listeners.remove(&hash.id);
                assert(self@ =~= old(self)@.after_reply(then, told));
                Step::Done(Err(Error::ListenerUndelivered))
            },
        }
    }

    /// Answers who asked for a connection, and goes on by whether it was there.
    pub fn reply_connect(
        &mut self,
        response: oneshot::Sender<Result<ReticulumStream, Error>>,
        reply: Result<ReticulumStream, Error>,
        then: Afterwards<H>,
    ) -> (r: Step<H>)
        ensures
            exists|sent: Result<(), Result<ReticulumStream, Error>>|
                {
                    &&& #[trigger] answered(response, reply, sent)
                    &&& r == reply_step(then, sent is Ok)
                    &&& final(self)@ == old(self)@.after_reply(then, sent is Ok)
                },
            old(self)@.wf() ==> final(self)@.wf(),
            final(self).keeps(old(self)),
    {
        let sent = response.send(reply);
        assert(answered(response, reply, sent));
        let told = sent.is_ok();
        self.replied(then, told)
    }

    /// Answers who asked for a listener, and goes on by whether it was there.
    pub fn reply_listener(
        &mut self,
        response: oneshot::Sender<Result<Listener, Error>>,
        reply: Result<Listener, Error>,
        then: Afterwards<H>,
    ) -> (r: Step<H>)
        ensures
            exists|sent: Result<(), Result<Listener, Error>>|
                {
                    &&& #[trigger] answered(response, reply, sent)
                    &&& r == reply_step(then, sent is Ok)
                    &&& final(self)@ == old(self)@.after_reply(then, sent is Ok)
                },
            old(self)@.wf() ==> final(self)@.wf(),
            final(self).keeps(old(self)),
    {
        let sent = response.send(reply);
        assert(answered(response, reply, sent));
        let told = sent.is_ok();
        self.replied(then, told)
    }
}

/// The signing key among the public keys of a destination.
pub fn signing_key(keys: &[u8; 64]) -> (r: [u8; 32])
    ensures
        r@ == signing_half(keys@),
{
    let mut key: [u8; 32] = [0; 32];
    let mut i: usize = 0;
    while i < 32
        invariant
            i <= 32,
            key@.len() == 32,
            forall|j: int| 0 <= j < i ==> #[trigger] key@[j] == keys@[32 + j],
        decreases 32 - i,
    {
        key[i] = keys[32 + i];
        i = i + 1;
    }
    assert(key@ =~= signing_half(keys@));
    key
}

} // verus!
