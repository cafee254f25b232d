//! What holds of an instance through everything that happens to it.

use crate::error::Error;
use crate::ids::{DestinationHash, LinkId};
use crate::model::{Afterwards, ConnectionRequest, ContextView, LinkState, NodeEvent, Step};
use crate::model::{ListenerRequest, Turn, Wakeup};
use crate::stream::{read_bytes, Received, ReticulumStream};
use tokio::sync::mpsc;
use vstd::prelude::*;

verus! {

/// A change that an instance goes through.
#[verifier::reject_recursive_types(H)]
pub enum Change<H> {
    Event(NodeEvent),
    Accepted { link: LinkId, inbox: mpsc::Sender<Vec<u8>> },
    Offered { destination: DestinationHash, taken: bool },
    Strategy { link: LinkId, inbox: mpsc::Sender<Vec<u8>> },
    Connected { link: LinkId, request: ConnectionRequest<H> },
    Registered { destination: DestinationHash, streams: mpsc::Sender<ReticulumStream> },
    Replied { then: Afterwards<H>, told: bool },
}

/// What a change makes of what an instance holds.
pub open spec fn changed<H>(view: ContextView<H>, change: Change<H>) -> ContextView<H> {
    match change {
        Change::Event(event) => view.after_event(event),
        Change::Accepted { link, inbox } => view.after_acceptance(link, inbox),
        Change::Offered { destination, taken } => view.after_offer(destination, taken),
        Change::Strategy { link, inbox } => view.after_strategy(link, inbox),
        Change::Connected { link, request } => view.after_connect(link, request),
        Change::Registered { destination, streams } => view.after_registration(
            destination,
            streams,
        ),
        Change::Replied { then, told } => view.after_reply(then, told),
    }
}

/// What an instance comes to hold through some changes.
pub open spec fn run<H>(view: ContextView<H>, changes: Seq<Change<H>>) -> ContextView<H>
    decreases changes.len(),
{
    if changes.len() == 0 {
        view
    } else {
        changed(run(view, changes.drop_last()), changes.last())
    }
}

/// Whether a change can come about: streams for waiting connections are made for links that
/// are live, and destinations are registered that nobody listens for.
pub open spec fn sound<H>(view: ContextView<H>, change: Change<H>) -> bool {
    match change {
        Change::Strategy { link, inbox } => view.live(link.id),
        Change::Registered { destination, streams } => !view.listeners.contains_key(
            destination.id,
        ),
        _ => true,
    }
}

/// Whether each of some changes can come about after those before it.
pub open spec fn all_sound<H>(view: ContextView<H>, changes: Seq<Change<H>>) -> bool
    decreases changes.len(),
{
    changes.len() > 0 ==> {
        &&& all_sound(view, changes.drop_last())
        &&& sound(run(view, changes.drop_last()), changes.last())
    }
}

/// Whether a change leaves a link with the stream that it has: it neither closes the link nor
/// gives it another stream.
pub open spec fn spares_stream<H>(change: Change<H>, link: LinkId) -> bool {
    match change {
        Change::Event(event) => event != (NodeEvent::LinkClosed { link_id: link }),
        Change::Accepted { link: on, inbox } => on != link,
        Change::Strategy { link: on, inbox } => on != link,
        _ => true,
    }
}

/// Whether a change leaves a connection waiting for a link: it neither establishes nor closes
/// the link, and has no other connection wait for it.
pub open spec fn spares_connection<H>(change: Change<H>, link: LinkId) -> bool {
    match change {
        Change::Event(event) => {
            &&& event != (NodeEvent::LinkEstablished { link_id: link })
            &&& event != (NodeEvent::LinkClosed { link_id: link })
        },
        Change::Connected { link: on, request } => on != link,
        _ => true,
    }
}

/// Whether a change leaves a destination with its listener: it does not find the listener
/// gone.
pub open spec fn spares_listener<H>(change: Change<H>, destination: DestinationHash) -> bool {
    match change {
        Change::Offered { destination: to, taken } => to != destination || taken,
        Change::Replied { then, told } => then == (Afterwards::<H>::Listen { hash: destination })
            ==> told,
        _ => true,
    }
}

/// The stream that follows when a link is established can come about: the link is live.
pub proof fn law_stream_follows_establishment<H>(
    view: ContextView<H>,
    link_id: LinkId,
    inbox: mpsc::Sender<Vec<u8>>,
)
    ensures
        sound(
            view.after_event(NodeEvent::LinkEstablished { link_id }),
            Change::Strategy { link: link_id, inbox },
        ),
{
}

/// The registration that follows a request to listen can come about: nobody listens for the
/// destination.
pub proof fn law_registration_follows_request<H>(
    view: ContextView<H>,
    request: ListenerRequest,
    streams: mpsc::Sender<ReticulumStream>,
)
    requires
        view.listener_step(request) is Register,
    ensures
        sound(view, Change::Registered { destination: request.hash, streams }),
{
}

/// One change keeps an instance in order.
pub proof fn law_change_keeps_wf<H>(view: ContextView<H>, change: Change<H>)
    requires
        view.wf(),
        sound(view, change),
    ensures
        changed(view, change).wf(),
{
    let after = changed(view, change);
    assert forall|link: u128| #[trigger]
        after.received.contains_key(link) implies after.live(link) by {
        assert(view.received.contains_key(link) ==> view.live(link));
    }
    assert forall|link: u128| #[trigger]
        after.connect_requests.contains_key(link) implies after.live(link) by {
        assert(view.connect_requests.contains_key(link) ==> view.live(link));
    }
}

/// At all times, destinations with a listener are announced, streams and waiting connections
/// belong to links that are known and have not been closed, and a connection waits for every
/// link that is pending.
pub proof fn law_instance_stays_wf<H>(view: ContextView<H>, changes: Seq<Change<H>>)
    requires
        view.wf(),
        all_sound(view, changes),
    ensures
        run(view, changes).wf(),
    decreases changes.len(),
{
    if changes.len() > 0 {
        law_instance_stays_wf(view, changes.drop_last());
        law_change_keeps_wf(run(view, changes.drop_last()), changes.last());
    }
}

/// A destination that is announced once stays announced.
pub proof fn law_announced_stays_announced<H>(
    view: ContextView<H>,
    changes: Seq<Change<H>>,
    destination: DestinationHash,
)
    requires
        view.announce.contains(destination.id),
    ensures
        run(view, changes).announce.contains(destination.id),
    decreases changes.len(),
{
    if changes.len() > 0 {
        law_announced_stays_announced(view, changes.drop_last(), destination);
    }
}

/// A link keeps its stream through all changes that leave it.
pub proof fn law_stream_stays<H>(view: ContextView<H>, changes: Seq<Change<H>>, link: LinkId)
    requires
        forall|i: int| 0 <= i < changes.len() ==> spares_stream(#[trigger] changes[i], link),
    ensures
        run(view, changes).received.get(link.id) == view.received.get(link.id),
    decreases changes.len(),
{
    if changes.len() > 0 {
        law_stream_stays(view, changes.drop_last(), link);
        assert(spares_stream(changes[changes.len() - 1], link));
    }
}

/// A connection waits for its link through all changes that leave it.
pub proof fn law_connection_waits<H>(view: ContextView<H>, changes: Seq<Change<H>>, link: LinkId)
    requires
        forall|i: int| 0 <= i < changes.len() ==> spares_connection(#[trigger] changes[i], link),
    ensures
        run(view, changes).connect_requests.get(link.id) == view.connect_requests.get(link.id),
    decreases changes.len(),
{
    if changes.len() > 0 {
        law_connection_waits(view, changes.drop_last(), link);
        assert(spares_connection(changes[changes.len() - 1], link));
    }
}

/// A destination that has a listener keeps it through all changes that do not find it gone.
pub proof fn law_listener_stays<H>(
    view: ContextView<H>,
    changes: Seq<Change<H>>,
    destination: DestinationHash,
)
    requires
        view.listeners.contains_key(destination.id),
        all_sound(view, changes),
        forall|i: int|
            0 <= i < changes.len() ==> spares_listener(#[trigger] changes[i], destination),
    ensures
        run(view, changes).listeners.get(destination.id) == view.listeners.get(destination.id),
    decreases changes.len(),
{
    if changes.len() > 0 {
        let before = changes.drop_last();
        assert forall|i: int| 0 <= i < before.len() implies spares_listener(
            #[trigger] before[i],
            destination,
        ) by {
            assert(spares_listener(changes[i], destination));
        }
        law_listener_stays(view, before, destination);
        assert(run(view, before).listeners.contains_key(destination.id));
        assert(spares_listener(changes[changes.len() - 1], destination));
    }
}

/// The link that an event tells of.
pub open spec fn link_of(event: NodeEvent) -> Option<LinkId> {
    match event {
        NodeEvent::LinkRequest { link_id, destination_hash } => Some(link_id),
        NodeEvent::LinkEstablished { link_id } => Some(link_id),
        NodeEvent::LinkStale { link_id } => Some(link_id),
        NodeEvent::LinkRecovered { link_id } => Some(link_id),
        NodeEvent::LinkClosed { link_id } => Some(link_id),
        NodeEvent::ResourceAdvertised { link_id } => Some(link_id),
        NodeEvent::ResourceTransferStarted { link_id } => Some(link_id),
        NodeEvent::ResourceProgress { link_id } => Some(link_id),
        NodeEvent::ResourceCompleted { link_id, resource_hash, data, is_sender } => Some(link_id),
        NodeEvent::ResourceFailed { link_id, resource_hash, error, is_sender } => Some(link_id),
        NodeEvent::InterfaceDown { id } => None,
        NodeEvent::Other => None,
    }
}

/// An event leaves the listeners, the announcements and every link that it does not tell of
/// as they were.
pub proof fn law_event_touches_its_link_only<H>(
    view: ContextView<H>,
    event: NodeEvent,
    other: u128,
)
    requires
        link_of(event) matches Some(link) ==> link.id != other,
    ensures
        view.after_event(event).listeners == view.listeners,
        view.after_event(event).announce == view.announce,
        view.after_event(event).received.get(other) == view.received.get(other),
        view.after_event(event).connect_requests.get(other) == view.connect_requests.get(other),
        view.after_event(event).link_states.get(other) == view.link_states.get(other),
{
}

// Listening.

/// A link request to a destination that nobody listens for changes nothing and asks for
/// nothing.
pub proof fn law_unheard_link_request_is_ignored<H>(
    view: ContextView<H>,
    link_id: LinkId,
    destination_hash: DestinationHash,
)
    requires
        !view.listeners.contains_key(destination_hash.id),
    ensures
        view.after_event(NodeEvent::LinkRequest { link_id, destination_hash }) == view,
        view.event_step(NodeEvent::LinkRequest { link_id, destination_hash }) == Step::<H>::Done(
            Ok(()),
        ),
{
}

/// Once a destination is registered, and as long as its listener is not found gone, it is
/// announced, link requests to it are accepted for the listener, and nobody else gets to
/// listen for it.
pub proof fn law_listener_is_served<H>(
    view: ContextView<H>,
    hash: DestinationHash,
    streams: mpsc::Sender<ReticulumStream>,
    between: Seq<Change<H>>,
    link_id: LinkId,
    second: ListenerRequest,
)
    requires
        second.hash == hash,
        all_sound(view.after_registration(hash, streams), between),
        forall|i: int| 0 <= i < between.len() ==> spares_listener(#[trigger] between[i], hash),
    ensures
        ({
            let after = run(view.after_registration(hash, streams), between);
            &&& after.announce.contains(hash.id)
            &&& after.event_step(NodeEvent::LinkRequest { link_id, destination_hash: hash }) == (
            Step::<H>::AcceptLink { link_id, destination_hash: hash, listener: streams })
            &&& after.listener_step(second) == (Step::<H>::ReplyListener {
                response: second.response,
                reply: Err(Error::ListenerExists { destination: hash }),
                then: Afterwards::Report {
                    undelivered: Error::DuplicateUndelivered { destination: hash },
                },
            })
        }),
{
    let registered = view.after_registration(hash, streams);
    law_announced_stays_announced(registered, between, hash);
    law_listener_stays(registered, between, hash);
    assert(run(registered, between).listeners.get(hash.id) == Some(streams));
}

/// Once a listener was found gone, its destination is free for another, and link requests to
/// it are ignored until then.
pub proof fn law_gone_listener_makes_room<H>(
    view: ContextView<H>,
    hash: DestinationHash,
    link_id: LinkId,
    next: ListenerRequest,
)
    requires
        next.hash == hash,
    ensures
        view.after_offer(hash, false).listener_step(next) == (Step::<H>::Register {
            hash,
            response: next.response,
        }),
        view.after_offer(hash, false).event_step(
            NodeEvent::LinkRequest { link_id, destination_hash: hash },
        ) == Step::<H>::Done(Ok(())),
{
}

/// A listener whose requestor was gone leaves nobody listening, and every other listener
/// where it was.
pub proof fn law_undelivered_listener_is_taken_back<H>(
    view: ContextView<H>,
    hash: DestinationHash,
    streams: mpsc::Sender<ReticulumStream>,
)
    requires
        !view.listeners.contains_key(hash.id),
    ensures
        view.after_registration(hash, streams).after_reply(
            Afterwards::Listen { hash },
            false,
        ).listeners == view.listeners,
{
    assert(view.listeners.insert(hash.id, streams).remove(hash.id) =~= view.listeners);
}

// Connecting.

/// A connection that waited for its link is taken up when the link is established, whatever
/// else happened meanwhile, and then no longer waits.
pub proof fn law_established_connection_is_taken_up<H>(
    view: ContextView<H>,
    link_id: LinkId,
    request: ConnectionRequest<H>,
    between: Seq<Change<H>>,
)
    requires
        forall|i: int| 0 <= i < between.len() ==> spares_connection(#[trigger] between[i], link_id),
    ensures
        ({
            let waiting = run(view.after_connect(link_id, request), between);
            let event = NodeEvent::LinkEstablished { link_id };
            &&& waiting.event_step(event) == (Step::SetStrategy { link_id, request: Some(request) })
            &&& !waiting.after_event(event).connect_requests.contains_key(link_id.id)
            &&& waiting.after_event(event).link_states[link_id.id] == LinkState::Active
        }),
{
    law_connection_waits(view.after_connect(link_id, request), between, link_id);
}

/// A connection that waited for its link is answered when the link is closed first, whatever
/// else happened meanwhile, and then no longer waits.
pub proof fn law_closed_connection_is_answered<H>(
    view: ContextView<H>,
    link_id: LinkId,
    request: ConnectionRequest<H>,
    between: Seq<Change<H>>,
)
    requires
        forall|i: int| 0 <= i < between.len() ==> spares_connection(#[trigger] between[i], link_id),
    ensures
        ({
            let waiting = run(view.after_connect(link_id, request), between);
            let event = NodeEvent::LinkClosed { link_id };
            &&& waiting.event_step(event) == (Step::ReplyConnect {
                response: request.response,
                reply: Err(Error::LinkClosed),
                then: Afterwards::Close { handle: request.handle },
            })
            &&& !waiting.after_event(event).connect_requests.contains_key(link_id.id)
            &&& waiting.after_event(event).link_states[link_id.id] == LinkState::Closed
        }),
{
    let connected = view.after_connect(link_id, request);
    law_connection_waits(connected, between, link_id);
    assert(run(connected, between).connect_requests.get(link_id.id) == Some(request));
}

// Data.

/// Data that come in on a link go to the stream that the link got, whatever else happened
/// meanwhile, until the link is closed or gets another stream.
pub proof fn law_data_go_to_the_stream_of_the_link<H>(
    view: ContextView<H>,
    link_id: LinkId,
    inbox: mpsc::Sender<Vec<u8>>,
    between: Seq<Change<H>>,
    resource_hash: [u8; 32],
    data: Vec<u8>,
)
    requires
        forall|i: int| 0 <= i < between.len() ==> spares_stream(#[trigger] between[i], link_id),
    ensures
        ({
            let arrival = NodeEvent::ResourceCompleted {
                link_id,
                resource_hash,
                data,
                is_sender: false,
            };
            let step = Step::<H>::Deliver { link_id, resource_hash, inbox, data };
            &&& run(view.after_acceptance(link_id, inbox), between).event_step(arrival) == step
            &&& run(view.after_strategy(link_id, inbox), between).event_step(arrival) == step
        }),
{
    let accepted = view.after_acceptance(link_id, inbox);
    let established = view.after_strategy(link_id, inbox);
    law_stream_stays(accepted, between, link_id);
    law_stream_stays(established, between, link_id);
    assert(run(accepted, between).received.get(link_id.id) == Some(inbox));
    assert(run(established, between).received.get(link_id.id) == Some(inbox));
}

/// Data that come in on a closed link are dropped, and that is reported, until the link gets
/// a stream again.
pub proof fn law_closed_link_takes_no_data<H>(
    view: ContextView<H>,
    link_id: LinkId,
    between: Seq<Change<H>>,
    resource_hash: [u8; 32],
    data: Vec<u8>,
)
    requires
        forall|i: int| 0 <= i < between.len() ==> spares_stream(#[trigger] between[i], link_id),
    ensures
        run(view.after_event(NodeEvent::LinkClosed { link_id }), between).event_step(
            NodeEvent::ResourceCompleted { link_id, resource_hash, data, is_sender: false },
        ) == Step::<H>::Done(
            Err(
                Error::StreamMissing {
                    link: link_id,
                    resource: resource_hash,
                    bytes: data@.len() as u64,
                },
            ),
        ),
{
    let closed = view.after_event(NodeEvent::LinkClosed { link_id });
    law_stream_stays(closed, between, link_id);
    assert(run(closed, between).received.get(link_id.id) is None);
}

/// What is written at one end of a link is read at the other. `message` is what the written
/// stream hands to its event loop, `sent` what that loop has the node send, `arrived` what
/// the node at the other end tells of: the same bytes come out of the read there.
pub proof fn law_bytes_arrive_as_written<H>(
    writer: ContextView<H>,
    reader: ContextView<H>,
    written: Seq<u8>,
    message: (LinkId, Vec<u8>),
    turn: Turn<H>,
    link_id: LinkId,
    resource_hash: [u8; 32],
    arrived: Vec<u8>,
)
    requires
        message.1@ == written,
        writer.turns_to(Wakeup::ToSend(Some(message)), turn),
        turn matches Turn::Run(Step::SendResource { link_id: on, data: sent }) ==> arrived@
            == sent@,
        reader.received.contains_key(link_id.id),
    ensures
        turn == Turn::Run(Step::<H>::SendResource { link_id: message.0, data: message.1 }),
        reader.event_step(
            NodeEvent::ResourceCompleted {
                link_id,
                resource_hash,
                data: arrived,
                is_sender: false,
            },
        ) == (Step::<H>::Deliver {
            link_id,
            resource_hash,
            inbox: reader.received[link_id.id],
            data: arrived,
        }),
        read_bytes(Received::Data(arrived)) == Some(written),
{
}

} // verus!
