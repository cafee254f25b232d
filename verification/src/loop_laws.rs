//! What the calls of an instance and of its event loop do, call by call: the laws relate the
//! arguments of a call to its result and to what it leaves behind.

use crate::channel::{answered, inbox_closed, inbox_limit, inbox_of};
use crate::channel::{messages_into, messages_limit};
use crate::error::Error;
use crate::history::{law_announced_stays_announced, run, Change};
use crate::ids::{DestinationHash, LinkId};
use crate::instance::{listener_answers, requests_into, requests_limit, stream_answers};
use crate::instance::{signing_key, ConnectMessage, Connector, Context, EventLoop};
use crate::instance::{ListenerMessage, ReticulumInstance};
use crate::model::{Afterwards, ConnectRequest, ConnectionRequest, LinkState, ListenerRequest};
use crate::model::{ContextView, NodeEvent, Step, Turn, Wakeup};
use crate::stream::{streams_into, streams_limit, Listener, ReticulumStream};
use tokio::sync::{mpsc, oneshot};
use vstd::prelude::*;

verus! {

// The start.

/// An instance starts with nothing: no listener, stream, waiting connection, link or
/// announcement, and nothing sent or cancelled. Its handle and its event loop belong together.
pub proof fn law_instance_starts_with_nothing<D, H>(r: (ReticulumInstance<D>, EventLoop<D, H>))
    requires
        call_ensures(ReticulumInstance::<D>::new::<H>, (), r),
    ensures
        forall|id: u128|
            {
                &&& !(#[trigger] r.1.context@.listeners.contains_key(id))
                &&& !(#[trigger] r.1.context@.received.contains_key(id))
                &&& !(#[trigger] r.1.context@.connect_requests.contains_key(id))
                &&& !(#[trigger] r.1.context@.link_states.contains_key(id))
                &&& !(#[trigger] r.1.context@.announce.contains(id))
            },
        r.1.context.opened().len() == 0,
        !r.1.context.cancelled(),
        r.0.cancel == r.1.cancel,
        r.1.context.token() == r.1.cancel,
        r.0.connect_requests == requests_into(r.1.connect_requests),
        requests_limit(r.1.connect_requests) == 10,
        r.1.context.to_send() == messages_into(r.1.to_send),
        messages_limit(r.1.to_send) == 10,
        call_ensures(
            mpsc::channel::<ListenerMessage<D>>,
            (10usize,),
            (r.0.listener_requests, r.1.listener_requests),
        ),
{
}

/// A connector asks the instance that it comes from, for the destination that it is given,
/// and hands out where the answer to that request will come.
pub proof fn law_connector_asks_its_instance<D>(
    instance: &mut ReticulumInstance<D>,
    connector: Connector,
    hash: DestinationHash,
    r: (ConnectMessage, oneshot::Receiver<Result<ReticulumStream, Error>>),
)
    requires
        call_ensures(ReticulumInstance::<D>::connector, (instance,), connector),
        call_ensures(Connector::connect_request, (&connector, hash), r),
    ensures
        *final(instance) == *old(instance),
        connector.request == old(instance).connect_requests,
        r.0.0 == hash,
        r.0.1 == stream_answers(r.1),
{
}

/// A request for a listener carries the destination that it is for, and hands out where the
/// answer to that request will come.
pub proof fn law_listener_request_carries_its_destination<D>(
    instance: &ReticulumInstance<D>,
    destination: D,
    r: (ListenerMessage<D>, oneshot::Receiver<Result<Listener, Error>>),
)
    requires
        call_ensures(ReticulumInstance::<D>::listener_request, (instance, destination), r),
    ensures
        r.0.0 == destination,
        r.0.1 == listener_answers(r.1),
{
}

// Turns of the event loop.

/// A turn on an event is the handling of that event, in the same state and to the same state.
pub proof fn law_turn_handles_the_event<H>(
    turning: &mut Context<H>,
    handling: &mut Context<H>,
    event: NodeEvent,
    turn: Turn<H>,
    step: Step<H>,
)
    requires
        old(turning)@ == old(handling)@,
        call_ensures(Context::<H>::dispatch, (turning, Wakeup::Event(Some(event))), turn),
        call_ensures(Context::<H>::handle_event, (handling, event), step),
    ensures
        turn == Turn::Run(step),
        final(turning)@ == final(handling)@,
{
}

/// Only an event changes what an instance holds in a turn. Nothing is sent in any turn.
pub proof fn law_only_events_change_in_a_turn<H>(
    context: &mut Context<H>,
    wakeup: Wakeup,
    turn: Turn<H>,
)
    requires
        call_ensures(Context::<H>::dispatch, (context, wakeup), turn),
    ensures
        wakeup !is Event ==> final(context)@ == old(context)@,
        wakeup == Wakeup::Event(None) ==> final(context)@ == old(context)@,
        final(context).opened() == old(context).opened(),
        final(context).to_send() == old(context).to_send(),
        final(context).token() == old(context).token(),
{
}

/// The event loop ends when it was cancelled or a source has ended, and for nothing else. It
/// cancels its token when a source has ended, and for nothing else.
pub proof fn law_loop_ends_with_its_sources<H>(
    context: &mut Context<H>,
    wakeup: Wakeup,
    turn: Turn<H>,
)
    requires
        call_ensures(Context::<H>::dispatch, (context, wakeup), turn),
    ensures
        turn is Stop <==> {
            ||| wakeup is Cancelled
            ||| wakeup == Wakeup::Event(None)
            ||| wakeup == Wakeup::ConnectRequest(None)
            ||| wakeup == Wakeup::ListenerRequest(None)
            ||| wakeup == Wakeup::ToSend(None)
        },
        final(context).cancelled() <==> {
            ||| old(context).cancelled()
            ||| wakeup == Wakeup::Event(None)
            ||| wakeup == Wakeup::ConnectRequest(None)
            ||| wakeup == Wakeup::ListenerRequest(None)
            ||| wakeup == Wakeup::ToSend(None)
        },
{
}

// Announcing.

/// Silence has the destinations announced that are to be announced, all of them, no other,
/// and each once, whatever links, streams and listeners there are.
pub proof fn law_silence_announces<H>(context: &mut Context<H>, turn: Turn<H>)
    requires
        call_ensures(Context::<H>::dispatch, (context, Wakeup::Silence), turn),
    ensures
        turn matches Turn::Announce(destinations) && {
            &&& forall|id: u128|
                old(context)@.announce.contains(id) <==> #[trigger] destinations@.contains(
                    DestinationHash { id },
                )
            &&& forall|i: int, j: int|
                0 <= i < j < destinations@.len() ==> #[trigger] destinations@[i]
                    != #[trigger] destinations@[j]
        },
        final(context)@ == old(context)@,
{
    let destinations = turn->Announce_0@;
    lemma_list_of_ids(destinations, old(context)@.announce);
}

proof fn lemma_list_of_ids(destinations: Seq<DestinationHash>, ids: Set<u128>)
    requires
        crate::model::ids_of(destinations).to_set() == ids,
        crate::model::ids_of(destinations).no_duplicates(),
    ensures
        forall|id: u128|
            ids.contains(id) <==> #[trigger] destinations.contains(DestinationHash { id }),
        forall|i: int, j: int|
            0 <= i < j < destinations.len() ==> #[trigger] destinations[i]
                != #[trigger] destinations[j],
{
    let list = crate::model::ids_of(destinations);
    assert forall|id: u128|
        ids.contains(id) <==> #[trigger] destinations.contains(DestinationHash { id }) by {
        if ids.contains(id) {
            assert(list.contains(id));
            let i = list.index_of(id);
            assert(destinations[i] == DestinationHash { id });
        }
        if destinations.contains(DestinationHash { id }) {
            let i = destinations.index_of(DestinationHash { id });
            assert(list[i] == id);
            assert(list.to_set().contains(id));
        }
    }
    assert forall|i: int, j: int| 0 <= i < j < destinations.len() implies #[trigger] destinations[i]
        != #[trigger] destinations[j] by {
        assert(list[i] != list[j]);
    }
}

/// The same of the list of announcements when it is asked for.
pub proof fn law_announcements_are_complete<H>(
    context: &Context<H>,
    destinations: Vec<DestinationHash>,
)
    requires
        call_ensures(Context::<H>::announcements, (context,), destinations),
    ensures
        forall|id: u128|
            context@.announce.contains(id) <==> #[trigger] destinations@.contains(
                DestinationHash { id },
            ),
        forall|i: int, j: int|
            0 <= i < j < destinations@.len() ==> #[trigger] destinations@[i]
                != #[trigger] destinations@[j],
{
    lemma_list_of_ids(destinations@, context@.announce);
}

/// Once a destination was registered, silence has it announced, whatever happened since:
/// links that were accepted, streams that are open, even a listener that is gone.
pub proof fn law_registered_destination_is_announced<H>(
    registering: &mut Context<H>,
    hash: DestinationHash,
    response: oneshot::Sender<Result<Listener, Error>>,
    step: Step<H>,
    changes: Seq<Change<H>>,
    later: &mut Context<H>,
    turn: Turn<H>,
)
    requires
        call_ensures(Context::<H>::registered, (registering, hash, response), step),
        old(later)@ == run(final(registering)@, changes),
        call_ensures(Context::<H>::dispatch, (later, Wakeup::Silence), turn),
    ensures
        turn matches Turn::Announce(destinations) && destinations@.contains(hash),
{
    law_announced_stays_announced(final(registering)@, changes, hash);
    law_silence_announces(later, turn);
    assert(hash == DestinationHash { id: hash.id });
}

// Connecting.

/// A request for a connection to a destination with known keys asks the node for a link to
/// that very destination, with the second half of the keys, for the one who asked.
pub proof fn law_connect_goes_where_it_was_asked<H>(
    context: &mut Context<H>,
    request: ConnectRequest,
    keys: [u8; 64],
    turn: Turn<H>,
)
    requires
        request.keys == Some(keys),
        call_ensures(
            Context::<H>::dispatch,
            (context, Wakeup::ConnectRequest(Some(request))),
            turn,
        ),
    ensures
        turn matches Turn::Run(Step::Connect { hash, signing_key, response }) && {
            &&& hash == request.hash
            &&& hash.id == request.hash.id
            &&& hash.bytes() == request.hash.bytes()
            &&& signing_key@.len() == 32
            &&& forall|i: int| 0 <= i < 32 ==> #[trigger] signing_key@[i] == keys@[32 + i]
            &&& response == request.response
        },
        final(context)@ == old(context)@,
{
}

/// The same of the handling of the request by itself.
pub proof fn law_connect_request_keeps_its_destination<H>(
    context: &Context<H>,
    request: ConnectRequest,
    keys: [u8; 64],
    step: Step<H>,
)
    requires
        request.keys == Some(keys),
        call_ensures(Context::<H>::handle_connect_request, (context, request), step),
    ensures
        step matches Step::Connect { hash, signing_key, response } && {
            &&& hash == request.hash
            &&& hash.bytes() == request.hash.bytes()
            &&& signing_key@.len() == 32
            &&& forall|i: int| 0 <= i < 32 ==> #[trigger] signing_key@[i] == keys@[32 + i]
            &&& response == request.response
        },
{
}

/// The signing key is the second half of the keys.
pub proof fn law_signing_key_is_the_second_half(keys: &[u8; 64], r: [u8; 32])
    requires
        call_ensures(signing_key, (keys,), r),
    ensures
        forall|i: int| 0 <= i < 32 ==> #[trigger] r@[i] == keys@[32 + i],
{
}

/// A request for a connection to a destination that was not announced is refused, to the one
/// who asked and by the name of that destination.
pub proof fn law_unannounced_destination_is_refused<H>(
    context: &mut Context<H>,
    request: ConnectRequest,
    turn: Turn<H>,
    handling: &Context<H>,
    step: Step<H>,
)
    requires
        request.keys is None,
        call_ensures(
            Context::<H>::dispatch,
            (context, Wakeup::ConnectRequest(Some(request))),
            turn,
        ),
        call_ensures(Context::<H>::handle_connect_request, (handling, request), step),
    ensures
        turn == Turn::Run(step),
        step matches Step::ReplyConnect { response, reply: Err(error), then } && {
            &&& response == request.response
            &&& error == (Error::NoAnnouncement { destination: request.hash })
            &&& then == (Afterwards::<H>::Report {
                undelivered: Error::RefusalUndelivered { destination: request.hash },
            })
        },
        final(context)@ == old(context)@,
{
}

/// Once the node has begun to set up a link, the request waits under that link, which is
/// pending; nothing else changes. Where the node could not, the one who asked is told why,
/// and nothing changes.
pub proof fn law_connection_waits_under_its_link<H>(
    context: &mut Context<H>,
    hash: DestinationHash,
    response: oneshot::Sender<Result<ReticulumStream, Error>>,
    outcome: Result<(H, LinkId), String>,
    step: Step<H>,
    other: u128,
)
    requires
        call_ensures(Context::<H>::connected, (context, hash, response, outcome), step),
    ensures
        outcome matches Ok((handle, link)) ==> {
            &&& step == Step::<H>::Done(Ok(()))
            &&& final(context)@.connect_requests.get(link.id) == Some(
                ConnectionRequest { handle, response, hash },
            )
            &&& final(context)@.link_states.get(link.id) == Some(LinkState::Pending)
            &&& other != link.id ==> {
                &&& final(context)@.connect_requests.get(other)
                    == old(context)@.connect_requests.get(other)
                &&& final(context)@.link_states.get(other) == old(context)@.link_states.get(other)
            }
        },
        outcome matches Err(cause) ==> {
            &&& step matches Step::ReplyConnect { response: to, reply: Err(error), then } && {
                &&& to == response
                &&& error == (Error::Node { cause })
                &&& then == (Afterwards::<H>::Report {
                    undelivered: Error::FailureUndelivered { cause },
                })
            }
            &&& final(context)@ == old(context)@
        },
        final(context)@.listeners == old(context)@.listeners,
        final(context)@.received == old(context)@.received,
        final(context)@.announce == old(context)@.announce,
        final(context).opened() == old(context).opened(),
        final(context).cancelled() == old(context).cancelled(),
        final(context).to_send() == old(context).to_send(),
        final(context).token() == old(context).token(),
{
}

/// An established link is active, and the connection that waited for it is handed on and no
/// longer waits.
pub proof fn law_established_link_takes_its_connection_up<H>(
    context: &mut Context<H>,
    link_id: LinkId,
    step: Step<H>,
)
    requires
        call_ensures(
            Context::<H>::handle_event,
            (context, NodeEvent::LinkEstablished { link_id }),
            step,
        ),
    ensures
        step == (Step::<H>::SetStrategy {
            link_id,
            request: old(context)@.connect_requests.get(link_id.id),
        }),
        final(context)@.link_states.get(link_id.id) == Some(LinkState::Active),
        final(context)@.connect_requests.get(link_id.id) is None,
        final(context)@.received.get(link_id.id) == old(context)@.received.get(link_id.id),
{
}

/// A connection that waited gets a fresh stream of its link once the link carries resources,
/// and what is delivered to the link goes into that stream; nothing else changes. Without a
/// waiting connection, or where the node failed, nothing changes.
pub proof fn law_waiting_connection_gets_a_stream<H>(
    context: &mut Context<H>,
    link_id: LinkId,
    request: Option<ConnectionRequest<H>>,
    outcome: Result<(), String>,
    step: Step<H>,
    other: u128,
)
    requires
        call_ensures(Context::<H>::strategy_set, (context, link_id, request, outcome), step),
    ensures
        outcome is Ok && request is Some ==> {
            &&& step matches Step::ReplyConnect { response, reply: Ok(stream), then } && {
                &&& response == request->0.response
                &&& stream.link == link_id
                &&& stream.record().len() == 0
                &&& stream.to_send.sender() == old(context).to_send()
                &&& !inbox_closed(stream.received)
                &&& inbox_limit(stream.received) == 10
                &&& final(context)@.received.get(link_id.id) == Some(inbox_of(stream.received))
                &&& then == (Afterwards::<H>::Report { undelivered: Error::StreamUndelivered })
            }
            &&& final(context).opened() == old(context).opened().push(link_id)
        },
        outcome is Ok && request is None ==> step == Step::<H>::Done(Ok(())),
        outcome matches Err(cause) ==> step == Step::<H>::Done(Err(Error::Node { cause })),
        !(outcome is Ok && request is Some) ==> {
            &&& final(context)@ == old(context)@
            &&& final(context).opened() == old(context).opened()
        },
        other != link_id.id ==> final(context)@.received.get(other)
            == old(context)@.received.get(other),
        final(context)@.listeners == old(context)@.listeners,
        final(context)@.connect_requests == old(context)@.connect_requests,
        final(context)@.link_states == old(context)@.link_states,
        final(context)@.announce == old(context)@.announce,
        final(context).cancelled() == old(context).cancelled(),
        final(context).to_send() == old(context).to_send(),
        final(context).token() == old(context).token(),
{
}

/// From the request to the stream: who asked for a connection gets, when the link that the
/// node set up for it is established, a stream of that link.
pub proof fn law_connection_leads_to_its_stream<H>(
    connecting: &mut Context<H>,
    establishing: &mut Context<H>,
    setting: &mut Context<H>,
    hash: DestinationHash,
    response: oneshot::Sender<Result<ReticulumStream, Error>>,
    handle: H,
    link: LinkId,
    connected: Step<H>,
    established: Step<H>,
    set: Step<H>,
)
    requires
        call_ensures(
            Context::<H>::connected,
            (connecting, hash, response, Ok((handle, link))),
            connected,
        ),
        old(establishing)@ == final(connecting)@,
        call_ensures(
            Context::<H>::handle_event,
            (establishing, NodeEvent::LinkEstablished { link_id: link }),
            established,
        ),
        established matches Step::SetStrategy { link_id, request } && call_ensures(
            Context::<H>::strategy_set,
            (setting, link_id, request, Ok(())),
            set,
        ),
    ensures
        set matches Step::ReplyConnect { response: to, reply: Ok(stream), then } && {
            &&& to == response
            &&& stream.link == link
            &&& final(setting)@.received.get(link.id) == Some(inbox_of(stream.received))
        },
{
    law_connection_waits_under_its_link(
        connecting,
        hash,
        response,
        Ok((handle, link)),
        connected,
        link.id,
    );
    law_established_link_takes_its_connection_up(establishing, link, established);
}

// Listening.

/// A request to listen is refused where somebody listens for that destination, and leads to
/// its registration where nobody does; who asked is the one that is answered.
pub proof fn law_one_listener_per_destination<H>(
    context: &Context<H>,
    turning: &mut Context<H>,
    request: ListenerRequest,
    step: Step<H>,
    turn: Turn<H>,
)
    requires
        call_ensures(Context::<H>::handle_listener_request, (context, request), step),
        old(turning)@ == context@,
        call_ensures(
            Context::<H>::dispatch,
            (turning, Wakeup::ListenerRequest(Some(request))),
            turn,
        ),
    ensures
        context@.listeners.contains_key(request.hash.id) ==> {
            &&& step matches Step::ReplyListener { response, reply: Err(error), then } && {
                &&& response == request.response
                &&& error == (Error::ListenerExists { destination: request.hash })
                &&& then == (Afterwards::<H>::Report {
                    undelivered: Error::DuplicateUndelivered { destination: request.hash },
                })
            }
        },
        !context@.listeners.contains_key(request.hash.id) ==> step == (Step::<H>::Register {
            hash: request.hash,
            response: request.response,
        }),
        turn == Turn::Run(step),
        final(turning)@ == old(turning)@,
{
}

/// A registered destination has the listener that goes to who asked, and is announced. Other
/// destinations keep their listeners, and links are left alone.
pub proof fn law_registration_hands_out_the_listener<H>(
    context: &mut Context<H>,
    hash: DestinationHash,
    response: oneshot::Sender<Result<Listener, Error>>,
    step: Step<H>,
    other: u128,
)
    requires
        call_ensures(Context::<H>::registered, (context, hash, response), step),
    ensures
        step matches Step::ReplyListener { response: to, reply: Ok(listener), then } && {
            &&& to == response
            &&& final(context)@.listeners.get(hash.id) == Some(streams_into(listener.streams))
            &&& streams_limit(listener.streams) == 2
            &&& then == (Afterwards::<H>::Listen { hash })
        },
        final(context)@.announce.contains(hash.id),
        other != hash.id ==> {
            &&& final(context)@.listeners.get(other) == old(context)@.listeners.get(other)
            &&& final(context)@.announce.contains(other) <==> old(context)@.announce.contains(
                other,
            )
        },
        final(context)@.received == old(context)@.received,
        final(context)@.connect_requests == old(context)@.connect_requests,
        final(context)@.link_states == old(context)@.link_states,
        final(context).opened() == old(context).opened(),
        final(context).cancelled() == old(context).cancelled(),
        final(context).to_send() == old(context).to_send(),
        final(context).token() == old(context).token(),
{
}

/// A link request is accepted for the listener of the destination that it names, and ignored
/// where that has none. Nothing changes before the node has accepted the link.
pub proof fn law_link_request_goes_to_its_listener<H>(
    context: &mut Context<H>,
    link_id: LinkId,
    destination_hash: DestinationHash,
    step: Step<H>,
)
    requires
        call_ensures(
            Context::<H>::handle_event,
            (context, NodeEvent::LinkRequest { link_id, destination_hash }),
            step,
        ),
    ensures
        match old(context)@.listeners.get(destination_hash.id) {
            Some(listener) => step == (Step::<H>::AcceptLink {
                link_id,
                destination_hash,
                listener,
            }),
            None => step == Step::<H>::Done(Ok(())),
        },
        final(context)@ == old(context)@,
{
}

/// A link that the node accepted gets a fresh stream, which is offered to the listener that
/// the link was accepted for; what is delivered to the link goes into that stream, and nothing
/// else changes. Where the node failed, nothing changes.
pub proof fn law_accepted_link_gets_a_stream<H>(
    context: &mut Context<H>,
    link_id: LinkId,
    destination_hash: DestinationHash,
    listener: mpsc::Sender<ReticulumStream>,
    outcome: Result<(), String>,
    step: Step<H>,
    other: u128,
)
    requires
        call_ensures(
            Context::<H>::link_accepted,
            (context, link_id, destination_hash, listener, outcome),
            step,
        ),
    ensures
        outcome is Ok ==> {
            &&& step matches Step::OfferStream { destination_hash: of, listener: to, stream } && {
                &&& of == destination_hash
                &&& to == listener
                &&& stream.link == link_id
                &&& stream.record().len() == 0
                &&& stream.to_send.sender() == old(context).to_send()
                &&& !inbox_closed(stream.received)
                &&& inbox_limit(stream.received) == 10
                &&& final(context)@.received.get(link_id.id) == Some(inbox_of(stream.received))
            }
            &&& final(context)@.link_states.get(link_id.id) == Some(LinkState::Handshake)
            &&& final(context).opened() == old(context).opened().push(link_id)
        },
        outcome matches Err(cause) ==> {
            &&& step == Step::<H>::Done(Err(Error::LinkNotAccepted { cause }))
            &&& final(context)@ == old(context)@
            &&& final(context).opened() == old(context).opened()
        },
        other != link_id.id ==> {
            &&& final(context)@.received.get(other) == old(context)@.received.get(other)
            &&& final(context)@.link_states.get(other) == old(context)@.link_states.get(other)
        },
        final(context)@.listeners == old(context)@.listeners,
        final(context)@.connect_requests == old(context)@.connect_requests,
        final(context)@.announce == old(context)@.announce,
        final(context).cancelled() == old(context).cancelled(),
        final(context).to_send() == old(context).to_send(),
        final(context).token() == old(context).token(),
{
}

/// A listener that took a stream stays; one that is gone is taken out, and no other.
pub proof fn law_only_a_gone_listener_is_taken_out<H>(
    context: &mut Context<H>,
    destination_hash: DestinationHash,
    taken: bool,
    step: Step<H>,
    other: u128,
)
    requires
        call_ensures(Context::<H>::stream_offered, (context, destination_hash, taken), step),
    ensures
        step == Step::<H>::Done(Ok(())),
        taken ==> final(context)@ == old(context)@,
        !taken ==> final(context)@.listeners.get(destination_hash.id) is None,
        other != destination_hash.id ==> final(context)@.listeners.get(other)
            == old(context)@.listeners.get(other),
        final(context)@.received == old(context)@.received,
        final(context)@.connect_requests == old(context)@.connect_requests,
        final(context)@.link_states == old(context)@.link_states,
        final(context)@.announce == old(context)@.announce,
        final(context).opened() == old(context).opened(),
        final(context).cancelled() == old(context).cancelled(),
        final(context).to_send() == old(context).to_send(),
        final(context).token() == old(context).token(),
{
}

// Links.

/// A link that becomes stale or recovers changes its state, and nothing else.
pub proof fn law_stale_links_change_state_only<H>(
    context: &mut Context<H>,
    link_id: LinkId,
    stale: bool,
    step: Step<H>,
)
    requires
        call_ensures(
            Context::<H>::handle_event,
            (
                context,
                if stale {
                    NodeEvent::LinkStale { link_id }
                } else {
                    NodeEvent::LinkRecovered { link_id }
                },
            ),
            step,
        ),
    ensures
        step == Step::<H>::Done(Ok(())),
        final(context)@.link_states.get(link_id.id) == Some(
            if stale {
                LinkState::Stale
            } else {
                LinkState::Active
            },
        ),
        final(context)@.received == old(context)@.received,
        final(context)@.connect_requests == old(context)@.connect_requests,
{
}

/// A closed link has no stream and no connection that waits for it. Where one waited, who
/// asked for it is told that the link was closed, and the link is closed from this end too.
pub proof fn law_closed_link_is_let_go<H>(context: &mut Context<H>, link_id: LinkId, step: Step<H>)
    requires
        call_ensures(
            Context::<H>::handle_event,
            (context, NodeEvent::LinkClosed { link_id }),
            step,
        ),
    ensures
        final(context)@.link_states.get(link_id.id) == Some(LinkState::Closed),
        final(context)@.received.get(link_id.id) is None,
        final(context)@.connect_requests.get(link_id.id) is None,
        match old(context)@.connect_requests.get(link_id.id) {
            Some(waiting) => step == (Step::<H>::ReplyConnect {
                response: waiting.response,
                reply: Err(Error::LinkClosed),
                then: Afterwards::Close { handle: waiting.handle },
            }),
            None => step == Step::<H>::Done(Ok(())),
        },
{
}

/// The link that an event is about.
pub open spec fn about(event: NodeEvent, link: u128) -> bool {
    match event {
        NodeEvent::LinkEstablished { link_id } => link_id.id == link,
        NodeEvent::LinkStale { link_id } => link_id.id == link,
        NodeEvent::LinkRecovered { link_id } => link_id.id == link,
        NodeEvent::LinkClosed { link_id } => link_id.id == link,
        _ => false,
    }
}

/// Events leave all links alone but the one whose coming and going they tell of, and never
/// touch listeners and announcements. Nothing is sent and nobody is stopped.
pub proof fn law_events_leave_other_links_alone<H>(
    context: &mut Context<H>,
    event: NodeEvent,
    step: Step<H>,
    other: u128,
)
    requires
        call_ensures(Context::<H>::handle_event, (context, event), step),
        !about(event, other),
    ensures
        final(context)@.received.get(other) == old(context)@.received.get(other),
        final(context)@.connect_requests.get(other) == old(context)@.connect_requests.get(other),
        final(context)@.link_states.get(other) == old(context)@.link_states.get(other),
        final(context)@.listeners == old(context)@.listeners,
        final(context)@.announce == old(context)@.announce,
        final(context).opened() == old(context).opened(),
        final(context).cancelled() == old(context).cancelled(),
        final(context).to_send() == old(context).to_send(),
        final(context).token() == old(context).token(),
{
}

/// Events that only report change nothing and ask for nothing.
pub proof fn law_reports_are_passed_over<H>(
    context: &mut Context<H>,
    event: NodeEvent,
    step: Step<H>,
)
    requires
        event is ResourceTransferStarted || event is ResourceProgress || event is ResourceFailed
            || event is InterfaceDown || event is Other,
        call_ensures(Context::<H>::handle_event, (context, event), step),
    ensures
        step == Step::<H>::Done(Ok(())),
        final(context)@ == old(context)@,
{
}

// Resources.

/// A resource that is offered on a link is accepted, on every link and in every state: with a
/// stream or without, whatever waits and whatever the state of the link.
pub proof fn law_offered_resources_are_accepted<H>(
    context: &mut Context<H>,
    link_id: LinkId,
    step: Step<H>,
    turning: &mut Context<H>,
    turn: Turn<H>,
)
    requires
        call_ensures(
            Context::<H>::handle_event,
            (context, NodeEvent::ResourceAdvertised { link_id }),
            step,
        ),
        call_ensures(
            Context::<H>::dispatch,
            (turning, Wakeup::Event(Some(NodeEvent::ResourceAdvertised { link_id }))),
            turn,
        ),
    ensures
        step == (Step::<H>::AcceptResource { link_id }),
        final(context)@ == old(context)@,
        turn == Turn::Run(Step::<H>::AcceptResource { link_id }),
        final(turning)@ == old(turning)@,
{
}

/// In particular a link that was just accepted, or whose connection just got its stream, has
/// its resources accepted and their data delivered into that stream, whatever else happened
/// meanwhile that left the link its stream.
pub proof fn law_new_streams_get_their_data<H>(
    view: ContextView<H>,
    link_id: LinkId,
    inbox: mpsc::Sender<Vec<u8>>,
    changes: Seq<Change<H>>,
    established: bool,
    offering: &mut Context<H>,
    offered: Step<H>,
    arriving: &mut Context<H>,
    resource_hash: [u8; 32],
    data: Vec<u8>,
    arrived: Step<H>,
)
    requires
        forall|i: int|
            0 <= i < changes.len() ==> crate::history::spares_stream(
                #[trigger] changes[i],
                link_id,
            ),
        old(offering)@ == run(
            if established {
                view.after_strategy(link_id, inbox)
            } else {
                view.after_acceptance(link_id, inbox)
            },
            changes,
        ),
        call_ensures(
            Context::<H>::handle_event,
            (offering, NodeEvent::ResourceAdvertised { link_id }),
            offered,
        ),
        old(arriving)@ == final(offering)@,
        call_ensures(
            Context::<H>::handle_event,
            (
                arriving,
                NodeEvent::ResourceCompleted { link_id, resource_hash, data, is_sender: false },
            ),
            arrived,
        ),
    ensures
        offered == (Step::<H>::AcceptResource { link_id }),
        arrived == (Step::<H>::Deliver { link_id, resource_hash, inbox, data }),
{
    crate::history::law_data_go_to_the_stream_of_the_link(
        view,
        link_id,
        inbox,
        changes,
        resource_hash,
        data,
    );
}

/// Data that came in on a link go whole to the stream of that link, and are reported where it
/// has none. What was sent from here is not delivered here. Nothing changes.
pub proof fn law_data_go_to_their_link<H>(
    context: &mut Context<H>,
    link_id: LinkId,
    resource_hash: [u8; 32],
    data: Vec<u8>,
    is_sender: bool,
    step: Step<H>,
)
    requires
        call_ensures(
            Context::<H>::handle_event,
            (
                context,
                NodeEvent::ResourceCompleted { link_id, resource_hash, data, is_sender },
            ),
            step,
        ),
    ensures
        is_sender ==> step == Step::<H>::Done(Ok(())),
        !is_sender ==> match old(context)@.received.get(link_id.id) {
            Some(inbox) => step == (Step::<H>::Deliver { link_id, resource_hash, inbox, data }),
            None => step == Step::<H>::Done(
                Err(
                    Error::StreamMissing {
                        link: link_id,
                        resource: resource_hash,
                        bytes: data@.len() as u64,
                    },
                ),
            ),
        },
        final(context)@ == old(context)@,
{
}

/// Delivered data are done with; data for a stream that is gone are reported, by their link,
/// their resource and their number.
pub proof fn law_undelivered_data_are_reported<H>(
    context: &Context<H>,
    link_id: LinkId,
    resource_hash: [u8; 32],
    bytes: u64,
    taken: bool,
    step: Step<H>,
)
    requires
        call_ensures(
            Context::<H>::delivered,
            (context, link_id, resource_hash, bytes, taken),
            step,
        ),
    ensures
        taken ==> step == Step::<H>::Done(Ok(())),
        !taken ==> step == Step::<H>::Done(
            Err(Error::StreamDropped { link: link_id, resource: resource_hash, bytes }),
        ),
{
}

/// What a stream sends leaves on its own link, whole.
pub proof fn law_messages_leave_on_their_link<H>(
    context: &mut Context<H>,
    link_id: LinkId,
    data: Vec<u8>,
    turn: Turn<H>,
    handling: &Context<H>,
    step: Step<H>,
)
    requires
        call_ensures(
            Context::<H>::dispatch,
            (context, Wakeup::ToSend(Some((link_id, data)))),
            turn,
        ),
        call_ensures(Context::<H>::handle_to_send, (handling, link_id, data), step),
    ensures
        step == (Step::<H>::SendResource { link_id, data }),
        turn == Turn::Run(Step::<H>::SendResource { link_id, data }),
        final(context)@ == old(context)@,
{
}

/// What the node could not do is reported with its cause, and success with nothing.
pub proof fn law_failures_of_the_node_are_reported<H>(
    context: &Context<H>,
    outcome: Result<(), String>,
    done: Step<H>,
    sent: Step<H>,
)
    requires
        call_ensures(Context::<H>::node_done, (context, outcome), done),
        call_ensures(Context::<H>::resource_sent, (context, outcome), sent),
    ensures
        outcome is Ok ==> done == Step::<H>::Done(Ok(())) && sent == Step::<H>::Done(Ok(())),
        outcome matches Err(cause) ==> {
            &&& done == Step::<H>::Done(Err(Error::Node { cause }))
            &&& sent == Step::<H>::Done(Err(Error::ResourceNotSent { cause }))
        },
{
}

// Answers.

/// What follows an answer goes by whether somebody was there to get it: then handling is over,
/// or the link is closed; otherwise that is reported, and a listener that nobody took is taken
/// out. Nothing else changes.
pub proof fn law_answers_are_followed_up<H>(
    context: &mut Context<H>,
    then: Afterwards<H>,
    told: bool,
    step: Step<H>,
    other: u128,
)
    requires
        call_ensures(Context::<H>::replied, (context, then, told), step),
    ensures
        then matches Afterwards::Report { undelivered } ==> step == Step::<H>::Done(
            if told {
                Ok(())
            } else {
                Err(undelivered)
            },
        ),
        then matches Afterwards::Close { handle } ==> if told {
            step == (Step::<H>::CloseLink { handle })
        } else {
            step == Step::<H>::Done(Err(Error::ClosureUndelivered))
        },
        then matches Afterwards::Listen { hash } ==> {
            &&& step == Step::<H>::Done(
                if told {
                    Ok(())
                } else {
                    Err(Error::ListenerUndelivered)
                },
            )
            &&& !told ==> final(context)@.listeners.get(hash.id) is None
            &&& other != hash.id ==> final(context)@.listeners.get(other)
                == old(context)@.listeners.get(other)
        },
        told || then !is Listen ==> final(context)@ == old(context)@,
        final(context)@.received == old(context)@.received,
        final(context)@.connect_requests == old(context)@.connect_requests,
        final(context)@.link_states == old(context)@.link_states,
        final(context)@.announce == old(context)@.announce,
        final(context).opened() == old(context).opened(),
        final(context).cancelled() == old(context).cancelled(),
        final(context).to_send() == old(context).to_send(),
        final(context).token() == old(context).token(),
{
}

/// An answer to who asked for a connection is that answer, to that one, and is followed up by
/// whether it was there.
pub proof fn law_connection_answer_is_sent<H>(
    context: &mut Context<H>,
    response: oneshot::Sender<Result<ReticulumStream, Error>>,
    reply: Result<ReticulumStream, Error>,
    undelivered: Error,
    step: Step<H>,
)
    requires
        call_ensures(
            Context::<H>::reply_connect,
            (context, response, reply, Afterwards::Report { undelivered }),
            step,
        ),
    ensures
        exists|sent: Result<(), Result<ReticulumStream, Error>>| #[trigger]
            call_ensures(
                oneshot::Sender::<Result<ReticulumStream, Error>>::send,
                (response, reply),
                sent,
            ) && step == Step::<H>::Done(
                if sent is Ok {
                    Ok(())
                } else {
                    Err(undelivered)
                },
            ),
        final(context)@ == old(context)@,
        final(context).opened() == old(context).opened(),
        final(context).cancelled() == old(context).cancelled(),
        final(context).to_send() == old(context).to_send(),
        final(context).token() == old(context).token(),
{
}

/// An answer that a link was closed is that answer, to the one who waited for the link, which
/// is then closed from this end too where somebody was there to hear of it.
pub proof fn law_closure_answer_is_sent<H>(
    context: &mut Context<H>,
    response: oneshot::Sender<Result<ReticulumStream, Error>>,
    reply: Result<ReticulumStream, Error>,
    handle: H,
    step: Step<H>,
)
    requires
        call_ensures(
            Context::<H>::reply_connect,
            (context, response, reply, Afterwards::Close { handle }),
            step,
        ),
    ensures
        exists|sent: Result<(), Result<ReticulumStream, Error>>| #[trigger]
            call_ensures(
                oneshot::Sender::<Result<ReticulumStream, Error>>::send,
                (response, reply),
                sent,
            ) && if sent is Ok {
                step == (Step::<H>::CloseLink { handle })
            } else {
                step == Step::<H>::Done(Err(Error::ClosureUndelivered))
            },
        final(context)@ == old(context)@,
        final(context).opened() == old(context).opened(),
        final(context).cancelled() == old(context).cancelled(),
        final(context).to_send() == old(context).to_send(),
        final(context).token() == old(context).token(),
{
}

/// An answer to who asked for a listener is that answer, to that one. Where nobody was there
/// to take a listener, nobody listens.
pub proof fn law_listener_answer_is_sent<H>(
    context: &mut Context<H>,
    response: oneshot::Sender<Result<Listener, Error>>,
    reply: Result<Listener, Error>,
    then: Afterwards<H>,
    step: Step<H>,
)
    requires
        call_ensures(Context::<H>::reply_listener, (context, response, reply, then), step),
    ensures
        exists|sent: Result<(), Result<Listener, Error>>| #[trigger]
            call_ensures(
                oneshot::Sender::<Result<Listener, Error>>::send,
                (response, reply),
                sent,
            ) && {
                &&& then matches Afterwards::Report { undelivered } ==> step == Step::<H>::Done(
                    if sent is Ok {
                        Ok(())
                    } else {
                        Err(undelivered)
                    },
                )
                &&& then matches Afterwards::Listen { hash } ==> {
                    &&& step == Step::<H>::Done(
                        if sent is Ok {
                            Ok(())
                        } else {
                            Err(Error::ListenerUndelivered)
                        },
                    )
                    &&& sent is Ok ==> final(context)@ == old(context)@
                    &&& sent is Err ==> final(context)@.listeners
                        == old(context)@.listeners.remove(hash.id)
                }
            },
        final(context)@.received == old(context)@.received,
        final(context)@.connect_requests == old(context)@.connect_requests,
        final(context)@.link_states == old(context)@.link_states,
        final(context)@.announce == old(context)@.announce,
        final(context).opened() == old(context).opened(),
        final(context).cancelled() == old(context).cancelled(),
        final(context).to_send() == old(context).to_send(),
        final(context).token() == old(context).token(),
{
    let sent = choose|sent: Result<(), Result<Listener, Error>>| #[trigger]
        answered(response, reply, sent) && step == crate::model::reply_step(then, sent is Ok)
            && final(context)@ == old(context)@.after_reply(then, sent is Ok);
    assert(answered(response, reply, sent));
}

} // verus!
