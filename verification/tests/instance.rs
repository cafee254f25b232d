//! The event loop of an instance, with the node played by the tests.

use socks5_reticulum_proxy::error::Error;
use socks5_reticulum_proxy::ids::{DestinationHash, LinkId};
use socks5_reticulum_proxy::instance::{
    signing_key, Connector, EventLoop, ReticulumInstance, ANNOUNCE_SECONDS, REQUEST_CAPACITY,
};
use socks5_reticulum_proxy::model::{
    Afterwards, ConnectRequest, ListenerRequest, NodeEvent, Step, Turn, Wakeup,
};
use socks5_reticulum_proxy::stream::{
    read_step, Listener, ReadStep, Received, ReticulumStream, ShutdownStep, WriteStep,
};
use tokio::sync::mpsc::error::TryRecvError;
use tokio::sync::oneshot;

type Instance = ReticulumInstance<DestinationHash>;
type Loop = EventLoop<DestinationHash, u64>;

const KEYS: [u8; 64] = [7; 64];
const RESOURCE: [u8; 32] = [0xab; 32];
const DESTINATION: DestinationHash = DestinationHash { id: 0xffbaa173393b55617485bbcfb248d14c };
const LINK: LinkId = LinkId { id: 0x11 };
const OTHER_LINK: LinkId = LinkId { id: 0x22 };

fn start() -> (Instance, Loop) {
    ReticulumInstance::new()
}

fn tell(event_loop: &mut Loop, event: NodeEvent) -> Step<u64> {
    match event_loop.context.dispatch(Wakeup::Event(Some(event))) {
        Turn::Run(step) => step,
        _ => panic!("an event is handled"),
    }
}

fn done(step: Step<u64>) -> Result<(), String> {
    match step {
        Step::Done(result) => result.map_err(|error| error.message()),
        _ => panic!("handling is over"),
    }
}

/// Has the event loop see to the next request for a listener.
fn serve_listener(event_loop: &mut Loop) -> Result<(), String> {
    let (hash, response) = event_loop.listener_requests.try_recv().unwrap();
    let request = Wakeup::ListenerRequest(Some(ListenerRequest { hash, response }));
    let step = match event_loop.context.dispatch(request) {
        Turn::Run(Step::Register { hash, response }) => event_loop.context.registered(hash, response),
        Turn::Run(step) => step,
        _ => panic!("a request is handled"),
    };
    match step {
        Step::ReplyListener { response, reply, then } => {
            done(event_loop.context.reply_listener(response, reply, then))
        }
        _ => panic!("a requestor is answered"),
    }
}

fn listen(instance: &mut Instance, event_loop: &mut Loop, hash: DestinationHash) -> Listener {
    let (message, mut answer) = instance.listener_request(hash);
    instance.listener_requests.try_send(message).unwrap();
    assert_eq!(serve_listener(event_loop), Ok(()));
    answer.try_recv().unwrap().unwrap()
}

/// Asks for a connection and has the node set up a link for it.
fn connect(
    connector: &Connector,
    event_loop: &mut Loop,
    hash: DestinationHash,
    link: LinkId,
) -> oneshot::Receiver<Result<ReticulumStream, Error>> {
    let (message, answer) = connector.connect_request(hash);
    connector.request.try_send(message).unwrap();
    let (hash, response) = event_loop.connect_requests.try_recv().unwrap();
    let request = ConnectRequest { hash, keys: Some(KEYS), response };
    match event_loop.context.dispatch(Wakeup::ConnectRequest(Some(request))) {
        Turn::Run(Step::Connect { hash, signing_key, response }) => {
            assert_eq!(signing_key, [7; 32]);
            let outcome = Ok((99, link));
            assert_eq!(done(event_loop.context.connected(hash, response, outcome)), Ok(()));
        }
        _ => panic!("a link is set up"),
    }
    answer
}

/// Has the node tell that a link is established.
fn establish(event_loop: &mut Loop, link: LinkId) -> Result<(), String> {
    match tell(event_loop, NodeEvent::LinkEstablished { link_id: link }) {
        Step::SetStrategy { link_id, request } => {
            assert_eq!(link_id, link);
            match event_loop.context.strategy_set(link_id, request, Ok(())) {
                Step::ReplyConnect { response, reply, then } => {
                    done(event_loop.context.reply_connect(response, reply, then))
                }
                step => done(step),
            }
        }
        _ => panic!("the link is to carry resources"),
    }
}

/// Has the node tell that somebody wants a link, and accepts it.
fn accept(event_loop: &mut Loop, link: LinkId, hash: DestinationHash) {
    match tell(event_loop, NodeEvent::LinkRequest { link_id: link, destination_hash: hash }) {
        Step::AcceptLink { link_id, destination_hash, listener } => {
            match event_loop.context.link_accepted(link_id, destination_hash, listener, Ok(())) {
                Step::OfferStream { destination_hash, listener, stream } => {
                    let taken = listener.try_send(stream).is_ok();
                    assert_eq!(done(event_loop.context.stream_offered(destination_hash, taken)), Ok(()));
                }
                _ => panic!("a stream is offered"),
            }
        }
        _ => panic!("the link is accepted"),
    }
}

/// Takes what a stream has sent, as the node gets it.
fn sent(event_loop: &mut Loop) -> (LinkId, Vec<u8>) {
    let message = event_loop.to_send.try_recv().unwrap();
    match event_loop.context.dispatch(Wakeup::ToSend(Some(message))) {
        Turn::Run(Step::SendResource { link_id, data }) => {
            assert_eq!(done(event_loop.context.resource_sent(Ok(()))), Ok(()));
            (link_id, data)
        }
        _ => panic!("data are sent"),
    }
}

/// Has data come in on a link.
fn arrive(event_loop: &mut Loop, link: LinkId, data: Vec<u8>) -> Result<(), String> {
    let event = NodeEvent::ResourceCompleted {
        link_id: link,
        resource_hash: RESOURCE,
        data,
        is_sender: false,
    };
    match tell(event_loop, event) {
        Step::Deliver { link_id, resource_hash, inbox, data } => {
            let bytes = data.len() as u64;
            let taken = inbox.try_send(data).is_ok();
            done(event_loop.context.delivered(link_id, resource_hash, bytes, taken))
        }
        step => done(step),
    }
}

/// Reads once into a buffer with room for `room` bytes.
fn read(stream: &mut ReticulumStream, room: usize) -> Option<Vec<u8>> {
    let received = match stream.received.try_recv() {
        Ok(data) => Received::Data(data),
        Err(TryRecvError::Empty) => Received::Pending,
        Err(TryRecvError::Disconnected) => Received::Ended,
    };
    match read_step(received, room) {
        ReadStep::Ready(data) => Some(data),
        ReadStep::Pending => None,
        ReadStep::Aborted => panic!("a read is not aborted"),
    }
}

/// Two instances with an established link between them; the first listens, the second
/// connects.
fn linked() -> ((Instance, Loop, ReticulumStream), (Instance, Loop, ReticulumStream)) {
    let (mut instance_a, mut loop_a) = start();
    let (mut instance_c, mut loop_c) = start();
    let mut listener = listen(&mut instance_a, &mut loop_a, DESTINATION);
    let connector = instance_c.connector();
    let mut answer = connect(&connector, &mut loop_c, DESTINATION, LINK);
    accept(&mut loop_a, LINK, DESTINATION);
    assert_eq!(establish(&mut loop_a, LINK), Ok(()));
    assert_eq!(establish(&mut loop_c, LINK), Ok(()));
    let stream_a = listener.streams.try_recv().unwrap();
    let stream_c = answer.try_recv().unwrap().unwrap();
    ((instance_a, loop_a, stream_a), (instance_c, loop_c, stream_c))
}

#[test]
fn send_receive() {
    let ((_a, mut loop_a, mut stream_a), (_c, mut loop_c, mut stream_c)) = linked();
    let message = "foo";
    assert_eq!(stream_c.write(message.as_bytes()), WriteStep::Ready(3));
    let (link, data) = sent(&mut loop_c);
    assert_eq!(link, LINK);
    assert_eq!(loop_c.to_send.try_recv(), Err(TryRecvError::Empty));
    assert_eq!(arrive(&mut loop_a, link, data), Ok(()));
    let received = String::from_utf8(read(&mut stream_a, 3).unwrap()).unwrap();
    assert_eq!(received, String::from(message));
}

#[test]
fn send_receive_reverse() {
    let ((_a, mut loop_a, mut stream_a), (_c, mut loop_c, mut stream_c)) = linked();
    let message = "foo";
    assert_eq!(stream_a.write(message.as_bytes()), WriteStep::Ready(3));
    let (link, data) = sent(&mut loop_a);
    assert_eq!(arrive(&mut loop_c, link, data), Ok(()));
    let received = String::from_utf8(read(&mut stream_c, 3).unwrap()).unwrap();
    assert_eq!(received, String::from(message));
}

#[test]
fn both_directions_keep_the_order_of_what_was_written() {
    let ((_a, mut loop_a, mut stream_a), (_c, mut loop_c, mut stream_c)) = linked();
    for piece in [b"HELLO".as_slice(), b"", b"\x00\xff"] {
        assert_eq!(stream_c.write(piece), WriteStep::Ready(piece.len()));
        assert_eq!(stream_a.write(piece), WriteStep::Ready(piece.len()));
    }
    for piece in [b"HELLO".as_slice(), b"", b"\x00\xff"] {
        let (link, data) = sent(&mut loop_c);
        assert_eq!(arrive(&mut loop_a, link, data), Ok(()));
        let (link, data) = sent(&mut loop_a);
        assert_eq!(arrive(&mut loop_c, link, data), Ok(()));
        assert_eq!(read(&mut stream_a, 64), Some(piece.to_vec()));
        assert_eq!(read(&mut stream_c, 64), Some(piece.to_vec()));
    }
    assert_eq!(read(&mut stream_a, 64), None);
}

#[test]
fn a_closed_link_ends_its_stream() {
    let ((_a, mut loop_a, mut stream_a), _c) = linked();
    assert_eq!(arrive(&mut loop_a, LINK, vec![1, 2]), Ok(()));
    assert_eq!(done(tell(&mut loop_a, NodeEvent::LinkClosed { link_id: LINK })), Ok(()));
    assert_eq!(read(&mut stream_a, 8), Some(vec![1, 2]));
    assert_eq!(read(&mut stream_a, 8), Some(vec![]));
    assert_eq!(
        arrive(&mut loop_a, LINK, vec![3; 5]),
        Err(format!(
            "link 00000000000000000000000000000011: resource {}: dropping 5 received bytes \
             because sender to stream doesn't exist",
            "ab".repeat(32)
        ))
    );
}

#[test]
fn data_for_a_dropped_stream_are_reported() {
    let ((_a, mut loop_a, stream_a), _c) = linked();
    drop(stream_a);
    assert_eq!(
        arrive(&mut loop_a, LINK, vec![0; 1024]),
        Err(format!(
            "link 00000000000000000000000000000011: resource {}: dropping 1024 received bytes \
             because stream was dropped",
            "ab".repeat(32)
        ))
    );
}

#[test]
fn what_was_sent_is_not_received() {
    let ((_a, mut loop_a, mut stream_a), _c) = linked();
    let event = NodeEvent::ResourceCompleted {
        link_id: LINK,
        resource_hash: RESOURCE,
        data: vec![1],
        is_sender: true,
    };
    assert_eq!(done(tell(&mut loop_a, event)), Ok(()));
    assert_eq!(read(&mut stream_a, 8), None);
}

#[test]
fn a_stale_link_goes_on_receiving() {
    let ((_a, mut loop_a, mut stream_a), _c) = linked();
    assert_eq!(done(tell(&mut loop_a, NodeEvent::LinkStale { link_id: LINK })), Ok(()));
    assert_eq!(arrive(&mut loop_a, LINK, vec![1]), Ok(()));
    assert_eq!(done(tell(&mut loop_a, NodeEvent::LinkRecovered { link_id: LINK })), Ok(()));
    assert_eq!(arrive(&mut loop_a, LINK, vec![2]), Ok(()));
    assert_eq!(read(&mut stream_a, 8), Some(vec![1]));
    assert_eq!(read(&mut stream_a, 8), Some(vec![2]));
}

#[test]
fn links_do_not_disturb_each_other() {
    let ((_a, mut loop_a, mut stream_a), _c) = linked();
    assert_eq!(done(tell(&mut loop_a, NodeEvent::LinkClosed { link_id: OTHER_LINK })), Ok(()));
    assert_eq!(done(tell(&mut loop_a, NodeEvent::LinkStale { link_id: OTHER_LINK })), Ok(()));
    assert!(arrive(&mut loop_a, OTHER_LINK, vec![9]).is_err());
    assert_eq!(arrive(&mut loop_a, LINK, vec![1]), Ok(()));
    assert_eq!(read(&mut stream_a, 8), Some(vec![1]));
}

#[test]
fn two_links_to_one_listener_have_a_stream_each() {
    let (mut instance, mut event_loop) = start();
    let mut listener = listen(&mut instance, &mut event_loop, DESTINATION);
    accept(&mut event_loop, LINK, DESTINATION);
    accept(&mut event_loop, OTHER_LINK, DESTINATION);
    let mut first = listener.streams.try_recv().unwrap();
    let mut second = listener.streams.try_recv().unwrap();
    assert_eq!((first.link, second.link), (LINK, OTHER_LINK));
    assert_eq!(arrive(&mut event_loop, OTHER_LINK, vec![2]), Ok(()));
    assert_eq!(arrive(&mut event_loop, LINK, vec![1]), Ok(()));
    assert_eq!(read(&mut first, 1), Some(vec![1]));
    assert_eq!(read(&mut second, 1), Some(vec![2]));
}

#[test]
fn an_unannounced_destination_is_refused() {
    let (mut instance, mut event_loop) = start();
    let (message, mut answer) = instance.connector().connect_request(DESTINATION);
    let (hash, response) = message;
    let request = ConnectRequest { hash, keys: None, response };
    match event_loop.context.dispatch(Wakeup::ConnectRequest(Some(request))) {
        Turn::Run(Step::ReplyConnect { response, reply, then }) => {
            assert_eq!(done(event_loop.context.reply_connect(response, reply, then)), Ok(()));
        }
        _ => panic!("the request is refused"),
    }
    assert_eq!(
        answer.try_recv().unwrap().err().unwrap().message(),
        "no announcement received yet for destination ffbaa173393b55617485bbcfb248d14c"
    );
}

#[test]
fn a_refusal_that_nobody_waits_for_is_reported() {
    let (mut instance, mut event_loop) = start();
    let (message, answer) = instance.connector().connect_request(DESTINATION);
    drop(answer);
    let (hash, response) = message;
    match event_loop.context.handle_connect_request(ConnectRequest { hash, keys: None, response }) {
        Step::ReplyConnect { response, reply, then } => assert_eq!(
            done(event_loop.context.reply_connect(response, reply, then)),
            Err("error trying to send send error back to connection requestor: no announcement \
                 received yet for destination ffbaa173393b55617485bbcfb248d14c"
                .to_string())
        ),
        _ => panic!("the request is refused"),
    }
}

#[test]
fn a_link_that_cannot_be_set_up_is_told() {
    let (mut instance, mut event_loop) = start();
    for waits in [true, false] {
        let (message, mut answer) = instance.connector().connect_request(DESTINATION);
        if !waits {
            answer.close();
        }
        let step = event_loop.context.connected(message.0, message.1, Err("no path".to_string()));
        let Step::ReplyConnect { response, reply, then } = step else {
            panic!("the requestor is told");
        };
        let result = done(event_loop.context.reply_connect(response, reply, then));
        if waits {
            assert_eq!(result, Ok(()));
            assert_eq!(answer.try_recv().unwrap().err().unwrap().message(), "no path");
        } else {
            assert_eq!(
                result,
                Err("error when trying to send error back to connection requestor: no path"
                    .to_string())
            );
        }
    }
}

#[test]
fn a_connection_waits_for_its_link() {
    let (mut instance, mut event_loop) = start();
    let connector = instance.connector();
    let mut answer = connect(&connector, &mut event_loop, DESTINATION, LINK);
    assert_eq!(done(tell(&mut event_loop, NodeEvent::LinkStale { link_id: LINK })), Ok(()));
    assert_eq!(establish(&mut event_loop, OTHER_LINK), Ok(()));
    assert!(answer.try_recv().is_err());
    assert_eq!(establish(&mut event_loop, LINK), Ok(()));
    assert_eq!(answer.try_recv().unwrap().unwrap().link, LINK);
    assert_eq!(establish(&mut event_loop, LINK), Ok(()));
}

#[test]
fn a_link_closed_too_early_is_told_and_closed() {
    let (mut instance, mut event_loop) = start();
    let connector = instance.connector();
    let mut answer = connect(&connector, &mut event_loop, DESTINATION, LINK);
    let Step::ReplyConnect { response, reply, then } =
        tell(&mut event_loop, NodeEvent::LinkClosed { link_id: LINK })
    else {
        panic!("the requestor is told");
    };
    let Step::CloseLink { handle } = event_loop.context.reply_connect(response, reply, then) else {
        panic!("the link is closed from this end");
    };
    assert_eq!(handle, 99);
    assert_eq!(answer.try_recv().unwrap().err().unwrap().message(), "link closed");
    assert_eq!(done(event_loop.context.node_done(Ok(()))), Ok(()));
    assert_eq!(done(event_loop.context.node_done(Err("gone".to_string()))), Err("gone".to_string()));
    assert_eq!(done(tell(&mut event_loop, NodeEvent::LinkClosed { link_id: LINK })), Ok(()));
}

#[test]
fn a_closure_that_nobody_waits_for_is_reported() {
    let (mut instance, mut event_loop) = start();
    let connector = instance.connector();
    drop(connect(&connector, &mut event_loop, DESTINATION, LINK));
    let Step::ReplyConnect { response, reply, then } =
        tell(&mut event_loop, NodeEvent::LinkClosed { link_id: LINK })
    else {
        panic!("the requestor is told");
    };
    assert_eq!(
        done(event_loop.context.reply_connect(response, reply, then)),
        Err("could not send response back to connection requestor: link closed".to_string())
    );
}

#[test]
fn a_stream_that_nobody_waits_for_is_reported() {
    let (mut instance, mut event_loop) = start();
    let connector = instance.connector();
    drop(connect(&connector, &mut event_loop, DESTINATION, LINK));
    assert_eq!(
        establish(&mut event_loop, LINK),
        Err("error trying to send reticulum stream back to connection requestor".to_string())
    );
}

#[test]
fn a_link_that_carries_no_resources_gives_its_connection_up() {
    let (mut instance, mut event_loop) = start();
    let connector = instance.connector();
    let mut answer = connect(&connector, &mut event_loop, DESTINATION, LINK);
    let Step::SetStrategy { link_id, request } =
        tell(&mut event_loop, NodeEvent::LinkEstablished { link_id: LINK })
    else {
        panic!("the link is to carry resources");
    };
    let step = event_loop.context.strategy_set(link_id, request, Err("no link".to_string()));
    assert_eq!(done(step), Err("no link".to_string()));
    assert!(matches!(answer.try_recv(), Err(oneshot::error::TryRecvError::Closed)));
    assert!(arrive(&mut event_loop, LINK, vec![1]).is_err());
}

#[test]
fn a_second_listener_is_refused() {
    let (mut instance, mut event_loop) = start();
    let _listener = listen(&mut instance, &mut event_loop, DESTINATION);
    let (message, mut answer) = instance.listener_request(DESTINATION);
    instance.listener_requests.try_send(message).unwrap();
    assert_eq!(serve_listener(&mut event_loop), Ok(()));
    assert_eq!(
        answer.try_recv().unwrap().err().unwrap().message(),
        "Listener already exists for destination ffbaa173393b55617485bbcfb248d14c"
    );

    let (message, answer) = instance.listener_request(DESTINATION);
    drop(answer);
    instance.listener_requests.try_send(message).unwrap();
    assert_eq!(
        serve_listener(&mut event_loop),
        Err("error trying to send error response back to listener requestor: Listener already \
             exists for destination ffbaa173393b55617485bbcfb248d14c"
            .to_string())
    );
    accept(&mut event_loop, LINK, DESTINATION);
}

#[test]
fn a_listener_that_nobody_waits_for_is_taken_back() {
    let (mut instance, mut event_loop) = start();
    let (message, answer) = instance.listener_request(DESTINATION);
    drop(answer);
    instance.listener_requests.try_send(message).unwrap();
    assert_eq!(
        serve_listener(&mut event_loop),
        Err("error trying to send error response back to listener requestor".to_string())
    );
    let event = NodeEvent::LinkRequest { link_id: LINK, destination_hash: DESTINATION };
    assert_eq!(done(tell(&mut event_loop, event)), Ok(()));
    assert_eq!(event_loop.context.announcements(), vec![DESTINATION]);
    listen(&mut instance, &mut event_loop, DESTINATION);
}

#[test]
fn a_link_to_nobody_is_ignored() {
    let (mut instance, mut event_loop) = start();
    let _listener = listen(&mut instance, &mut event_loop, DestinationHash { id: 1 });
    let event = NodeEvent::LinkRequest { link_id: LINK, destination_hash: DESTINATION };
    assert_eq!(done(tell(&mut event_loop, event)), Ok(()));
    assert!(arrive(&mut event_loop, LINK, vec![1]).is_err());
}

#[test]
fn a_listener_gets_one_stream_and_only_once_its_link_was_accepted() {
    let (mut instance, mut event_loop) = start();
    let mut listener = listen(&mut instance, &mut event_loop, DESTINATION);
    let event = NodeEvent::LinkRequest { link_id: LINK, destination_hash: DESTINATION };
    let Step::AcceptLink { link_id, destination_hash, listener: to } = tell(&mut event_loop, event)
    else {
        panic!("the link is accepted");
    };
    assert!(listener.streams.try_recv().is_err());
    let step = event_loop.context.link_accepted(link_id, destination_hash, to, Ok(()));
    let Step::OfferStream { destination_hash, listener: to, stream } = step else {
        panic!("a stream is offered");
    };
    assert!(listener.streams.try_recv().is_err());
    let taken = to.try_send(stream).is_ok();
    assert_eq!(done(event_loop.context.stream_offered(destination_hash, taken)), Ok(()));
    assert_eq!(listener.streams.try_recv().unwrap().link, LINK);
    assert!(listener.streams.try_recv().is_err());
}

#[test]
fn a_link_that_cannot_be_accepted_is_reported() {
    let (mut instance, mut event_loop) = start();
    let mut listener = listen(&mut instance, &mut event_loop, DESTINATION);
    let event = NodeEvent::LinkRequest { link_id: LINK, destination_hash: DESTINATION };
    let Step::AcceptLink { link_id, destination_hash, listener: to } = tell(&mut event_loop, event)
    else {
        panic!("the link is accepted");
    };
    let outcome = Err("unknown link".to_string());
    assert_eq!(
        done(event_loop.context.link_accepted(link_id, destination_hash, to, outcome)),
        Err("error when trying to accept link: unknown link".to_string())
    );
    assert!(listener.streams.try_recv().is_err());
    accept(&mut event_loop, LINK, DESTINATION);
    assert!(listener.streams.try_recv().is_ok());
}

#[test]
fn a_gone_listener_makes_room() {
    let (mut instance, mut event_loop) = start();
    drop(listen(&mut instance, &mut event_loop, DESTINATION));
    accept(&mut event_loop, LINK, DESTINATION);
    let event = NodeEvent::LinkRequest { link_id: OTHER_LINK, destination_hash: DESTINATION };
    assert_eq!(done(tell(&mut event_loop, event)), Ok(()));
    let mut listener = listen(&mut instance, &mut event_loop, DESTINATION);
    accept(&mut event_loop, OTHER_LINK, DESTINATION);
    assert_eq!(listener.streams.try_recv().unwrap().link, OTHER_LINK);
}

#[test]
fn advertised_resources_are_accepted() {
    let (_instance, mut event_loop) = start();
    match tell(&mut event_loop, NodeEvent::ResourceAdvertised { link_id: LINK }) {
        Step::AcceptResource { link_id } => assert_eq!(link_id, LINK),
        _ => panic!("the resource is accepted"),
    }
}

#[test]
fn other_events_are_passed_over() {
    let (_instance, mut event_loop) = start();
    for event in [
        NodeEvent::ResourceTransferStarted { link_id: LINK },
        NodeEvent::ResourceProgress { link_id: LINK },
        NodeEvent::ResourceFailed {
            link_id: LINK,
            resource_hash: RESOURCE,
            error: "timeout".to_string(),
            is_sender: true,
        },
        NodeEvent::InterfaceDown { id: 3 },
        NodeEvent::Other,
    ] {
        assert_eq!(done(tell(&mut event_loop, event)), Ok(()));
        assert!(!event_loop.cancel.is_cancelled());
        assert_eq!(event_loop.to_send.try_recv(), Err(TryRecvError::Empty));
    }
}

#[test]
fn data_that_cannot_be_sent_are_reported() {
    let (_instance, event_loop) = start();
    assert_eq!(
        done(event_loop.context.resource_sent(Err("link is busy".to_string()))),
        Err("sending resource: link is busy".to_string())
    );
}

#[test]
fn silence_announces_every_destination_once() {
    let (mut instance, mut event_loop) = start();
    let Turn::Announce(none) = event_loop.context.dispatch(Wakeup::Silence) else {
        panic!("silence is for announcing");
    };
    assert!(none.is_empty());
    let _listeners: Vec<Listener> = (1..=3)
        .map(|id| listen(&mut instance, &mut event_loop, DestinationHash { id }))
        .collect();
    let Turn::Announce(destinations) = event_loop.context.dispatch(Wakeup::Silence) else {
        panic!("silence is for announcing");
    };
    let mut ids: Vec<u128> = destinations.iter().map(|destination| destination.id).collect();
    ids.sort();
    assert_eq!(ids, vec![1, 2, 3]);
    assert_eq!(ANNOUNCE_SECONDS, 10);
}

#[test]
fn a_source_that_has_ended_stops_the_loop_and_its_owner() {
    for wakeup in [
        Wakeup::Event(None),
        Wakeup::ConnectRequest(None),
        Wakeup::ListenerRequest(None),
        Wakeup::ToSend(None),
    ] {
        let (instance, mut event_loop) = start();
        assert!(!instance.cancel.is_cancelled());
        assert!(matches!(event_loop.context.dispatch(wakeup), Turn::Stop));
        assert!(instance.cancel.is_cancelled());
        assert!(event_loop.cancel.is_cancelled());
    }
}

#[test]
fn a_cancelled_token_stops_the_loop() {
    let (instance, mut event_loop) = start();
    instance.cancel.cancel();
    assert!(event_loop.cancel.is_cancelled());
    assert!(matches!(event_loop.context.dispatch(Wakeup::Cancelled), Turn::Stop));
}

#[test]
fn requests_reach_the_loop_in_order() {
    let (mut instance, mut event_loop) = start();
    let connector = instance.connector();
    let mut answers = Vec::new();
    for id in 0..REQUEST_CAPACITY as u128 {
        let (message, answer) = connector.connect_request(DestinationHash { id });
        instance.connect_requests.try_send(message).unwrap();
        answers.push(answer);
    }
    let (message, _answer) = connector.connect_request(DESTINATION);
    assert!(instance.connect_requests.try_send(message).is_err());
    for id in 0..REQUEST_CAPACITY as u128 {
        assert_eq!(event_loop.connect_requests.try_recv().unwrap().0.id, id);
    }
}

#[test]
fn as_many_listener_requests_wait_as_connection_requests() {
    let (instance, mut event_loop) = start();
    let mut answers = Vec::new();
    for id in 0..REQUEST_CAPACITY as u128 {
        let (message, answer) = instance.listener_request(DestinationHash { id });
        instance.listener_requests.try_send(message).unwrap();
        answers.push(answer);
    }
    let (message, _answer) = instance.listener_request(DESTINATION);
    assert!(instance.listener_requests.try_send(message).is_err());
    assert_eq!(event_loop.listener_requests.try_recv().unwrap().0.id, 0);
}

#[test]
fn a_full_queue_makes_writers_wait_and_a_gone_loop_resets_them() {
    let ((_a, event_loop, mut stream), _c) = linked();
    for _ in 0..REQUEST_CAPACITY {
        assert_eq!(stream.write(b"x"), WriteStep::Ready(1));
    }
    assert_eq!(stream.write(b"x"), WriteStep::Pending);
    drop(event_loop);
    assert_eq!(stream.write(b"x"), WriteStep::Reset);
}

#[test]
fn writes_that_wait_leave_no_message_and_the_others_keep_their_order() {
    let (mut instance, mut event_loop) = start();
    let mut listener = listen(&mut instance, &mut event_loop, DESTINATION);
    accept(&mut event_loop, LINK, DESTINATION);
    accept(&mut event_loop, OTHER_LINK, DESTINATION);
    let mut first = listener.streams.try_recv().unwrap();
    let mut second = listener.streams.try_recv().unwrap();
    for i in 0..REQUEST_CAPACITY as u8 / 2 {
        assert_eq!(first.write(&[i]), WriteStep::Ready(1));
        assert_eq!(second.write(&[i, i]), WriteStep::Ready(2));
    }
    assert_eq!(first.write(&[99]), WriteStep::Pending);
    for i in 0..REQUEST_CAPACITY as u8 / 2 {
        assert_eq!(sent(&mut event_loop), (LINK, vec![i]));
        assert_eq!(sent(&mut event_loop), (OTHER_LINK, vec![i, i]));
    }
    assert!(event_loop.to_send.try_recv().is_err());
}

#[test]
fn a_shutdown_drains_in_order() {
    let ((_a, mut event_loop, mut stream), _c) = linked();
    for i in 0..3 {
        assert_eq!(arrive(&mut event_loop, LINK, vec![i]), Ok(()));
    }
    for i in 0..3 {
        assert_eq!(stream.shutdown(), ShutdownStep::Pending);
        assert_eq!(read(&mut stream, 8), Some(vec![i]));
    }
    assert_eq!(stream.shutdown(), ShutdownStep::Ready);
    assert_eq!(read(&mut stream, 8), Some(vec![]));
    assert_eq!(stream.write(b"x"), WriteStep::Ready(1));
}

#[test]
fn a_shutdown_waits_for_what_came_in() {
    let ((_a, mut event_loop, mut stream), _c) = linked();
    assert_eq!(arrive(&mut event_loop, LINK, vec![1]), Ok(()));
    assert!(!stream.received.is_closed());
    assert_eq!(stream.shutdown(), ShutdownStep::Pending);
    assert!(stream.received.is_closed());
    assert!(arrive(&mut event_loop, LINK, vec![2]).is_err());
    assert_eq!(read(&mut stream, 8), Some(vec![1]));
    assert_eq!(stream.shutdown(), ShutdownStep::Ready);
    assert_eq!(read(&mut stream, 8), Some(vec![]));
}

#[test]
fn the_signing_key_is_the_second_half() {
    let mut keys = [0; 64];
    for i in 0..64 {
        keys[i] = i as u8;
    }
    let key = signing_key(&keys);
    assert_eq!(key.as_slice(), &keys[32..64]);
    assert_eq!((key[0], key[31]), (32, 63));
}

#[test]
fn an_answer_is_followed_by_what_was_asked_for() {
    let (_instance, mut event_loop) = start();
    let close = Afterwards::Close { handle: 5 };
    assert!(matches!(
        event_loop.context.replied(close, true),
        Step::CloseLink { handle: 5 }
    ));
    let report = Afterwards::Report { undelivered: Error::StreamUndelivered };
    assert_eq!(done(event_loop.context.replied(report, true)), Ok(()));
}
