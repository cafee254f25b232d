//! The client of announced destinations, and the steps of reads and writes.

use socks5_reticulum_proxy::channel::Outlet;
use socks5_reticulum_proxy::client::{
    client_read_step, send_step, Descriptions, Inboxes, LinkEvent, LinkSource, ReceiveStep,
    SendStep, CLIENT_CAPACITY,
};
use socks5_reticulum_proxy::ids::{DestinationHash, LinkId};
use socks5_reticulum_proxy::stream::{
    copied, fits_into, read_step, shutdown_step_of, Listener, ReadStep, Received, ReticulumStream,
    ShutdownStep, WriteStep, LISTENER_CAPACITY, STREAM_CAPACITY,
};

const DESTINATION: DestinationHash = DestinationHash { id: 5 };

fn data(id: u128, bytes: &[u8]) -> LinkSource {
    LinkSource::Event { id: LinkId { id }, event: LinkEvent::Data(bytes.to_vec()) }
}

#[test]
fn the_latest_announcement_is_found() {
    let mut descriptions: Descriptions<&str> = Descriptions::new();
    assert_eq!(
        descriptions.find(DESTINATION).unwrap_err().message(),
        "did not receive an announcement for that address yet"
    );
    descriptions.announced(DESTINATION, "first");
    descriptions.announced(DestinationHash { id: 6 }, "other");
    assert_eq!(descriptions.find(DESTINATION).unwrap(), &"first");
    descriptions.announced(DESTINATION, "second");
    assert_eq!(descriptions.find(DESTINATION).unwrap(), &"second");
    assert!(descriptions.find(DestinationHash { id: 7 }).is_err());
}

#[test]
fn data_go_into_the_stream_under_their_id() {
    let mut inboxes = Inboxes::new();
    let (mut stream, _outgoing) = inboxes.open(DESTINATION);
    let (mut other, _other_outgoing) = inboxes.open(DestinationHash { id: 6 });
    match inboxes.receive(data(5, b"abc")) {
        ReceiveStep::Deliver { inbox, data } => inbox.try_send(data).unwrap(),
        _ => panic!("data are delivered"),
    }
    assert_eq!(stream.received_receiver.try_recv().unwrap(), b"abc");
    assert!(other.received_receiver.try_recv().is_err());
}

#[test]
fn what_is_for_nobody_is_passed_over() {
    let mut inboxes = Inboxes::new();
    let _open = inboxes.open(DESTINATION);
    for source in [
        data(7, b"abc"),
        LinkSource::Event { id: LinkId { id: 5 }, event: LinkEvent::Activated },
        LinkSource::Event { id: LinkId { id: 5 }, event: LinkEvent::Closed },
        LinkSource::Event { id: LinkId { id: 5 }, event: LinkEvent::Proof },
        LinkSource::Lagged(3),
    ] {
        assert!(matches!(inboxes.receive(source), ReceiveStep::Continue));
    }
    assert!(matches!(inboxes.receive(LinkSource::Ended), ReceiveStep::Stop));
}

#[test]
fn a_client_writes_into_its_queue() {
    let mut inboxes = Inboxes::new();
    let (mut stream, mut outgoing) = inboxes.open(DESTINATION);
    assert_eq!(stream.write(b"hello"), WriteStep::Ready(5));
    assert_eq!(outgoing.try_recv().unwrap(), b"hello");
    for _ in 0..CLIENT_CAPACITY {
        assert_eq!(stream.write(b"x"), WriteStep::Ready(1));
    }
    assert_eq!(stream.write(b"x"), WriteStep::Pending);
    drop(outgoing);
    assert_eq!(stream.write(b"x"), WriteStep::Reset);
}

#[test]
fn what_a_client_writes_is_sent_on_its_link_in_order() {
    let link = LinkId { id: 0x77 };
    let mut inboxes = Inboxes::new();
    let (mut stream, mut outgoing) = inboxes.open(DESTINATION);
    for piece in [b"one".as_slice(), b"", b"three"] {
        assert_eq!(stream.write(piece), WriteStep::Ready(piece.len()));
    }
    for piece in [b"one".as_slice(), b"", b"three"] {
        match send_step(link, true, outgoing.try_recv().unwrap()) {
            SendStep::Send { link: on, data } => {
                assert_eq!(on, link);
                assert_eq!(data, piece);
            }
            SendStep::Skip => panic!("the link is there"),
        }
    }
    assert!(outgoing.try_recv().is_err());
}

#[test]
fn what_a_client_writes_is_dropped_where_the_link_is_gone() {
    assert!(matches!(send_step(LinkId { id: 1 }, false, vec![1]), SendStep::Skip));
}

#[test]
fn a_client_shuts_down_at_once() {
    let mut inboxes = Inboxes::new();
    let (mut stream, _outgoing) = inboxes.open(DESTINATION);
    let ReceiveStep::Deliver { inbox, data } = inboxes.receive(data(5, b"abc")) else {
        panic!("data are delivered");
    };
    inbox.try_send(data).unwrap();
    assert!(!stream.received_receiver.is_closed());
    assert_eq!(stream.shutdown(), ShutdownStep::Ready);
    assert!(stream.received_receiver.is_closed());
    assert!(inbox.try_send(vec![]).is_err());
    assert_eq!(stream.received_receiver.try_recv().unwrap(), b"abc");
}

#[test]
fn a_client_read_that_cannot_go_on_is_aborted() {
    assert!(matches!(client_read_step(Received::Ended, 0), ReadStep::Aborted));
    assert!(matches!(client_read_step(Received::Pending, 0), ReadStep::Pending));
    match client_read_step(Received::Data(vec![1, 2]), 2) {
        ReadStep::Ready(bytes) => assert_eq!(bytes, vec![1, 2]),
        _ => panic!("the read is over"),
    }
}

#[test]
fn a_read_gives_one_piece_or_the_end() {
    match read_step(Received::Data(vec![1, 2, 3]), 3) {
        ReadStep::Ready(bytes) => assert_eq!(bytes, vec![1, 2, 3]),
        _ => panic!("the read is over"),
    }
    match read_step(Received::Ended, 0) {
        ReadStep::Ready(bytes) => assert!(bytes.is_empty()),
        _ => panic!("the read is over"),
    }
    assert!(matches!(read_step(Received::Pending, 0), ReadStep::Pending));
}

#[test]
fn data_fit_into_a_buffer_that_is_as_long() {
    assert!(fits_into(&Received::Data(vec![0; 3]), 3));
    assert!(!fits_into(&Received::Data(vec![0; 3]), 2));
    assert!(fits_into(&Received::Ended, 0));
    assert!(fits_into(&Received::Pending, 0));
}

#[test]
fn a_message_carries_the_link_and_the_bytes() {
    let (mut outlet, mut sent) = Outlet::channel(1);
    let link = LinkId { id: 9 };
    let (inbox, mut stream) = ReticulumStream::open(link, &mut outlet);
    assert_eq!(stream.outgoing(b"abc"), (link, b"abc".to_vec()));
    assert_eq!(copied(&[]), Vec::<u8>::new());
    assert_eq!(stream.write(b"abc"), WriteStep::Ready(3));
    assert_eq!(stream.write(b"abc"), WriteStep::Pending);
    assert_eq!(sent.try_recv().unwrap(), (link, b"abc".to_vec()));
    assert!(sent.try_recv().is_err());
    for i in 0..STREAM_CAPACITY {
        inbox.try_send(vec![i as u8]).unwrap();
    }
    assert!(inbox.try_send(vec![]).is_err());
    assert_eq!(stream.received.try_recv().unwrap(), vec![0]);
}

#[test]
fn a_listener_holds_two_streams() {
    let (mut outlet, _sent) = Outlet::channel(1);
    let (streams, mut listener) = Listener::open();
    for id in 0..LISTENER_CAPACITY as u128 {
        streams.try_send(ReticulumStream::open(LinkId { id }, &mut outlet).1).unwrap();
    }
    assert!(streams.try_send(ReticulumStream::open(LinkId { id: 9 }, &mut outlet).1).is_err());
    assert_eq!(listener.streams.try_recv().unwrap().link, LinkId { id: 0 });
    assert_eq!(listener.streams.try_recv().unwrap().link, LinkId { id: 1 });
}

#[test]
fn a_shutdown_is_over_when_nothing_waits() {
    assert_eq!(shutdown_step_of(true), ShutdownStep::Ready);
    assert_eq!(shutdown_step_of(false), ShutdownStep::Pending);
}
