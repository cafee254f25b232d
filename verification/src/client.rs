//! The client that keeps the announced destinations and connects to them over links.

use crate::channel::{byte_channel, close, outbox_channel, Attempt, Outbox};
use crate::channel::{inbox_closed, inbox_limit, inbox_of};
use crate::error::Error;
use crate::ids::{DestinationHash, LinkId};
use crate::stream::{copied, fits, write_step, write_step_of};
use crate::stream::{ReadStep, Received, ShutdownStep, WriteStep};
use std::collections::BTreeMap;
use tokio::sync::mpsc::{Receiver, Sender};
use vstd::prelude::*;

verus! {

broadcast use {vstd::laws_cmp::group_laws_cmp, vstd::std_specs::btree::group_btree_axioms};

/// How many pieces of data may wait in each direction of a client's stream.
pub const CLIENT_CAPACITY: usize = 1000;

/// What was announced of destinations, the latest announcement of each.
pub struct Descriptions<D> {
    map: BTreeMap<u128, D>,
}

impl<D> View for Descriptions<D> {
    type V = Map<u128, D>;

    closed spec fn view(&self) -> Map<u128, D> {
        self.map@
    }
}

/// What looking a destination up comes to: what was announced of it, or that nothing was.
pub open spec fn found<D>(known: Map<u128, D>, address: DestinationHash) -> Result<D, Error> {
    if known.contains_key(address.id) {
        Ok(known[address.id])
    } else {
        Err(Error::NotAnnounced)
    }
}

impl<D> Descriptions<D> {
    pub fn new() -> (r: Self)
        ensures
            r@ == Map::<u128, D>::empty(),
    {
        Descriptions { map: BTreeMap::new() }
    }

    /// A destination was announced.
    pub fn announced(&mut self, address: DestinationHash, description: D)
        ensures
            final(self)@ == old(self)@.insert(address.id, description),
    {
        self.map.insert(address.id, description);
    }

    /// What was announced of a destination.
    pub fn find(&self, address: DestinationHash) -> (r: Result<&D, Error>)
        ensures
            match r {
                Ok(description) => found(self@, address) == Ok::<D, Error>(*description),
                Err(error) => found(self@, address) == Err::<D, Error>(error),
            },
    {
        match self.map.get(&address.id) {
            Some(description) => Ok(description),
            None => Err(Error::NotAnnounced),
        }
    }
}

/// The two directions of a client's connection.
pub struct ClientStream {
    pub to_send_sender: Outbox<Vec<u8>>,
    pub received_receiver: Receiver<Vec<u8>>,
}

/// What a link tells of itself.
pub enum LinkEvent {
    Activated,
    Data(Vec<u8>),
    Closed,
    Proof,
}

/// What waiting for the events of links gave.
pub enum LinkSource {
    Event { id: LinkId, event: LinkEvent },
    /// So many events were missed.
    Lagged(u64),
    Ended,
}

/// What is to be done next with the events of links.
pub enum ReceiveStep {
    /// Pass data to a stream, and go on whether it takes them or not.
    Deliver { inbox: Sender<Vec<u8>>, data: Vec<u8> },
    /// Go on.
    Continue,
    /// Be done.
    Stop,
}

/// What is to be done with data that were written to a client's stream.
pub enum SendStep {
    /// Send them on the link, as one packet.
    Send { link: LinkId, data: Vec<u8> },
    /// Drop them: the link is gone.
    Skip,
}

/// What is to be done with data that were written to the stream of a link; `found` says
/// whether the link is still there.
pub open spec fn sending(link: LinkId, found: bool, data: Vec<u8>) -> SendStep {
    if found {
        SendStep::Send { link, data }
    } else {
        SendStep::Skip
    }
}

/// What is to be done with data that were written to the stream of a link; `found` says
/// whether the link is still there.
pub fn send_step(link: LinkId, found: bool, data: Vec<u8>) -> (r: SendStep)
    ensures
        r == sending(link, found, data),
{
    if found {
        SendStep::Send { link, data }
    } else {
        SendStep::Skip
    }
}

/// The ways into the streams of a client.
pub struct Inboxes {
    map: BTreeMap<u128, Sender<Vec<u8>>>,
}

impl View for Inboxes {
    type V = Map<u128, Sender<Vec<u8>>>;

    closed spec fn view(&self) -> Map<u128, Sender<Vec<u8>>> {
        self.map@
    }
}

/// What is to be done with what the links gave: data go to the stream that stands under the
/// id of their link, missed events are passed over, and the end is the end.
pub open spec fn receive_step(
    inboxes: Map<u128, Sender<Vec<u8>>>,
    source: LinkSource,
) -> ReceiveStep {
    match source {
        LinkSource::Event { id, event: LinkEvent::Data(data) } => if inboxes.contains_key(id.id) {
            ReceiveStep::Deliver { inbox: inboxes[id.id], data }
        } else {
            ReceiveStep::Continue
        },
        LinkSource::Ended => ReceiveStep::Stop,
        _ => ReceiveStep::Continue,
    }
}

impl Inboxes {
    pub fn new() -> (r: Self)
        ensures
            r@ == Map::<u128, Sender<Vec<u8>>>::empty(),
    {
        Inboxes { map: BTreeMap::new() }
    }

    /// A stream to a destination, whose inbox stands under the address of the destination;
    /// and where what is written to the stream comes out.
    pub fn open(&mut self, destination: DestinationHash) -> (r: (ClientStream, Receiver<Vec<u8>>))
        ensures
            final(self)@ == old(self)@.insert(
                destination.id,
                inbox_of(r.0.received_receiver),
            ),
            inbox_limit(r.0.received_receiver) == CLIENT_CAPACITY,
            !inbox_closed(r.0.received_receiver),
            r.0.to_send_sender.sender() == inbox_of(r.1),
            r.0.record() == Seq::<Attempt<Vec<u8>>>::empty(),
            inbox_limit(r.1) == CLIENT_CAPACITY,
            !inbox_closed(r.1),
    {
        let (to_send_sender, to_send_receiver) = outbox_channel(CLIENT_CAPACITY);
        let (received_sender, received_receiver) = byte_channel(CLIENT_CAPACITY);
        self.map.insert(destination.id, received_sender);
        (ClientStream { to_send_sender, received_receiver }, to_send_receiver)
    }

    /// What is to be done with what the links gave.
    pub fn receive(&self, source: LinkSource) -> (r: ReceiveStep)
        ensures
            r == receive_step(self@, source),
    {
        match source {
            LinkSource::Event { id, event: LinkEvent::Data(data) } => {
                match self.map.get(&id.id) {
                    Some(inbox) => ReceiveStep::Deliver { inbox: inbox.clone(), data },
                    None => ReceiveStep::Continue,
                }
            },
            LinkSource::Ended => ReceiveStep::Stop,
            _ => ReceiveStep::Continue,
        }
    }
}

/// The step of a client's read into a buffer with room for `room` bytes. It gives all of one
/// piece of data; when no more can come, the connection was aborted.
pub fn client_read_step(received: Received, room: usize) -> (r: ReadStep)
    requires
        fits(received, room as nat),
    ensures
        match received {
            Received::Data(data) => r == ReadStep::Ready(data),
            Received::Ended => r == ReadStep::Aborted,
            Received::Pending => r == ReadStep::Pending,
        },
{
    match received {
        Received::Data(data) => ReadStep::Ready(data),
        Received::Ended => ReadStep::Aborted,
        Received::Pending => ReadStep::Pending,
    }
}

/// Whether one write of these bytes to a client's stream, which came to this step, is all that
/// a record has grown by.
pub open spec fn client_wrote(
    before: Seq<Attempt<Vec<u8>>>,
    after: Seq<Attempt<Vec<u8>>>,
    bytes: Seq<u8>,
    step: WriteStep,
) -> bool {
    &&& after.len() == before.len() + 1
    &&& after.drop_last() == before
    &&& after.last().message@ == bytes
    &&& after.last().sent.back() matches Some(back) ==> back == after.last().message
    &&& step == write_step(after.last().sent, bytes.len() as usize)
}

impl ClientStream {
    /// All that was written to this stream, in order.
    pub open spec fn record(&self) -> Seq<Attempt<Vec<u8>>> {
        self.to_send_sender.record()
    }

    /// Hands bytes to the link, all or none. They were taken, or nobody takes them any more,
    /// or too much waits already.
    pub fn write(&mut self, buf: &[u8]) -> (r: WriteStep)
        ensures
            client_wrote(old(self).record(), final(self).record(), buf@, r),
            final(self).received_receiver == old(self).received_receiver,
            final(self).to_send_sender.sender() == old(self).to_send_sender.sender(),
    {
        let data = copied(buf);
        let sent = self.to_send_sender.hand_over(data);
        assert(self.record().drop_last() =~= old(self).record());
        write_step_of(&sent, buf.len())
    }

    /// Lets no more data in. The shutdown is over at once.
    pub fn shutdown(&mut self) -> (r: ShutdownStep)
        ensures
            r == ShutdownStep::Ready,
            final(self).to_send_sender == old(self).to_send_sender,
            inbox_of(final(self).received_receiver) == inbox_of(old(self).received_receiver),
            inbox_limit(final(self).received_receiver) == inbox_limit(old(self).received_receiver),
            inbox_closed(final(self).received_receiver),
    {
        close(&mut self.received_receiver);
        ShutdownStep::Ready
    }
}

} // verus!
