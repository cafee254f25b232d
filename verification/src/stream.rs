//! Streams over links: what a read, a write and a shutdown come to.

use crate::channel::{byte_channel, close, found_empty, Attempt, Outbox, Outlet, Sent};
use crate::channel::{inbox_closed, inbox_limit, inbox_of};
use crate::ids::LinkId;
use tokio::sync::mpsc::{Receiver, Sender};
use vstd::prelude::*;

verus! {

/// How many pieces of data may wait in a stream.
pub const STREAM_CAPACITY: usize = 10;

/// How many streams may wait in a listener.
pub const LISTENER_CAPACITY: usize = 2;

/// One end of a link: what came in on it, and the way out.
pub struct ReticulumStream {
    pub received: Receiver<Vec<u8>>,
    pub to_send: Outbox<(LinkId, Vec<u8>)>,
    pub link: LinkId,
}

/// The streams of the links that others set up to one destination.
#[derive(Debug)]
pub struct Listener {
    pub streams: Receiver<ReticulumStream>,
}

/// The sender into the channel that a receiver of streams belongs to.
pub uninterp spec fn streams_into(
    streams: Receiver<ReticulumStream>,
) -> Sender<ReticulumStream>;

/// How many streams the channel that a receiver of streams belongs to was made for.
pub uninterp spec fn streams_limit(streams: Receiver<ReticulumStream>) -> usize;

/// `tokio::sync::mpsc::channel` for streams: what is sent into the one half comes out of
/// the other, and so many streams fit in. It panics on a capacity of zero and on one above
/// `Semaphore::MAX_PERMITS`.
#[verifier::external_body]
fn stream_channel(capacity: usize) -> (r: (Sender<ReticulumStream>, Receiver<ReticulumStream>))
    requires
        0 < capacity <= usize::MAX / 8,
    ensures
        streams_into(r.1) == r.0,
        streams_limit(r.1) == capacity,
{
    tokio::sync::mpsc::channel(capacity)
}

impl Listener {
    /// A listener, and the way to put streams into it.
    pub fn open() -> (r: (Sender<ReticulumStream>, Self))
        ensures
            streams_into(r.1.streams) == r.0,
            streams_limit(r.1.streams) == LISTENER_CAPACITY,
    {
        let (sender, streams) = stream_channel(LISTENER_CAPACITY);
        (sender, Listener { streams })
    }
}

/// What polling a stream's channel gave.
pub enum Received {
    Data(Vec<u8>),
    Ended,
    Pending,
}

/// What a read comes to.
pub enum ReadStep {
    /// The read is over and these bytes go into the reader's buffer.
    Ready(Vec<u8>),
    /// The read fails: the connection was aborted.
    Aborted,
    /// The reader waits.
    Pending,
}

/// What a write comes to.
#[derive(Clone, Copy, Debug, PartialEq, Eq, Structural)]
pub enum WriteStep {
    /// The write is over and took this many bytes.
    Ready(usize),
    /// The write fails: the connection was reset.
    Reset,
    /// The writer waits.
    Pending,
}

/// What a shutdown comes to.
#[derive(Clone, Copy, Debug, PartialEq, Eq, Structural)]
pub enum ShutdownStep {
    Ready,
    Pending,
}

/// Whether what was received fits into a buffer with room for so many bytes.
pub open spec fn fits(received: Received, room: nat) -> bool {
    received matches Received::Data(data) ==> data@.len() <= room
}

/// Whether what was received fits into a buffer with room for `room` bytes.
pub fn fits_into(received: &Received, room: usize) -> (r: bool)
    ensures
        r == fits(*received, room as nat),
{
    match received {
        Received::Data(data) => data.len() <= room,
        _ => true,
    }
}

/// A read gives all of one piece of data. When no more can come, it gives nothing: the end
/// of the stream.
pub open spec fn read_bytes(received: Received) -> Option<Seq<u8>> {
    match received {
        Received::Data(data) => Some(data@),
        Received::Ended => Some(Seq::empty()),
        Received::Pending => None,
    }
}

/// The step of a read into a buffer with room for `room` bytes.
pub fn read_step(received: Received, room: usize) -> (r: ReadStep)
    requires
        fits(received, room as nat),
    ensures
        r !is Aborted,
        match read_bytes(received) {
            Some(bytes) => r matches ReadStep::Ready(data) && data@ == bytes && data@.len() <= room,
            None => r is Pending,
        },
{
    match received {
        Received::Data(data) => ReadStep::Ready(data),
        Received::Ended => ReadStep::Ready(Vec::new()),
        Received::Pending => ReadStep::Pending,
    }
}

/// The step of a write of `len` bytes, by what became of them.
pub open spec fn write_step<T>(sent: Sent<T>, len: usize) -> WriteStep {
    match sent {
        Sent::Queued => WriteStep::Ready(len),
        Sent::Full(_) => WriteStep::Pending,
        Sent::Closed(_) => WriteStep::Reset,
    }
}

/// The step of a write of `len` bytes, by what became of them.
pub fn write_step_of<T>(sent: &Sent<T>, len: usize) -> (r: WriteStep)
    ensures
        r == write_step(*sent, len),
{
    match sent {
        Sent::Queued => WriteStep::Ready(len),
        Sent::Full(_) => WriteStep::Pending,
        Sent::Closed(_) => WriteStep::Reset,
    }
}

/// The step of a shutdown, by whether data still waits to be read.
pub open spec fn shutdown_step(empty: bool) -> ShutdownStep {
    if empty {
        ShutdownStep::Ready
    } else {
        ShutdownStep::Pending
    }
}

/// The step of a shutdown, by whether data still waits to be read.
pub fn shutdown_step_of(empty: bool) -> (r: ShutdownStep)
    ensures
        r == shutdown_step(empty),
{
    if empty {
        ShutdownStep::Ready
    } else {
        ShutdownStep::Pending
    }
}

/// The bytes of a slice in a vector of their own.
pub fn copied(buf: &[u8]) -> (r: Vec<u8>)
    ensures
        r@ == buf@,
{
    let mut data: Vec<u8> = Vec::new();
    let mut i: usize = 0;
    while i < buf.len()
        invariant
            i <= buf@.len(),
            data@ == buf@.take(i as int),
        decreases buf@.len() - i,
    {
        data.push(buf[i]);
        assert(buf@.take(i + 1) =~= buf@.take(i as int).push(buf@[i as int]));
        i = i + 1;
    }
    assert(buf@.take(buf@.len() as int) =~= buf@);
    data
}

/// Whether one write of these bytes to the stream of a link, which came to this step, is all
/// that a record has grown by.
pub open spec fn wrote(
    before: Seq<Attempt<(LinkId, Vec<u8>)>>,
    after: Seq<Attempt<(LinkId, Vec<u8>)>>,
    link: LinkId,
    bytes: Seq<u8>,
    step: WriteStep,
) -> bool {
    &&& after.len() == before.len() + 1
    &&& after.drop_last() == before
    &&& after.last().message.0 == link
    &&& after.last().message.1@ == bytes
    &&& after.last().sent.back() matches Some(back) ==> back == after.last().message
    &&& step == write_step(after.last().sent, bytes.len() as usize)
}

impl ReticulumStream {
    /// All that was handed to the event loop by this stream, in order.
    pub open spec fn record(&self) -> Seq<Attempt<(LinkId, Vec<u8>)>> {
        self.to_send.record()
    }

    /// A stream for a link, and the way to put data into it.
    pub fn open(link: LinkId, outlet: &mut Outlet) -> (r: (Sender<Vec<u8>>, Self))
        ensures
            final(outlet).sender() == old(outlet).sender(),
            final(outlet).opened() == old(outlet).opened().push(link),
            r.1.link == link,
            r.1.to_send.sender() == old(outlet).sender(),
            r.1.record() == Seq::<Attempt<(LinkId, Vec<u8>)>>::empty(),
            inbox_of(r.1.received) == r.0,
            inbox_limit(r.1.received) == STREAM_CAPACITY,
            !inbox_closed(r.1.received),
    {
        let (inbox, received) = byte_channel(STREAM_CAPACITY);
        (inbox, ReticulumStream { received, to_send: outlet.open(link), link })
    }

    /// The message by which bytes leave on the link.
    pub fn outgoing(&self, buf: &[u8]) -> (r: (LinkId, Vec<u8>))
        ensures
            r.0 == self.link,
            r.1@ == buf@,
    {
        (self.link, copied(buf))
    }

    /// Hands bytes to the event loop, all or none. They were taken, or the event loop is
    /// gone, or its queue is full; the event loop and the other streams decide which.
    pub fn write(&mut self, buf: &[u8]) -> (r: WriteStep)
        ensures
            wrote(old(self).record(), final(self).record(), old(self).link, buf@, r),
            final(self).link == old(self).link,
            final(self).received == old(self).received,
            final(self).to_send.sender() == old(self).to_send.sender(),
    {
        let message = self.outgoing(buf);
        let sent = self.to_send.hand_over(message);
        assert(self.record().drop_last() =~= old(self).record());
        write_step_of(&sent, buf.len())
    }

    /// Lets no more data in. The shutdown is over once all that came in was read.
    pub fn shutdown(&mut self) -> (r: ShutdownStep)
        ensures
            final(self).link == old(self).link,
            final(self).to_send == old(self).to_send,
            inbox_of(final(self).received) == inbox_of(old(self).received),
            inbox_limit(final(self).received) == inbox_limit(old(self).received),
            inbox_closed(final(self).received),
            exists|empty: bool| #[trigger]
                found_empty(final(self).received, empty) && r == shutdown_step(empty),
    {
        close(&mut self.received);
        let empty = self.received.is_empty();
        assert(found_empty(self.received, empty));
        shutdown_step_of(empty)
    }
}

} // verus!
