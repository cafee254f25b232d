//! What holds of many writes and reads together.
//!
//! What a stream hands over is in its record. The laws speak of a channel by what waits in
//! it. They take it from tokio's documentation that messages come out in the order in which
//! they went in, that a closed channel takes no more of them, and that it ends once those in
//! it have come out.

use crate::channel::{Attempt, Sent};
use crate::client::{client_wrote, sending, SendStep};
use crate::ids::LinkId;
use crate::model::{ContextView, Step, Turn, Wakeup};
use crate::stream::{read_bytes, shutdown_step, write_step, wrote};
use crate::stream::{Received, ShutdownStep, WriteStep};
use vstd::prelude::*;

verus! {

/// The messages that went into a channel, in the order in which they were handed to it.
pub open spec fn queued<T>(attempts: Seq<Attempt<T>>) -> Seq<T>
    decreases attempts.len(),
{
    if attempts.len() == 0 {
        Seq::empty()
    } else if attempts.last().sent is Queued {
        queued(attempts.drop_last()).push(attempts.last().message)
    } else {
        queued(attempts.drop_last())
    }
}

// Writes to the streams of links.

/// A write of some bytes, and what it came to.
pub struct Write {
    pub bytes: Seq<u8>,
    pub step: WriteStep,
}

/// The bytes of the writes that were taken, write by write.
pub open spec fn taken(writes: Seq<Write>) -> Seq<Seq<u8>>
    decreases writes.len(),
{
    if writes.len() == 0 {
        Seq::empty()
    } else if writes.last().step is Ready {
        taken(writes.drop_last()).push(writes.last().bytes)
    } else {
        taken(writes.drop_last())
    }
}

/// The bytes of the messages for a link, message by message.
pub open spec fn for_link(messages: Seq<(LinkId, Vec<u8>)>, link: LinkId) -> Seq<Seq<u8>>
    decreases messages.len(),
{
    if messages.len() == 0 {
        Seq::empty()
    } else if messages.last().0 == link {
        for_link(messages.drop_last(), link).push(messages.last().1@)
    } else {
        for_link(messages.drop_last(), link)
    }
}

/// The attempts to hand over a message for a link.
pub open spec fn attempts_for(
    attempts: Seq<Attempt<(LinkId, Vec<u8>)>>,
    link: LinkId,
) -> Seq<Attempt<(LinkId, Vec<u8>)>>
    decreases attempts.len(),
{
    if attempts.len() == 0 {
        Seq::empty()
    } else if attempts.last().message.0 == link {
        attempts_for(attempts.drop_last(), link).push(attempts.last())
    } else {
        attempts_for(attempts.drop_last(), link)
    }
}

/// Whether a record went through these states, from an empty one on, by these writes to the
/// stream of a link.
pub open spec fn filled_by(
    records: Seq<Seq<Attempt<(LinkId, Vec<u8>)>>>,
    link: LinkId,
    writes: Seq<Write>,
) -> bool {
    &&& records.len() == writes.len() + 1
    &&& records[0].len() == 0
    &&& forall|i: int|
        0 <= i < writes.len() ==> wrote(
            #[trigger] records[i],
            records[i + 1],
            link,
            writes[i].bytes,
            writes[i].step,
        )
}

/// Each write makes one attempt and no more: after so many writes the record holds as many
/// attempts, all of them for the link, and those that were queued are the writes that were
/// taken.
pub proof fn law_each_write_is_one_attempt(
    records: Seq<Seq<Attempt<(LinkId, Vec<u8>)>>>,
    link: LinkId,
    writes: Seq<Write>,
)
    requires
        filled_by(records, link, writes),
    ensures
        records.last().len() == writes.len(),
        forall|i: int| 0 <= i < writes.len() ==> (#[trigger] records.last()[i]).message.0 == link,
        for_link(queued(records.last()), link) == taken(writes),
    decreases writes.len(),
{
    if writes.len() > 0 {
        let earlier = records.drop_last();
        let before = writes.drop_last();
        let last = writes.len() - 1;
        assert forall|i: int| 0 <= i < before.len() implies wrote(
            #[trigger] earlier[i],
            earlier[i + 1],
            link,
            before[i].bytes,
            before[i].step,
        ) by {
            assert(wrote(records[i], records[i + 1], link, writes[i].bytes, writes[i].step));
        }
        law_each_write_is_one_attempt(earlier, link, before);
        assert(earlier.last() == records[last]);
        let write = writes[last];
        assert(wrote(records[last], records[last + 1], link, write.bytes, write.step));
        assert forall|i: int| 0 <= i < writes.len() implies (#[trigger] records.last()[i]).message.0
            == link by {
            if i < last {
                assert(records.last().drop_last()[i] == earlier.last()[i]);
            }
        }
        let went = queued(earlier.last());
        assert(went.push(records.last().last().message).drop_last() =~= went);
    }
}

proof fn lemma_queued_for_link(attempts: Seq<Attempt<(LinkId, Vec<u8>)>>, link: LinkId)
    ensures
        for_link(queued(attempts), link) == for_link(queued(attempts_for(attempts, link)), link),
    decreases attempts.len(),
{
    if attempts.len() > 0 {
        let last = attempts.last();
        let earlier = attempts.drop_last();
        lemma_queued_for_link(earlier, link);
        let went = queued(earlier);
        let of_link = attempts_for(earlier, link);
        assert(went.push(last.message).drop_last() =~= went);
        assert(of_link.push(last).drop_last() =~= of_link);
        assert(queued(of_link).push(last.message).drop_last() =~= queued(of_link));
    }
}

proof fn lemma_for_link_of_parts(
    first: Seq<(LinkId, Vec<u8>)>,
    rest: Seq<(LinkId, Vec<u8>)>,
    link: LinkId,
)
    ensures
        for_link(first + rest, link) == for_link(first, link) + for_link(rest, link),
    decreases rest.len(),
{
    if rest.len() == 0 {
        assert(first + rest =~= first);
        assert(for_link(first, link) + for_link(rest, link) =~= for_link(first, link));
    } else {
        assert((first + rest).drop_last() =~= first + rest.drop_last());
        assert((first + rest).last() == rest.last());
        lemma_for_link_of_parts(first, rest.drop_last(), link);
        assert(for_link(first + rest, link) =~= for_link(first, link) + for_link(rest, link));
    }
}

/// The messages for a link are the writes to its stream that were taken, in their order, each
/// once, neither merged nor split, whatever other streams write meanwhile; a write that waits
/// or fails leaves no message. `went` is what all streams handed to the channel, in which
/// those for the link are what the record of its stream holds; `out` has come out of the
/// channel and `waiting` still waits in it.
pub proof fn law_writes_leave_in_order(
    records: Seq<Seq<Attempt<(LinkId, Vec<u8>)>>>,
    link: LinkId,
    writes: Seq<Write>,
    went: Seq<Attempt<(LinkId, Vec<u8>)>>,
    out: Seq<(LinkId, Vec<u8>)>,
    waiting: Seq<(LinkId, Vec<u8>)>,
)
    requires
        filled_by(records, link, writes),
        attempts_for(went, link) == records.last(),
        queued(went) == out + waiting,
    ensures
        for_link(out, link) + for_link(waiting, link) == taken(writes),
        waiting.len() == 0 ==> for_link(out, link) == taken(writes),
{
    law_each_write_is_one_attempt(records, link, writes);
    lemma_queued_for_link(went, link);
    lemma_for_link_of_parts(out, waiting, link);
    if waiting.len() == 0 {
        assert(for_link(out, link) + for_link(waiting, link) =~= for_link(out, link));
    }
}

/// Each message that comes out has the node send the same bytes on the same link.
pub proof fn law_message_leaves_as_it_is<H>(
    view: ContextView<H>,
    message: (LinkId, Vec<u8>),
    turn: Turn<H>,
)
    requires
        view.turns_to(Wakeup::ToSend(Some(message)), turn),
    ensures
        turn == Turn::Run(Step::<H>::SendResource { link_id: message.0, data: message.1 }),
{
}

// Writes to a client's stream.

/// The bytes of some messages, message by message.
pub open spec fn bytes_of(messages: Seq<Vec<u8>>) -> Seq<Seq<u8>> {
    messages.map_values(|message: Vec<u8>| message@)
}

/// Whether a record went through these states, from an empty one on, by these writes to a
/// client's stream.
pub open spec fn filled_by_client(
    records: Seq<Seq<Attempt<Vec<u8>>>>,
    writes: Seq<Write>,
) -> bool {
    &&& records.len() == writes.len() + 1
    &&& records[0].len() == 0
    &&& forall|i: int|
        0 <= i < writes.len() ==> client_wrote(
            #[trigger] records[i],
            records[i + 1],
            writes[i].bytes,
            writes[i].step,
        )
}

/// Each write to a client's stream makes one attempt and no more: after so many writes the
/// record holds as many attempts, and those that were queued are the writes that were taken.
pub proof fn law_each_client_write_is_one_attempt(
    records: Seq<Seq<Attempt<Vec<u8>>>>,
    writes: Seq<Write>,
)
    requires
        filled_by_client(records, writes),
    ensures
        records.last().len() == writes.len(),
        bytes_of(queued(records.last())) == taken(writes),
    decreases writes.len(),
{
    if writes.len() == 0 {
        assert(bytes_of(queued(records.last())) =~= taken(writes));
    } else {
        let earlier = records.drop_last();
        let before = writes.drop_last();
        let last = writes.len() - 1;
        assert forall|i: int| 0 <= i < before.len() implies client_wrote(
            #[trigger] earlier[i],
            earlier[i + 1],
            before[i].bytes,
            before[i].step,
        ) by {
            assert(client_wrote(records[i], records[i + 1], writes[i].bytes, writes[i].step));
        }
        law_each_client_write_is_one_attempt(earlier, before);
        assert(earlier.last() == records[last]);
        let write = writes[last];
        assert(client_wrote(records[last], records[last + 1], write.bytes, write.step));
        let went = queued(earlier.last());
        let message = records.last().last().message;
        assert(bytes_of(went.push(message)) =~= bytes_of(went).push(message@));
    }
}

/// What is written to a client's stream leaves on its link: what has come out of the channel
/// and what waits in it are the writes that were taken, in their order, each once, and as long
/// as the link is there each is sent on it as one packet.
pub proof fn law_client_writes_leave_in_order(
    records: Seq<Seq<Attempt<Vec<u8>>>>,
    writes: Seq<Write>,
    out: Seq<Vec<u8>>,
    waiting: Seq<Vec<u8>>,
    link: LinkId,
)
    requires
        filled_by_client(records, writes),
        queued(records.last()) == out + waiting,
    ensures
        bytes_of(out) + bytes_of(waiting) == taken(writes),
        forall|i: int|
            0 <= i < out.len() ==> sending(link, true, #[trigger] out[i]) == (SendStep::Send {
                link,
                data: out[i],
            }),
{
    law_each_client_write_is_one_attempt(records, writes);
    assert(bytes_of(out + waiting) =~= bytes_of(out) + bytes_of(waiting));
}

// What waits in a channel.

/// A channel: what waits in it, how many messages it was made for, and whether it was closed.
pub struct Queue<T> {
    pub waiting: Seq<T>,
    pub limit: nat,
    pub closed: bool,
}

impl<T> Queue<T> {
    /// Whether handing a message over comes to this: it is queued where there is room, and
    /// comes back where there is none or the channel was closed.
    pub open spec fn offers(self, message: T, sent: Sent<T>) -> bool {
        match sent {
            Sent::Queued => !self.closed && self.waiting.len() < self.limit,
            Sent::Full(back) => !self.closed && self.waiting.len() >= self.limit && back == message,
            Sent::Closed(back) => self.closed && back == message,
        }
    }

    /// The channel once it was closed. What waits goes on waiting.
    pub open spec fn close(self) -> Self {
        Queue { closed: true, ..self }
    }

    /// The channel once the message that waited longest was taken out.
    pub open spec fn after_read(self) -> Self {
        if self.waiting.len() > 0 {
            Queue { waiting: self.waiting.drop_first(), ..self }
        } else {
            self
        }
    }

    /// The channel after so many reads.
    pub open spec fn after_reads(self, n: nat) -> Self
        decreases n,
    {
        if n == 0 {
            self
        } else {
            self.after_reads((n - 1) as nat).after_read()
        }
    }
}

/// What a read finds in a channel: the message that waited longest, the end of a closed
/// channel, or nothing yet.
pub open spec fn received(queue: Queue<Vec<u8>>) -> Received {
    if queue.waiting.len() > 0 {
        Received::Data(queue.waiting[0])
    } else if queue.closed {
        Received::Ended
    } else {
        Received::Pending
    }
}

/// A write is taken whole as long as the channel was not closed and has room, and only then.
pub proof fn law_room_takes_writes<T>(queue: Queue<T>, message: T, sent: Sent<T>, len: usize)
    requires
        queue.offers(message, sent),
    ensures
        write_step(sent, len) == WriteStep::Ready(len) <==> !queue.closed && queue.waiting.len()
            < queue.limit,
        write_step(sent, len) == WriteStep::Reset <==> queue.closed,
{
}

proof fn lemma_after_reads<T>(queue: Queue<T>, n: nat)
    requires
        n <= queue.waiting.len(),
    ensures
        queue.after_reads(n) == (Queue { waiting: queue.waiting.skip(n as int), ..queue }),
    decreases n,
{
    if n == 0 {
        assert(queue.waiting.skip(0) =~= queue.waiting);
    } else {
        lemma_after_reads(queue, (n - 1) as nat);
        assert(queue.waiting.skip(n - 1).drop_first() =~= queue.waiting.skip(n as int));
    }
}

/// A shutdown is over at once where nothing waits, and only there. It lets nothing more in;
/// what waited is read in order, a piece at a time, and then comes the end of the stream, and
/// the shutdown is over.
pub proof fn law_shutdown_drains(queue: Queue<Vec<u8>>)
    ensures
        shutdown_step(queue.waiting.len() == 0) == ShutdownStep::Ready <==> queue.waiting.len()
            == 0,
        forall|i: nat|
            #![trigger queue.close().after_reads(i)]
            i < queue.waiting.len() ==> {
                &&& read_bytes(received(queue.close().after_reads(i))) == Some(
                    queue.waiting[i as int]@,
                )
                &&& shutdown_step(queue.close().after_reads(i).waiting.len() == 0)
                    == ShutdownStep::Pending
            },
        forall|i: nat, data: Vec<u8>, sent: Sent<Vec<u8>>|
            i <= queue.waiting.len() && #[trigger] queue.close().after_reads(i).offers(data, sent)
                ==> sent == Sent::Closed(data),
        ({
            let drained = queue.close().after_reads(queue.waiting.len());
            &&& read_bytes(received(drained)) == Some(Seq::<u8>::empty())
            &&& shutdown_step(drained.waiting.len() == 0) == ShutdownStep::Ready
        }),
{
    let closed = queue.close();
    assert forall|i: nat| i <= queue.waiting.len() implies #[trigger] closed.after_reads(i) == (
    Queue { waiting: queue.waiting.skip(i as int), ..closed }) by {
        lemma_after_reads(closed, i);
    }
    assert(closed.after_reads(queue.waiting.len()).waiting.len() == 0);
}

} // verus!
