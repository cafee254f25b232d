//! What the crate relies on of tokio's channels.
//!
//! Channels join tasks, so what a call returns depends on what the task at the
//! other end has done. The contracts below state only what holds of every outcome.

use crate::ids::LinkId;
use vstd::prelude::*;

verus! {

/// The sending half of a bounded channel.
#[verifier::external_type_specification]
#[verifier::external_body]
#[verifier::reject_recursive_types(T)]
pub struct ExMpscSender<T>(tokio::sync::mpsc::Sender<T>);

/// The receiving half of a bounded channel.
#[verifier::external_type_specification]
#[verifier::external_body]
#[verifier::reject_recursive_types(T)]
pub struct ExMpscReceiver<T>(tokio::sync::mpsc::Receiver<T>);

/// The sending half of a channel for a single answer.
#[verifier::external_type_specification]
#[verifier::external_body]
#[verifier::reject_recursive_types(T)]
pub struct ExOneshotSender<T>(tokio::sync::oneshot::Sender<T>);

/// The receiving half of a channel for a single answer.
#[verifier::external_type_specification]
#[verifier::external_body]
#[verifier::reject_recursive_types(T)]
pub struct ExOneshotReceiver<T>(tokio::sync::oneshot::Receiver<T>);

/// What waiting for an answer gives when the sending half was dropped.
#[verifier::external_type_specification]
#[verifier::external_body]
pub struct ExRecvError(tokio::sync::oneshot::error::RecvError);

/// The token by which the event loop and its owner stop each other.
#[verifier::external_type_specification]
#[verifier::external_body]
pub struct ExCancellationToken(tokio_util::sync::CancellationToken);

/// `tokio::sync::mpsc::channel` panics on a capacity of zero and on one above
/// `Semaphore::MAX_PERMITS`, an eighth of the range of `usize`. Both halves are fresh, so
/// that nothing is said of either; [`made_together`] says of two halves that they came out
/// of one call.
pub assume_specification<T>[ tokio::sync::mpsc::channel::<T> ](buffer: usize) -> (r: (
    tokio::sync::mpsc::Sender<T>,
    tokio::sync::mpsc::Receiver<T>,
))
    requires
        0 < buffer <= usize::MAX / 8,
;

/// Whether two halves came out of one call of `tokio::sync::mpsc::channel`, with room for so
/// many messages: what is sent into the one comes out of the other.
pub open spec fn made_together<T>(
    capacity: usize,
    sender: tokio::sync::mpsc::Sender<T>,
    receiver: tokio::sync::mpsc::Receiver<T>,
) -> bool {
    call_ensures(tokio::sync::mpsc::channel::<T>, (capacity,), (sender, receiver))
}

/// `tokio::sync::oneshot::Sender::send` hands the value back where the receiver is gone.
/// Whether it is gone is for the other task to decide. That the receiver gets the value
/// otherwise is left unsaid.
pub assume_specification<T>[ tokio::sync::oneshot::Sender::<T>::send ](
    sender: tokio::sync::oneshot::Sender<T>,
    t: T,
) -> (r: Result<(), T>)
    ensures
        r matches Err(back) ==> back == t,
;

/// Whether a value was sent as an answer, and this came of it: it was taken, or handed back.
pub open spec fn answered<T>(
    sender: tokio::sync::oneshot::Sender<T>,
    value: T,
    sent: Result<(), T>,
) -> bool {
    call_ensures(tokio::sync::oneshot::Sender::<T>::send, (sender, value), sent)
}

/// `tokio::sync::mpsc::Sender::clone` gives a second sender into the same channel;
/// contracts do not tell the two apart.
pub assume_specification<T>[ <tokio::sync::mpsc::Sender<T> as Clone>::clone ](
    sender: &tokio::sync::mpsc::Sender<T>,
) -> (r: tokio::sync::mpsc::Sender<T>)
    ensures
        r == *sender,
;

/// The sender into the channel that a receiver of bytes belongs to.
pub uninterp spec fn inbox_of(
    received: tokio::sync::mpsc::Receiver<Vec<u8>>,
) -> tokio::sync::mpsc::Sender<Vec<u8>>;

/// How many pieces of data the channel that a receiver of bytes belongs to was made for.
pub uninterp spec fn inbox_limit(received: tokio::sync::mpsc::Receiver<Vec<u8>>) -> usize;

/// Whether a receiver of bytes was closed. Senders have no part in this: it changes only
/// through the receiver itself.
pub uninterp spec fn inbox_closed(received: tokio::sync::mpsc::Receiver<Vec<u8>>) -> bool;

/// `tokio::sync::mpsc::channel` for bytes: what is sent into the one half comes out of the
/// other, so many messages fit in, and the receiver was not closed. It panics on a capacity
/// of zero and on one above `Semaphore::MAX_PERMITS`.
#[verifier::external_body]
pub(crate) fn byte_channel(capacity: usize) -> (r: (
    tokio::sync::mpsc::Sender<Vec<u8>>,
    tokio::sync::mpsc::Receiver<Vec<u8>>,
))
    requires
        0 < capacity <= usize::MAX / 8,
    ensures
        inbox_of(r.1) == r.0,
        inbox_limit(r.1) == capacity,
        !inbox_closed(r.1),
{
    tokio::sync::mpsc::channel(capacity)
}

/// The sender into the channel that a receiver of messages for links belongs to.
pub uninterp spec fn messages_into(
    messages: tokio::sync::mpsc::Receiver<(LinkId, Vec<u8>)>,
) -> tokio::sync::mpsc::Sender<(LinkId, Vec<u8>)>;

/// How many messages the channel that a receiver of messages for links belongs to was made
/// for.
pub uninterp spec fn messages_limit(
    messages: tokio::sync::mpsc::Receiver<(LinkId, Vec<u8>)>,
) -> usize;

/// `tokio::sync::mpsc::channel` for messages that are to leave on links: what is sent into
/// the one half comes out of the other, and so many messages fit in. It panics on a capacity
/// of zero and on one above `Semaphore::MAX_PERMITS`.
#[verifier::external_body]
fn message_channel(capacity: usize) -> (r: (
    tokio::sync::mpsc::Sender<(LinkId, Vec<u8>)>,
    tokio::sync::mpsc::Receiver<(LinkId, Vec<u8>)>,
))
    requires
        0 < capacity <= usize::MAX / 8,
    ensures
        messages_into(r.1) == r.0,
        messages_limit(r.1) == capacity,
{
    tokio::sync::mpsc::channel(capacity)
}

/// `tokio::sync::mpsc::Receiver::close` closes the receiver, whether it was closed before or
/// not. The receiver goes on belonging to its channel, which was made for as many messages as
/// before. What a closed receiver means for its senders is left unsaid.
#[verifier::external_body]
pub(crate) fn close(received: &mut tokio::sync::mpsc::Receiver<Vec<u8>>)
    ensures
        inbox_of(*final(received)) == inbox_of(*old(received)),
        inbox_limit(*final(received)) == inbox_limit(*old(received)),
        inbox_closed(*final(received)),
{
    received.close()
}

/// What became of a message that was to be sent at once.
pub enum Sent<T> {
    Queued,
    Full(T),
    Closed(T),
}

impl<T> Sent<T> {
    /// The message that came back, where it was not queued.
    pub open spec fn back(self) -> Option<T> {
        match self {
            Sent::Queued => None,
            Sent::Full(message) => Some(message),
            Sent::Closed(message) => Some(message),
        }
    }
}

/// A message that was handed over, and what became of it.
pub struct Attempt<T> {
    pub message: T,
    pub sent: Sent<T>,
}

/// A way into a channel, with a record of all that was handed to it. There is no other way by
/// which the crate sends at once.
#[verifier::reject_recursive_types(T)]
pub struct Outbox<T> {
    sender: tokio::sync::mpsc::Sender<T>,
    record: Ghost<Seq<Attempt<T>>>,
}

impl<T> Outbox<T> {
    /// The sender into the channel.
    pub closed spec fn sender(&self) -> tokio::sync::mpsc::Sender<T> {
        self.sender
    }

    /// All that was handed over, in order.
    pub closed spec fn record(&self) -> Seq<Attempt<T>> {
        self.record@
    }

    /// `tokio::sync::mpsc::Sender::try_send` hands the message back where the channel is full
    /// or its receiver is gone. Which of the three holds is for the other task to decide. The
    /// record grows by this one attempt. That the receiver gets the message where it was
    /// queued is left unsaid.
    #[verifier::external_body]
    pub(crate) fn hand_over(&mut self, message: T) -> (r: Sent<T>)
        ensures
            final(self).sender() == old(self).sender(),
            final(self).record() == old(self).record().push(Attempt { message, sent: r }),
            r.back() matches Some(back) ==> back == message,
    {
        match self.sender.try_send(message) {
            Ok(()) => Sent::Queued,
            Err(tokio::sync::mpsc::error::TrySendError::Full(back)) => Sent::Full(back),
            Err(tokio::sync::mpsc::error::TrySendError::Closed(back)) => Sent::Closed(back),
        }
    }
}

/// A channel for bytes whose way in keeps a record.
pub(crate) fn outbox_channel(capacity: usize) -> (r: (
    Outbox<Vec<u8>>,
    tokio::sync::mpsc::Receiver<Vec<u8>>,
))
    requires
        0 < capacity <= usize::MAX / 8,
    ensures
        inbox_of(r.1) == r.0.sender(),
        inbox_limit(r.1) == capacity,
        !inbox_closed(r.1),
        r.0.record() == Seq::<Attempt<Vec<u8>>>::empty(),
{
    let (sender, receiver) = byte_channel(capacity);
    (Outbox { sender, record: Ghost(Seq::empty()) }, receiver)
}

/// What ways into the channel for links are opened from, with a record of the links that they
/// were opened for.
pub struct Outlet {
    sender: tokio::sync::mpsc::Sender<(LinkId, Vec<u8>)>,
    opened: Ghost<Seq<LinkId>>,
}

impl Outlet {
    /// The sender into the channel.
    pub closed spec fn sender(&self) -> tokio::sync::mpsc::Sender<(LinkId, Vec<u8>)> {
        self.sender
    }

    /// The links that a way into the channel was opened for, in order.
    pub closed spec fn opened(&self) -> Seq<LinkId> {
        self.opened@
    }

    /// An outlet and where what goes through it comes out.
    pub fn channel(capacity: usize) -> (r: (
        Self,
        tokio::sync::mpsc::Receiver<(LinkId, Vec<u8>)>,
    ))
        requires
            0 < capacity <= usize::MAX / 8,
        ensures
            messages_into(r.1) == r.0.sender(),
            messages_limit(r.1) == capacity,
            r.0.opened() == Seq::<LinkId>::empty(),
    {
        let (sender, receiver) = message_channel(capacity);
        (Outlet { sender, opened: Ghost(Seq::empty()) }, receiver)
    }

    /// A way into the channel for a link.
    pub(crate) fn open(&mut self, link: LinkId) -> (r: Outbox<(LinkId, Vec<u8>)>)
        ensures
            final(self).sender() == old(self).sender(),
            final(self).opened() == old(self).opened().push(link),
            r.sender() == old(self).sender(),
            r.record() == Seq::<Attempt<(LinkId, Vec<u8>)>>::empty(),
    {
        self.opened = Ghost(self.opened@.push(link));
        Outbox { sender: self.sender.clone(), record: Ghost(Seq::empty()) }
    }
}

/// `tokio::sync::mpsc::Receiver::is_empty`: whether messages wait depends on the senders.
pub assume_specification<T>[ tokio::sync::mpsc::Receiver::<T>::is_empty ](
    receiver: &tokio::sync::mpsc::Receiver<T>,
) -> (r: bool)
;

/// Whether a receiver was asked if nothing waits in it, and this was the answer.
pub open spec fn found_empty<T>(
    receiver: tokio::sync::mpsc::Receiver<T>,
    empty: bool,
) -> bool {
    call_ensures(tokio::sync::mpsc::Receiver::<T>::is_empty, (&receiver,), empty)
}

/// `CancellationToken::new`: a token that nobody has cancelled.
pub assume_specification[ tokio_util::sync::CancellationToken::new ]() -> (r:
    tokio_util::sync::CancellationToken)
;

/// `CancellationToken::clone` gives a second handle on the same token; contracts do not
/// tell the two apart.
pub assume_specification[ <tokio_util::sync::CancellationToken as Clone>::clone ](
    token: &tokio_util::sync::CancellationToken,
) -> (r: tokio_util::sync::CancellationToken)
    ensures
        r == *token,
;

/// A token, with a note whether it was cancelled here. There is no other way by which the
/// crate cancels a token.
pub struct Stopper {
    token: tokio_util::sync::CancellationToken,
    cancelled: Ghost<bool>,
}

impl Stopper {
    pub closed spec fn view(&self) -> tokio_util::sync::CancellationToken {
        self.token
    }

    /// Whether the token was cancelled here.
    pub closed spec fn cancelled(&self) -> bool {
        self.cancelled@
    }

    /// A fresh token.
    pub fn new() -> (r: Self)
        ensures
            !r.cancelled(),
    {
        Stopper { token: tokio_util::sync::CancellationToken::new(), cancelled: Ghost(false) }
    }

    /// A second handle on the token, for others to wait for it.
    pub fn token(&self) -> (r: tokio_util::sync::CancellationToken)
        ensures
            r == self@,
    {
        self.token.clone()
    }

    /// `CancellationToken::cancel` wakes every task that waits for the token. What that means
    /// to those tasks is left unsaid.
    #[verifier::external_body]
    pub(crate) fn cancel(&mut self)
        ensures
            final(self)@ == old(self)@,
            final(self).cancelled(),
    {
        self.token.cancel()
    }
}

} // verus!
