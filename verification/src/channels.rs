//! Bounded, ordered channels between one exclusively owned receiving end (a
//! [`Mailbox`]) and any number of cloned sending handles (an [`Address`]).
//!
//! The two ends are plain state machines. A suspending operation of the real
//! system shows up here as an explicit outcome: a `recv` on an empty but open
//! mailbox reports [`RecvOutcome::Pending`] instead of blocking, and a message
//! handed to an `Address` waits in that handle's buffer until [`deliver`]
//! moves it into the peer's mailbox. An unverified adapter is expected to loop
//! on these outcomes; every decision about the channel's contents is made
//! here, under contract.

use vstd::prelude::*;

use crate::errors::ChannelError;

verus! {

/// What one attempt to receive observed.
///
/// `Closed` is the sole termination signal of a receive loop: it is returned
/// exactly when no message is queued and every sender handle has been
/// dropped, and from then on it is returned forever (see
/// [`lemma_closure_is_terminal`]).
pub enum RecvOutcome<M> {
    /// The oldest queued message.
    Message(M),
    /// Nothing is queued yet, but a sender is still alive: the caller should
    /// suspend and retry once a message may have arrived.
    Pending,
    /// Nothing is queued and every sender handle has been dropped: no message
    /// will ever arrive again.
    Closed,
}

/// The state of a mailbox, as the specifications see it.
pub struct MailboxModel<M> {
    /// Queued messages, oldest first.
    pub queue: Seq<M>,
    /// Fixed capacity of the queue.
    pub capacity: nat,
    /// Number of sender handles still alive.
    pub senders: nat,
}

impl<M> MailboxModel<M> {
    /// No message is queued and every sender handle has been dropped: the
    /// channel can never produce a message again.
    pub open spec fn is_closed(self) -> bool {
        self.senders == 0 && self.queue.len() == 0
    }
}

/// The receiving end of a bounded channel, owned by exactly one consumer.
///
/// The mailbox tracks how many sender handles are still alive: handles are
/// registered with [`Mailbox::sender_cloned`] and unregistered with
/// [`Mailbox::sender_dropped`], and a message can only be accepted while at
/// least one handle is alive.
pub struct Mailbox<M> {
    /// Queued messages, oldest first.
    pub queue: Vec<M>,
    /// Fixed capacity of the queue, chosen at construction.
    pub capacity: usize,
    /// Number of sender handles still alive.
    pub senders: usize,
}

impl<M> Mailbox<M> {
    /// The state of this mailbox, for use in specifications.
    pub open spec fn model(&self) -> MailboxModel<M> {
        MailboxModel { queue: self.queue@, capacity: self.capacity as nat, senders: self.senders as nat }
    }

    /// The queue respects the capacity chosen at construction.
    pub open spec fn wf(&self) -> bool {
        &&& self.capacity >= 1
        &&& self.queue@.len() <= self.capacity
    }

    /// No message is queued and every sender handle has been dropped.
    pub open spec fn is_closed(&self) -> bool {
        self.model().is_closed()
    }

    /// Take the next message, oldest first.
    ///
    /// Never blocks: an empty mailbox reports `Pending` while a sender is
    /// alive and `Closed` once none is. A closed mailbox is left exactly as
    /// it was, so closure can never be followed by a stale message.
    pub fn recv(&mut self) -> (r: RecvOutcome<M>)
        ensures
            final(self).model() == mailbox_step(old(self).model(), MailboxStep::Recv),
            old(self).queue@.len() > 0 ==> (r matches RecvOutcome::Message(m) && m == old(self).queue@[0]),
            old(self).queue@.len() == 0 && old(self).senders > 0 ==> r is Pending && *final(self)
                == *old(self),
            old(self).is_closed() ==> r is Closed && *final(self) == *old(self),
            final(self).capacity == old(self).capacity,
            final(self).senders == old(self).senders,
    {
        if self.queue.len() > 0 {
            let m = self.queue.remove(0);
            assert(self.queue@ =~= old(self).queue@.skip(1));
            RecvOutcome::Message(m)
        } else if self.senders > 0 {
            RecvOutcome::Pending
        } else {
            RecvOutcome::Closed
        }
    }

    /// Accept a message from a live sender, if there is room for it.
    ///
    /// Returns whether the message was queued; a full mailbox refuses it and
    /// is left unchanged (the sender keeps the message and must try again).
    pub fn accept(&mut self, message: M) -> (accepted: bool)
        requires
            old(self).wf(),
            old(self).senders >= 1,
        ensures
            final(self).wf(),
            final(self).model() == mailbox_step(old(self).model(), MailboxStep::Accept(message)),
            accepted == (old(self).queue@.len() < old(self).capacity),
            accepted ==> final(self).queue@ == old(self).queue@.push(message),
            !accepted ==> final(self).queue@ == old(self).queue@,
            final(self).capacity == old(self).capacity,
            final(self).senders == old(self).senders,
    {
        if self.queue.len() < self.capacity {
            self.queue.push(message);
            true
        } else {
            false
        }
    }

    /// Record that a sender handle of this mailbox has been cloned.
    ///
    /// Only an existing live handle can be cloned, so a closed channel stays
    /// closed.
    pub fn sender_cloned(&mut self)
        requires
            old(self).senders >= 1,
            old(self).senders < usize::MAX,
        ensures
            final(self).model() == mailbox_step(old(self).model(), MailboxStep::SenderCloned::<M>),
            final(self).queue@ == old(self).queue@,
            final(self).capacity == old(self).capacity,
            final(self).senders == old(self).senders + 1,
    {
        self.senders = self.senders + 1;
    }

    /// Record that one sender handle of this mailbox has been dropped.
    ///
    /// Once the count reaches zero the mailbox drains what is queued and then
    /// reports closure forever.
    pub fn sender_dropped(&mut self)
        requires
            old(self).senders >= 1,
        ensures
            final(self).model() == mailbox_step(old(self).model(), MailboxStep::SenderDropped::<M>),
            final(self).queue@ == old(self).queue@,
            final(self).capacity == old(self).capacity,
            final(self).senders == old(self).senders - 1,
    {
        self.senders = self.senders - 1;
    }
}

/// Create a bounded channel: a mailbox and its first sender handle.
pub fn new_mailbox<M>(capacity: usize) -> (r: (Mailbox<M>, Address<M>))
    requires
        capacity >= 1,
    ensures
        r.0.wf(),
        r.0.queue@ == Seq::<M>::empty(),
        r.0.capacity == capacity,
        r.0.senders == 1,
        r.1.sent() == Seq::<M>::empty(),
        r.1.pending@ == Seq::<M>::empty(),
        r.1.delivered@ == Seq::<M>::empty(),
        !r.1.peer_closed,
{
    let mailbox = Mailbox { queue: Vec::new(), capacity, senders: 1 };
    let address = Address { pending: Vec::new(), delivered: Ghost(Seq::empty()), peer_closed: false };
    (mailbox, address)
}

/// The capability to send one message, possibly failing because nobody will
/// ever receive it.
///
/// `sent()` is the sequence of messages this handle has accepted so far, in
/// order; a successful `send` appends exactly the given message, and a failed
/// one accepts nothing. `sender_clone` duplicates the capability: a fresh
/// handle of the same kind, aimed the same way, with nothing accepted through
/// it yet. Together they stand in for the type-erased sender capability of
/// the earlier design.
pub trait Sender<M>: Sized {
    /// The messages accepted by this handle so far, in order.
    spec fn sent(&self) -> Seq<M>;

    /// Hand one message to this sender.
    fn send(&mut self, message: M) -> (r: Result<(), ChannelError>)
        ensures
            r is Ok ==> final(self).sent() == old(self).sent().push(message),
            r is Err ==> final(self).sent() == old(self).sent(),
    ;

    /// A handle of its own with the same destination, with nothing accepted
    /// through it yet.
    ///
    /// As with [`Address::clone_handle`], a clone aimed at a mailbox must
    /// also be registered there, so that closure tracking stays exact.
    fn sender_clone(&self) -> (r: Self)
        ensures
            r.sent() == Seq::<M>::empty(),
    ;
}

/// A sending handle of a bounded channel.
///
/// Messages accepted by the handle wait in its own buffer, in send order,
/// until [`deliver`] moves them into the peer mailbox; this keeps each
/// producer's messages ordered while promising nothing across producers.
pub struct Address<M> {
    /// Messages accepted but not yet moved into the peer mailbox.
    pub pending: Vec<M>,
    /// Messages already moved into the peer mailbox, oldest first.
    pub delivered: Ghost<Seq<M>>,
    /// Whether the receiving end is known to be gone; a send then fails.
    pub peer_closed: bool,
}

impl<M> Address<M> {
    /// A fresh handle to the same mailbox, with an empty buffer of its own.
    ///
    /// The caller must also register the clone with the mailbox through
    /// [`Mailbox::sender_cloned`], so that closure tracking stays exact.
    pub fn clone_handle(&self) -> (r: Address<M>)
        ensures
            r.sent() == Seq::<M>::empty(),
            r.pending@ == Seq::<M>::empty(),
            r.peer_closed == self.peer_closed,
    {
        Address { pending: Vec::new(), delivered: Ghost(Seq::empty()), peer_closed: self.peer_closed }
    }

    /// Record that the receiving end has been dropped: every later send fails.
    pub fn mark_peer_closed(&mut self)
        ensures
            final(self).pending@ == old(self).pending@,
            final(self).delivered@ == old(self).delivered@,
            final(self).sent() == old(self).sent(),
            final(self).peer_closed,
    {
        self.peer_closed = true;
    }
}

impl<M> Sender<M> for Address<M> {
    open spec fn sent(&self) -> Seq<M> {
        self.delivered@ + self.pending@
    }

    /// Sending over a live channel always accepts the message into this
    /// handle's buffer; over a dead one it fails and changes nothing.
    fn send(&mut self, message: M) -> (r: Result<(), ChannelError>)
        ensures
            r is Ok <==> !old(self).peer_closed,
            r is Err ==> r == Result::<(), ChannelError>::Err(ChannelError::SendError)
                && *final(self) == *old(self),
            final(self).peer_closed == old(self).peer_closed,
            final(self).delivered@ == old(self).delivered@,
            r is Ok ==> final(self).pending@ == old(self).pending@.push(message),
    {
        if self.peer_closed {
            Err(ChannelError::SendError)
        } else {
            self.pending.push(message);
            assert(self.sent() =~= old(self).sent().push(message));
            Ok(())
        }
    }

    fn sender_clone(&self) -> (r: Address<M>) {
        self.clone_handle()
    }
}

/// Move buffered messages of one sender handle into its peer mailbox, oldest
/// first, as long as the mailbox has room.
///
/// This is the delivery step that the asynchronous executor performs between
/// a suspended `send` and the matching `recv`. Delivery changes which side
/// holds each message but never the sequence a handle has sent: `sent()` is
/// unchanged, and the mailbox receives exactly the oldest buffered messages,
/// in order.
pub fn deliver<M>(from: &mut Address<M>, to: &mut Mailbox<M>)
    requires
        old(to).wf(),
        old(to).senders >= 1,
    ensures
        final(to).wf(),
        ({
            let moved = vstd::math::min(
                old(from).pending@.len() as int,
                old(to).capacity - old(to).queue@.len(),
            );
            &&& final(to).queue@ == old(to).queue@ + old(from).pending@.take(moved)
            &&& final(from).pending@ == old(from).pending@.skip(moved)
            &&& final(from).delivered@ == old(from).delivered@ + old(from).pending@.take(moved)
        }),
        final(from).sent() == old(from).sent(),
        final(from).peer_closed == old(from).peer_closed,
        final(to).capacity == old(to).capacity,
        final(to).senders == old(to).senders,
{
    let ghost pending0 = from.pending@;
    let ghost queue0 = to.queue@;
    let ghost moved = vstd::math::min(pending0.len() as int, to.capacity - queue0.len());
    let mut i: usize = 0;
    while from.pending.len() > 0 && to.queue.len() < to.capacity
        invariant
            to.wf(),
            to.capacity == old(to).capacity,
            to.senders == old(to).senders,
            from.peer_closed == old(from).peer_closed,
            from.delivered@ == old(from).delivered@,
            i <= moved,
            moved == vstd::math::min(pending0.len() as int, to.capacity - queue0.len()),
            from.pending@ == pending0.skip(i as int),
            to.queue@ == queue0 + pending0.take(i as int),
        decreases from.pending@.len(),
    {
        let ghost i0 = i as int;
        let m = from.pending.remove(0);
        to.queue.push(m);
        assert(from.pending@ =~= pending0.skip(i0 + 1));
        assert(to.queue@ =~= queue0 + pending0.take(i0 + 1));
        i = i + 1;
    }
    proof {
        assert(i == moved);
        from.delivered = Ghost(from.delivered@ + pending0.take(moved));
        assert(from.sent() =~= old(from).sent());
        assert(from.pending@ =~= pending0.skip(moved));
    }
}

/// A sender that accepts and discards every message.
///
/// Used to close an output: the messages still count as accepted by the
/// handle, but nothing will ever deliver them.
pub struct NullSender<M> {
    /// The messages accepted, and discarded, so far.
    pub swallowed: Ghost<Seq<M>>,
}

impl<M> NullSender<M> {
    /// A fresh discarding sender.
    pub fn new() -> (r: NullSender<M>)
        ensures
            r.sent() == Seq::<M>::empty(),
    {
        NullSender { swallowed: Ghost(Seq::empty()) }
    }
}

impl<M> Sender<M> for NullSender<M> {
    open spec fn sent(&self) -> Seq<M> {
        self.swallowed@
    }

    /// Accepting never fails; the message is dropped on the floor.
    fn send(&mut self, message: M) -> (r: Result<(), ChannelError>)
        ensures
            r is Ok,
    {
        proof {
            self.swallowed = Ghost(self.swallowed@.push(message));
        }
        Ok(())
    }

    fn sender_clone(&self) -> (r: NullSender<M>) {
        NullSender::new()
    }
}

/// Everything that can happen to a mailbox, as one step of its state machine.
pub enum MailboxStep<M> {
    /// A live sender hands over a message (a no-op when full or when no
    /// sender is alive).
    Accept(M),
    /// The consumer takes the oldest message (a no-op when empty).
    Recv,
    /// A live sender handle is cloned (a no-op when none is alive).
    SenderCloned,
    /// A sender handle is dropped (a no-op when none is alive).
    SenderDropped,
}

/// The transition relation of a mailbox: how each step changes its state.
///
/// The executable methods above each perform one of these steps; the relation
/// exists so that properties of every reachable state can be stated once,
/// over all operations.
pub open spec fn mailbox_step<M>(pre: MailboxModel<M>, step: MailboxStep<M>) -> MailboxModel<M> {
    match step {
        MailboxStep::Accept(m) => {
            if pre.senders >= 1 && pre.queue.len() < pre.capacity {
                MailboxModel { queue: pre.queue.push(m), ..pre }
            } else {
                pre
            }
        },
        MailboxStep::Recv => {
            if pre.queue.len() > 0 {
                MailboxModel { queue: pre.queue.skip(1), ..pre }
            } else {
                pre
            }
        },
        MailboxStep::SenderCloned => {
            if pre.senders >= 1 {
                MailboxModel { senders: pre.senders + 1, ..pre }
            } else {
                pre
            }
        },
        MailboxStep::SenderDropped => {
            if pre.senders >= 1 {
                MailboxModel { senders: (pre.senders - 1) as nat, ..pre }
            } else {
                pre
            }
        },
    }
}

/// Closure of a channel is terminal: once no message is queued and every
/// sender handle has been dropped, no step of the mailbox's state machine can
/// ever queue a message or revive a sender, so `recv` answers `Closed`
/// forever and never a stale message.
pub proof fn lemma_closure_is_terminal<M>(pre: MailboxModel<M>, step: MailboxStep<M>)
    requires
        pre.is_closed(),
    ensures
        mailbox_step(pre, step).is_closed(),
{
}

} // verus!
