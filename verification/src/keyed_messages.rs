//! Senders that attach or interpret a routing key, so that one shared
//! mailbox can tell the logical origin of its messages apart, and one keyed
//! stream can be fanned out to a list of plain senders.

use vstd::prelude::*;

use crate::channels::Address;
use crate::channels::Sender;
use crate::errors::ChannelError;

verus! {

/// A sender that adds a key to messages on the fly.
///
/// Every message accepted here is forwarded to the underlying address as
/// `(key, message)`: the shared mailbox behind that address can then tell
/// this producer's messages from any other's without the producer knowing
/// about the mailbox's addressing scheme.
pub struct KeyedSender<K, M> {
    /// The fixed key stamped onto every message.
    pub key: K,
    /// The handle of the shared mailbox that expects keyed messages.
    pub address: Address<(K, M)>,
}

impl<K: Copy, M> KeyedSender<K, M> {
    /// A sender that stamps `key` onto everything sent through it.
    pub fn new_sender(key: K, address: Address<(K, M)>) -> (r: KeyedSender<K, M>)
        ensures
            r.key == key,
            r.address == address,
    {
        KeyedSender { key, address }
    }

    /// A handle of its own to the same mailbox, stamping the same key.
    ///
    /// As with [`Address::clone_handle`], the clone must also be registered
    /// with the shared mailbox.
    pub fn sender_clone(&self) -> (r: KeyedSender<K, M>)
        ensures
            r.key == self.key,
            r.sent() == Seq::<M>::empty(),
            r.address.peer_closed == self.address.peer_closed,
    {
        KeyedSender { key: self.key, address: self.address.clone_handle() }
    }
}

impl<K: Copy, M> Sender<M> for KeyedSender<K, M> {
    /// The messages accepted here, without the key this sender added.
    open spec fn sent(&self) -> Seq<M> {
        self.address.sent().map_values(|p: (K, M)| p.1)
    }

    /// Forward `(key, message)` to the shared mailbox's address.
    fn send(&mut self, message: M) -> (r: Result<(), ChannelError>)
        ensures
            r is Ok <==> !old(self).address.peer_closed,
            r is Ok ==> final(self).address.sent() == old(self).address.sent().push(
                (old(self).key, message),
            ),
            r is Err ==> *final(self) == *old(self),
            final(self).key == old(self).key,
    {
        let ghost pre = self.address.sent();
        let r = self.address.send((self.key, message));
        proof {
            if r is Ok {
                assert(self.sent() =~= pre.map_values(|p: (K, M)| p.1).push(message));
            }
        }
        r
    }

    fn sender_clone(&self) -> (r: KeyedSender<K, M>) {
        let r = KeyedSender::sender_clone(self);
        proof {
            assert(r.sent() =~= Seq::<M>::empty());
        }
        r
    }
}

/// A list of senders addressed by an index attached to each message.
///
/// This is the dual of [`KeyedSender`]: a message `(i, m)` is dispatched to
/// the sender at position `i` and to no other, and a message addressed
/// outside the list is dropped without an error. Whether such a drop should
/// fail instead is deliberately left as the caller's policy: the routing here
/// does exactly what its contract says and nothing more.
pub struct SenderVec<M, S> {
    /// The senders, addressed by their position.
    pub senders: Vec<S>,
    /// Every keyed message accepted so far, dropped ones included.
    pub accepted: Ghost<Seq<(usize, M)>>,
}

impl<M, S: Sender<M>> SenderVec<M, S> {
    /// A sender that dispatches `(i, m)` to `senders[i]`.
    pub fn new_sender(senders: Vec<S>) -> (r: SenderVec<M, S>)
        ensures
            r.senders == senders,
            r.accepted@ == Seq::<(usize, M)>::empty(),
    {
        SenderVec { senders, accepted: Ghost(Seq::empty()) }
    }

    /// Dispatch one keyed message.
    ///
    /// A message addressed in range goes to exactly the sender at that index,
    /// succeeding exactly when that sender accepts it, and every other sender
    /// is left untouched; one addressed out of range is dropped, touching
    /// nothing and reporting success.
    pub fn route(&mut self, idx_message: (usize, M)) -> (r: Result<(), ChannelError>)
        ensures
            final(self).senders@.len() == old(self).senders@.len(),
            idx_message.0 < old(self).senders@.len() ==> {
                &&& r is Ok ==> final(self).senders@[idx_message.0 as int].sent()
                    == old(self).senders@[idx_message.0 as int].sent().push(idx_message.1)
                &&& r is Err ==> final(self).senders@[idx_message.0 as int].sent()
                    == old(self).senders@[idx_message.0 as int].sent()
            },
            forall|j: int|
                0 <= j < old(self).senders@.len() && j != idx_message.0 ==> final(self).senders@[j]
                    == old(self).senders@[j],
            idx_message.0 >= old(self).senders@.len() ==> r is Ok && final(self).senders@
                == old(self).senders@,
            r is Ok ==> final(self).accepted@ == old(self).accepted@.push(idx_message),
            r is Err ==> final(self).accepted@ == old(self).accepted@,
    {
        let (idx, message) = idx_message;
        let ghost keyed = idx_message;
        if idx < self.senders.len() {
            let mut sender = self.senders.remove(idx);
            let outcome = sender.send(message);
            self.senders.insert(idx, sender);
            assert(forall|j: int|
                0 <= j < old(self).senders@.len() && j != idx ==> self.senders@[j]
                    == old(self).senders@[j]);
            if outcome.is_ok() {
                proof {
                    self.accepted = Ghost(self.accepted@.push(keyed));
                }
            }
            outcome
        } else {
            proof {
                self.accepted = Ghost(self.accepted@.push(keyed));
            }
            Ok(())
        }
    }

    /// A sender list of its own: every inner sender cloned in turn, each a
    /// fresh handle at the same position, with nothing accepted through it
    /// yet.
    #[verifier::loop_isolation(false)]
    pub fn sender_clone(&self) -> (r: SenderVec<M, S>)
        ensures
            r.senders@.len() == self.senders@.len(),
            forall|i: int|
                0 <= i < r.senders@.len() ==> (#[trigger] r.senders@[i]).sent() == Seq::<
                    M,
                >::empty(),
            r.accepted@ == Seq::<(usize, M)>::empty(),
    {
        let n = self.senders.len();
        let mut senders: Vec<S> = Vec::new();
        let mut i: usize = 0;
        while i < n
            invariant
                0 <= i <= n,
                senders@.len() == i,
                forall|j: int|
                    0 <= j < i ==> (#[trigger] senders@[j]).sent() == Seq::<M>::empty(),
            decreases n - i,
        {
            senders.push(self.senders[i].sender_clone());
            i = i + 1;
        }
        SenderVec { senders, accepted: Ghost(Seq::empty()) }
    }
}

impl<M, S: Sender<M>> Sender<(usize, M)> for SenderVec<M, S> {
    /// The keyed messages accepted so far, in order, the silently dropped
    /// out-of-range ones included.
    open spec fn sent(&self) -> Seq<(usize, M)> {
        self.accepted@
    }

    /// Dispatch, as [`route`](Self::route) does; the exact routing contract
    /// stands there.
    fn send(&mut self, message: (usize, M)) -> (r: Result<(), ChannelError>) {
        self.route(message)
    }

    fn sender_clone(&self) -> (r: SenderVec<M, S>) {
        SenderVec::sender_clone(self)
    }
}

} // verus!
