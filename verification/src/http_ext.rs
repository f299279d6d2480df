//! An HTTP connection managed behind the scenes by an actor, shared by
//! several clients: each client gets a keyed sender into the actor's shared
//! mailbox, and responses are routed back by the client's index.
//!
//! The transport itself is an unverified collaborator; the actor's data, its
//! wiring and its response policy live here.

use vstd::prelude::*;

use crate::actors::Actor;
use crate::channels::new_mailbox;
use crate::channels::Address;
use crate::channels::Mailbox;
use crate::channels::Sender;
use crate::errors::ChannelError;

verus! {

/// The capacity of a shared HTTP actor's mailbox.
pub const HTTP_MAILBOX_CAPACITY: usize = 10;

/// Configuration of an HTTP connection.
#[derive(Clone, Debug, Default, Eq, PartialEq, Structural)]
pub struct HttpConfig {}

/// A request handed to the HTTP actor.
#[derive(Clone, Debug, Eq, PartialEq, Structural)]
pub struct HttpRequest {}

/// A response produced by the HTTP actor.
#[derive(Clone, Debug, Eq, PartialEq, Structural)]
pub struct HttpResponse {}

/// An HTTP connection private to a single client: the actor answers every
/// request with a response for that one client.
pub struct PrivateHttpActor {}

impl PrivateHttpActor {
    /// An actor over the given connection configuration.
    pub fn new(config: HttpConfig) -> (r: PrivateHttpActor) {
        let _ = config;
        PrivateHttpActor {}
    }
}

impl Actor for PrivateHttpActor {
    type Input = HttpRequest;

    type Output = HttpResponse;

    /// Every request is answered with exactly one response.
    open spec fn reaction(&self, message: HttpRequest) -> (PrivateHttpActor, Seq<HttpResponse>) {
        (PrivateHttpActor {}, seq![HttpResponse {  }])
    }

    fn react(&mut self, message: HttpRequest) -> (out: Vec<HttpResponse>) {
        let mut out = Vec::new();
        out.push(HttpResponse {});
        assert(out@ =~= self.reaction(message).1);
        out
    }
}

/// A sender that routes a client's messages into a shared mailbox under that
/// client's index, so the shared actor knows whom to answer.
pub struct KeyedRecipient<M> {
    /// The index of the client this recipient belongs to.
    pub idx: usize,
    /// The handle of the shared mailbox that expects indexed messages.
    pub address: Address<(usize, M)>,
}

impl<M> KeyedRecipient<M> {
    /// A recipient that stamps `idx` onto everything sent through it.
    pub fn new(idx: usize, address: Address<(usize, M)>) -> (r: KeyedRecipient<M>)
        ensures
            r.idx == idx,
            r.address == address,
    {
        KeyedRecipient { idx, address }
    }

    /// A handle of its own to the same mailbox, stamping the same index.
    ///
    /// As with [`Address::clone_handle`], the clone must be registered with
    /// the shared mailbox.
    pub fn clone(&self) -> (r: KeyedRecipient<M>)
        ensures
            r.idx == self.idx,
            r.address.sent() == Seq::<(usize, M)>::empty(),
            r.address.peer_closed == self.address.peer_closed,
    {
        KeyedRecipient { idx: self.idx, address: self.address.clone_handle() }
    }
}

impl<M> Sender<M> for KeyedRecipient<M> {
    /// The messages accepted here, without the index this recipient added.
    open spec fn sent(&self) -> Seq<M> {
        self.address.sent().map_values(|p: (usize, M)| p.1)
    }

    /// Forward `(idx, message)` to the shared mailbox's address.
    fn send(&mut self, message: M) -> (r: Result<(), ChannelError>)
        ensures
            r is Ok <==> !old(self).address.peer_closed,
            r is Ok ==> final(self).address.sent() == old(self).address.sent().push(
                (old(self).idx, message),
            ),
            r is Err ==> *final(self) == *old(self),
            final(self).idx == old(self).idx,
    {
        let ghost pre = self.address.sent();
        let r = self.address.send((self.idx, message));
        proof {
            if r is Ok {
                assert(self.sent() =~= pre.map_values(|p: (usize, M)| p.1).push(message));
            }
        }
        r
    }

    fn sender_clone(&self) -> (r: KeyedRecipient<M>) {
        let r = KeyedRecipient::clone(self);
        proof {
            assert(r.sent() =~= Seq::<M>::empty());
        }
        r
    }
}

/// An HTTP connection shared by several clients.
///
/// Each registered client is answered through its own sender, and addresses
/// the shared actor through a [`KeyedRecipient`] carrying its index.
pub struct HttpActorInstance {
    /// The connection configuration the actor will use.
    pub config: HttpConfig,
    /// The shared mailbox of indexed requests.
    pub mailbox: Mailbox<(usize, HttpRequest)>,
    /// The sending end that every client's recipient is cloned from.
    pub address: Address<(usize, HttpRequest)>,
    /// The clients' response senders, indexed by client.
    pub clients: Vec<Address<HttpResponse>>,
}

impl HttpActorInstance {
    /// A shared HTTP actor instance with no clients yet.
    pub fn new(config: HttpConfig) -> (r: HttpActorInstance)
        ensures
            r.config == config,
            r.mailbox.wf(),
            r.mailbox.queue@ == Seq::<(usize, HttpRequest)>::empty(),
            r.mailbox.capacity == HTTP_MAILBOX_CAPACITY,
            r.mailbox.senders == 1,
            r.clients@ == Seq::<Address<HttpResponse>>::empty(),
            !r.address.peer_closed,
    {
        let (mailbox, address) = new_mailbox(HTTP_MAILBOX_CAPACITY);
        HttpActorInstance { config, mailbox, address, clients: Vec::new() }
    }

    /// Register one more client: its responses will go through `client`, and
    /// it addresses this actor through the returned recipient, keyed by its
    /// position in the client list.
    pub fn add_client(&mut self, client: Address<HttpResponse>) -> (r: KeyedRecipient<HttpRequest>)
        requires
            old(self).mailbox.senders >= 1,
            old(self).mailbox.senders < usize::MAX,
        ensures
            r.idx == old(self).clients@.len(),
            r.address.sent() == Seq::<(usize, HttpRequest)>::empty(),
            r.address.peer_closed == old(self).address.peer_closed,
            final(self).clients@ == old(self).clients@.push(client),
            final(self).mailbox.senders == old(self).mailbox.senders + 1,
            final(self).mailbox.queue@ == old(self).mailbox.queue@,
            final(self).address == old(self).address,
            final(self).config == old(self).config,
    {
        let client_idx = self.clients.len();
        self.clients.push(client);
        self.mailbox.sender_cloned();
        KeyedRecipient::new(client_idx, self.address.clone_handle())
    }
}

} // verus!
