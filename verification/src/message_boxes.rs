//! The mailboxes a running actor owns: a plain in/out box, the
//! request/response shape multiplexed over a client identity, and a variant
//! that bounds how many requests may be in flight at once.

use vstd::prelude::*;
use vstd::string::StringExecFns;

use crate::channels::deliver;
use crate::channels::new_mailbox;
use crate::channels::Address;
use crate::channels::Mailbox;
use crate::channels::RecvOutcome;
use crate::channels::Sender;
use crate::errors::ChannelError;

verus! {

/// The opaque identity of a logical client multiplexed over one physical
/// channel, attached to each request so that a later response can be
/// correlated to its requester.
pub type ClientId = usize;

/// The default capacity of the channels behind a box pair.
pub const CHANNEL_CAPACITY: usize = 16;

/// The mailbox any actor consumes and produces through.
///
/// The methods mirror the two streams an actor sees: inputs taken one at a
/// time, outputs handed to the peers' boxes, plus the introspection used for
/// tracing at the actor boundary. The spec members give every box its two
/// streams and its switches, so code written against the capability alone
/// inherits the same contracts as code written against a concrete box.
pub trait MessageBox: Sized {
    /// Messages this box's actor consumes.
    type Input;

    /// Messages this box's actor produces.
    type Output;

    /// The inputs currently queued for this box, oldest first.
    spec fn inputs(&self) -> Seq<Self::Input>;

    /// Whether more inputs may still arrive: some sender handle is alive.
    spec fn input_open(&self) -> bool;

    /// The outputs this box has handed over so far, in order.
    spec fn outputs(&self) -> Seq<Self::Output>;

    /// Whether outputs are recorded: the sending half is open; a closed one
    /// discards instead.
    spec fn records_outputs(&self) -> bool;

    /// Whether a send through this box reports success.
    spec fn send_succeeds(&self) -> bool;

    /// The name of the actor this box belongs to.
    spec fn box_name(&self) -> Seq<char>;

    /// Whether tracing of this box's messages is on.
    spec fn logging(&self) -> bool;

    /// Take the next input, oldest first, without blocking: the oldest
    /// queued message, `Pending` on a lull, `Closed` once no input can ever
    /// arrive again.
    fn recv(&mut self) -> (r: RecvOutcome<Self::Input>)
        ensures
            old(self).inputs().len() > 0 ==> (r matches RecvOutcome::Message(m) && m == old(
                self,
            ).inputs()[0] && final(self).inputs() == old(self).inputs().skip(1)),
            old(self).inputs().len() == 0 && old(self).input_open() ==> r is Pending
                && final(self).inputs() == old(self).inputs(),
            old(self).inputs().len() == 0 && !old(self).input_open() ==> r is Closed
                && final(self).inputs() == old(self).inputs(),
            final(self).input_open() == old(self).input_open(),
            final(self).outputs() == old(self).outputs(),
            final(self).records_outputs() == old(self).records_outputs(),
            final(self).send_succeeds() == old(self).send_succeeds(),
            final(self).box_name() == old(self).box_name(),
            final(self).logging() == old(self).logging(),
    ;

    /// Hand one output to the peer: appended to the box's outputs while the
    /// sending half records them, discarded once it is closed, and failing
    /// exactly when nobody will ever receive it.
    fn send(&mut self, message: Self::Output) -> (r: Result<(), ChannelError>)
        ensures
            r is Ok <==> old(self).send_succeeds(),
            r is Err ==> r == Result::<(), ChannelError>::Err(ChannelError::SendError),
            (r is Ok && old(self).records_outputs()) ==> final(self).outputs() == old(
                self,
            ).outputs().push(message),
            (r is Ok && !old(self).records_outputs()) ==> final(self).outputs() == old(
                self,
            ).outputs(),
            r is Err ==> final(self).outputs() == old(self).outputs(),
            final(self).inputs() == old(self).inputs(),
            final(self).input_open() == old(self).input_open(),
            final(self).records_outputs() == old(self).records_outputs(),
            final(self).send_succeeds() == old(self).send_succeeds(),
            final(self).box_name() == old(self).box_name(),
            final(self).logging() == old(self).logging(),
    ;

    /// Turn tracing of this box's messages on or off; nothing else moves.
    fn turn_logging_on(&mut self, on: bool)
        ensures
            final(self).logging() == on,
            final(self).inputs() == old(self).inputs(),
            final(self).input_open() == old(self).input_open(),
            final(self).outputs() == old(self).outputs(),
            final(self).records_outputs() == old(self).records_outputs(),
            final(self).send_succeeds() == old(self).send_succeeds(),
            final(self).box_name() == old(self).box_name(),
    ;

    /// The name of the actor this box belongs to.
    fn name(&self) -> (r: &str)
        ensures
            r@ == self.box_name(),
    ;

    /// Whether tracing of this box's messages is on.
    fn logging_is_on(&self) -> (r: bool)
        ensures
            r == self.logging(),
    ;
}

/// The basic message box: one input mailbox, one output sender.
pub struct SimpleMessageBox<I, O> {
    /// The name of the actor this box belongs to.
    pub name: String,
    /// The receiving end this box's actor consumes.
    pub input: Mailbox<I>,
    /// The sending handle every output goes through.
    pub output: Address<O>,
    /// When `false`, outputs are silently discarded instead of sent: the
    /// sending half of the box has been closed.
    pub output_open: bool,
    /// Whether tracing of this box's messages is on.
    pub logging_is_on: bool,
}

impl<I, O> SimpleMessageBox<I, O> {
    /// The input mailbox respects its capacity.
    pub open spec fn wf(&self) -> bool {
        self.input.wf()
    }

    /// The outputs this box has handed over so far, in order.
    pub open spec fn outputs(&self) -> Seq<O> {
        self.output.sent()
    }

    /// The inputs currently queued for this box, oldest first.
    pub open spec fn inputs(&self) -> Seq<I> {
        self.input.queue@
    }

    /// Whether a send through this box reports success: it does unless the
    /// output is still open and its receiving end is gone.
    pub open spec fn send_succeeds(&self) -> bool {
        self.output_open ==> !self.output.peer_closed
    }

    /// A box over the given receiving and sending ends.
    pub fn new(name: String, input: Mailbox<I>, output: Address<O>) -> (r: SimpleMessageBox<I, O>)
        ensures
            r.name == name,
            r.input == input,
            r.output == output,
            r.output_open,
            r.logging_is_on,
    {
        SimpleMessageBox { name, input, output, output_open: true, logging_is_on: true }
    }

    /// A box along an associated, mirrored box.
    ///
    /// The two boxes swap input and output: everything the main box sends is
    /// meant to arrive as the associated box's input, and the other way
    /// round, once [`transfer`] has moved it (see
    /// [`exchange_mirrored`] for the proved round trip). The associated box
    /// is typically handed to a test or to the peer actor.
    pub fn new_channel(name: &str) -> (r: (SimpleMessageBox<O, I>, SimpleMessageBox<I, O>))
        ensures
            r.0.wf() && r.1.wf(),
            r.0.inputs() == Seq::<O>::empty(),
            r.1.inputs() == Seq::<I>::empty(),
            r.0.outputs() == Seq::<I>::empty(),
            r.1.outputs() == Seq::<O>::empty(),
            r.0.input.capacity == CHANNEL_CAPACITY,
            r.1.input.capacity == CHANNEL_CAPACITY,
            r.0.input.senders == 1,
            r.1.input.senders == 1,
            r.0.output.pending@ == Seq::<I>::empty(),
            r.1.output.pending@ == Seq::<O>::empty(),
            r.0.output.delivered@ == Seq::<I>::empty(),
            r.1.output.delivered@ == Seq::<O>::empty(),
            !r.0.output.peer_closed,
            !r.1.output.peer_closed,
            r.0.output_open && r.1.output_open,
            r.1.name@ == name@,
            r.0.name@ == name@ + "-Client"@,
    {
        let (input_mailbox, input_sender) = new_mailbox::<I>(CHANNEL_CAPACITY);
        let (output_mailbox, output_sender) = new_mailbox::<O>(CHANNEL_CAPACITY);
        let mut client_name = String::new();
        client_name.append(name);
        client_name.append("-Client");
        proof {
            assert(client_name@ =~= name@ + "-Client"@);
        }
        let main_box = SimpleMessageBox {
            name: name.to_owned(),
            input: input_mailbox,
            output: output_sender,
            output_open: true,
            logging_is_on: true,
        };
        let associated_box = SimpleMessageBox {
            name: client_name,
            input: output_mailbox,
            output: input_sender,
            output_open: true,
            logging_is_on: true,
        };
        (associated_box, main_box)
    }

    /// Close the sending half of this box: later outputs are discarded, and
    /// the receiving end, once told through its mailbox, sees no more
    /// messages from here.
    pub fn close_output(&mut self)
        ensures
            final(self).input == old(self).input,
            final(self).output == old(self).output,
            final(self).name == old(self).name,
            final(self).logging_is_on == old(self).logging_is_on,
            !final(self).output_open,
    {
        self.output_open = false;
    }

    /// Take the next input, oldest first, without blocking.
    pub fn recv(&mut self) -> (r: RecvOutcome<I>)
        ensures
            old(self).inputs().len() > 0 ==> (r matches RecvOutcome::Message(m) && m
                == old(self).inputs()[0]),
            old(self).inputs().len() > 0 ==> final(self).inputs() == old(self).inputs().skip(1),
            old(self).inputs().len() == 0 && old(self).input.senders > 0 ==> r is Pending
                && *final(self) == *old(self),
            old(self).input.is_closed() ==> r is Closed && *final(self) == *old(self),
            final(self).output == old(self).output,
            final(self).output_open == old(self).output_open,
            final(self).input.capacity == old(self).input.capacity,
            final(self).input.senders == old(self).input.senders,
            final(self).name == old(self).name,
            final(self).logging_is_on == old(self).logging_is_on,
    {
        self.input.recv()
    }

    /// Hand one output to the peer.
    ///
    /// Succeeds exactly when the output is closed (the message is discarded)
    /// or the peer's end is still alive (the message is appended to what this
    /// box has sent).
    pub fn send(&mut self, message: O) -> (r: Result<(), ChannelError>)
        ensures
            r is Ok <==> old(self).send_succeeds(),
            old(self).output_open && !old(self).output.peer_closed ==> {
                &&& final(self).outputs() == old(self).outputs().push(message)
                &&& final(self).output.pending@ == old(self).output.pending@.push(message)
                &&& final(self).output.delivered@ == old(self).output.delivered@
            },
            !old(self).output_open ==> *final(self) == *old(self),
            r is Err ==> r == Result::<(), ChannelError>::Err(ChannelError::SendError)
                && *final(self) == *old(self),
            final(self).input == old(self).input,
            final(self).name == old(self).name,
            final(self).output_open == old(self).output_open,
            final(self).output.peer_closed == old(self).output.peer_closed,
            final(self).logging_is_on == old(self).logging_is_on,
    {
        if self.output_open {
            let ghost pre = self.output.sent();
            let r = self.output.send(message);
            proof {
                if r is Ok {
                    assert(self.outputs() =~= pre.push(message));
                }
            }
            r
        } else {
            Ok(())
        }
    }

    /// Turn tracing of this box's messages on or off.
    pub fn turn_logging_on(&mut self, on: bool)
        ensures
            final(self).logging_is_on == on,
            final(self).input == old(self).input,
            final(self).output == old(self).output,
            final(self).output_open == old(self).output_open,
            final(self).name == old(self).name,
    {
        self.logging_is_on = on;
    }

    /// The name of the actor this box belongs to.
    pub fn name(&self) -> (r: &str)
        ensures
            r@ == self.name@,
    {
        self.name.as_str()
    }

    /// Whether tracing of this box's messages is on.
    pub fn logging_is_on(&self) -> (r: bool)
        ensures
            r == self.logging_is_on,
    {
        self.logging_is_on
    }
}

impl<I, O> MessageBox for SimpleMessageBox<I, O> {
    type Input = I;

    type Output = O;

    open spec fn inputs(&self) -> Seq<I> {
        self.input.queue@
    }

    open spec fn input_open(&self) -> bool {
        self.input.senders > 0
    }

    open spec fn outputs(&self) -> Seq<O> {
        self.output.sent()
    }

    open spec fn records_outputs(&self) -> bool {
        self.output_open
    }

    open spec fn send_succeeds(&self) -> bool {
        self.output_open ==> !self.output.peer_closed
    }

    open spec fn box_name(&self) -> Seq<char> {
        self.name@
    }

    open spec fn logging(&self) -> bool {
        self.logging_is_on
    }

    fn recv(&mut self) -> (r: RecvOutcome<I>) {
        SimpleMessageBox::recv(self)
    }

    fn send(&mut self, message: O) -> (r: Result<(), ChannelError>) {
        SimpleMessageBox::send(self, message)
    }

    fn turn_logging_on(&mut self, on: bool) {
        SimpleMessageBox::turn_logging_on(self, on)
    }

    fn name(&self) -> (r: &str) {
        SimpleMessageBox::name(self)
    }

    fn logging_is_on(&self) -> (r: bool) {
        SimpleMessageBox::logging_is_on(self)
    }
}

/// Move the messages one box has sent into the mirrored box's input mailbox,
/// oldest first, as far as that mailbox has room.
///
/// This is the executor's delivery step between two boxes produced by
/// [`SimpleMessageBox::new_channel`].
pub fn transfer<I, O>(from: &mut SimpleMessageBox<I, O>, to: &mut SimpleMessageBox<O, I>)
    requires
        old(to).wf(),
        old(to).input.senders >= 1,
    ensures
        final(to).wf(),
        ({
            let moved = vstd::math::min(
                old(from).output.pending@.len() as int,
                old(to).input.capacity - old(to).inputs().len(),
            );
            &&& final(to).inputs() == old(to).inputs() + old(from).output.pending@.take(moved)
            &&& final(from).output.pending@ == old(from).output.pending@.skip(moved)
        }),
        final(from).outputs() == old(from).outputs(),
        final(from).input == old(from).input,
        final(from).output_open == old(from).output_open,
        final(from).output.peer_closed == old(from).output.peer_closed,
        final(to).output == old(to).output,
        final(to).output_open == old(to).output_open,
        final(to).input.capacity == old(to).input.capacity,
        final(to).input.senders == old(to).input.senders,
{
    deliver(&mut from.output, &mut to.input);
}

/// Everything a mirrored pair promises, checked end to end: whatever one box
/// sends arrives as the mirrored box's input, in order, and the other way
/// round, for arbitrary message sequences that fit the channel capacity.
///
/// The function actually performs the exchange — send all of `forth`, send
/// all of `back`, deliver both directions, receive everything — and its
/// contract states that both sides receive exactly what the other sent.
pub fn exchange_mirrored<A, B>(forth: Vec<A>, back: Vec<B>) -> (r: (Vec<A>, Vec<B>))
    requires
        forth@.len() <= CHANNEL_CAPACITY,
        back@.len() <= CHANNEL_CAPACITY,
    ensures
        r.0@ == forth@,
        r.1@ == back@,
{
    let (mut client, mut main) = SimpleMessageBox::<B, A>::new_channel("mirror");
    let n_forth = forth.len();
    let n_back = back.len();

    let mut to_send_forth = forth;
    let ghost forth0 = to_send_forth@;
    let mut i: usize = 0;
    while to_send_forth.len() > 0
        invariant
            main.wf(),
            main.output_open,
            !main.output.peer_closed,
            forth0.len() <= CHANNEL_CAPACITY,
            i + to_send_forth@.len() == forth0.len(),
            to_send_forth@ == forth0.skip(i as int),
            main.output.pending@ == forth0.take(i as int),
            main.output.delivered@ == Seq::<A>::empty(),
            main.wf(),
            main.inputs() == Seq::<B>::empty(),
            main.input.capacity == CHANNEL_CAPACITY,
            main.input.senders == 1,
            client.wf(),
            client.inputs() == Seq::<A>::empty(),
            client.input.senders == 1,
            client.input.capacity == CHANNEL_CAPACITY,
            client.output.pending@ == Seq::<B>::empty(),
            client.output.delivered@ == Seq::<B>::empty(),
            client.output_open,
            !client.output.peer_closed,
        decreases to_send_forth@.len(),
    {
        let ghost i0 = i as int;
        let m = to_send_forth.remove(0);
        let outcome = main.send(m);
        assert(outcome is Ok);
        assert(to_send_forth@ =~= forth0.skip(i0 + 1));
        assert(main.output.pending@ =~= forth0.take(i0 + 1));
        i = i + 1;
    }
    assert(main.output.pending@ =~= forth0);

    let mut to_send_back = back;
    let ghost back0 = to_send_back@;
    let mut j: usize = 0;
    while to_send_back.len() > 0
        invariant
            client.wf(),
            client.output_open,
            !client.output.peer_closed,
            back0.len() <= CHANNEL_CAPACITY,
            j + to_send_back@.len() == back0.len(),
            to_send_back@ == back0.skip(j as int),
            client.output.pending@ == back0.take(j as int),
            client.output.delivered@ == Seq::<B>::empty(),
            client.inputs() == Seq::<A>::empty(),
            client.input.senders == 1,
            client.input.capacity == CHANNEL_CAPACITY,
            main.wf(),
            main.inputs() == Seq::<B>::empty(),
            main.input.senders == 1,
            main.input.capacity == CHANNEL_CAPACITY,
            main.output.pending@ == forth0,
        decreases to_send_back@.len(),
    {
        let ghost j0 = j as int;
        let m = to_send_back.remove(0);
        let outcome = client.send(m);
        assert(outcome is Ok);
        assert(to_send_back@ =~= back0.skip(j0 + 1));
        assert(client.output.pending@ =~= back0.take(j0 + 1));
        j = j + 1;
    }
    assert(client.output.pending@ =~= back0);

    transfer(&mut main, &mut client);
    assert(client.inputs() =~= forth0);
    transfer(&mut client, &mut main);
    assert(main.inputs() =~= back0);

    let mut received_forth: Vec<A> = Vec::new();
    let mut k: usize = 0;
    while k < n_forth
        invariant
            k <= n_forth,
            n_forth == forth0.len(),
            client.inputs() == forth0.skip(k as int),
            received_forth@ == forth0.take(k as int),
            client.input.capacity == CHANNEL_CAPACITY,
            client.input.senders == 1,
            main.wf(),
            main.inputs() == back0,
            main.input.senders == 1,
        decreases n_forth - k,
    {
        let ghost k0 = k as int;
        let outcome = client.recv();
        match outcome {
            RecvOutcome::Message(m) => {
                received_forth.push(m);
            },
            _ => {
                proof {
                    assert(false);
                }
            },
        }
        assert(received_forth@ =~= forth0.take(k0 + 1));
        assert(client.inputs() =~= forth0.skip(k0 + 1));
        k = k + 1;
    }
    assert(received_forth@ =~= forth0);

    let mut received_back: Vec<B> = Vec::new();
    let mut l: usize = 0;
    while l < n_back
        invariant
            l <= n_back,
            n_back == back0.len(),
            main.inputs() == back0.skip(l as int),
            received_back@ == back0.take(l as int),
            main.input.senders == 1,
        decreases n_back - l,
    {
        let ghost l0 = l as int;
        let outcome = main.recv();
        match outcome {
            RecvOutcome::Message(m) => {
                received_back.push(m);
            },
            _ => {
                proof {
                    assert(false);
                }
            },
        }
        assert(received_back@ =~= back0.take(l0 + 1));
        assert(main.inputs() =~= back0.skip(l0 + 1));
        l = l + 1;
    }
    assert(received_back@ =~= back0);

    (received_forth, received_back)
}

/// The mirrored pair's promise for arbitrary sequences, with no length
/// bound: messages sent on one box's output and delivered one by one arrive
/// as the peer's input in send order, each exactly once, in both directions.
///
/// Where [`exchange_mirrored`] proves the round trip for one burst within
/// the channel capacity, this function relays each message as it is sent, so
/// the sequences may be of any length.
#[verifier::loop_isolation(false)]
pub fn relay_mirrored<A, B>(forth: Vec<A>, back: Vec<B>) -> (r: (Vec<A>, Vec<B>))
    ensures
        r.0@ == forth@,
        r.1@ == back@,
{
    let (mut client, mut main) = SimpleMessageBox::<B, A>::new_channel("relay");

    let mut to_send_forth = forth;
    let ghost forth0 = to_send_forth@;
    let mut received_forth: Vec<A> = Vec::new();
    let mut taken: Ghost<int> = Ghost(0);
    while to_send_forth.len() > 0
        invariant
            0 <= taken@ <= forth0.len(),
            taken@ + to_send_forth@.len() == forth0.len(),
            to_send_forth@ == forth0.skip(taken@),
            received_forth@ == forth0.take(taken@),
            main.wf(),
            main.output_open,
            !main.output.peer_closed,
            main.output.pending@ == Seq::<A>::empty(),
            main.inputs() == Seq::<B>::empty(),
            main.input.senders == 1,
            main.input.capacity == CHANNEL_CAPACITY,
            client.wf(),
            client.inputs() == Seq::<A>::empty(),
            client.input.senders == 1,
            client.input.capacity == CHANNEL_CAPACITY,
            client.output_open,
            !client.output.peer_closed,
            client.output.pending@ == Seq::<B>::empty(),
        decreases to_send_forth@.len(),
    {
        let ghost k = taken@;
        let m = to_send_forth.remove(0);
        let outcome = main.send(m);
        assert(outcome is Ok);
        transfer(&mut main, &mut client);
        match client.recv() {
            RecvOutcome::Message(got) => {
                received_forth.push(got);
            },
            _ => {
                proof {
                    assert(false);
                }
            },
        }
        proof {
            assert(to_send_forth@ =~= forth0.skip(k + 1));
            assert(received_forth@ =~= forth0.take(k + 1));
            assert(client.inputs() =~= Seq::<A>::empty());
            assert(main.output.pending@ =~= Seq::<A>::empty());
        }
        taken = Ghost(k + 1);
    }
    proof {
        assert(received_forth@ =~= forth0);
    }

    let mut to_send_back = back;
    let ghost back0 = to_send_back@;
    let mut received_back: Vec<B> = Vec::new();
    let mut given: Ghost<int> = Ghost(0);
    while to_send_back.len() > 0
        invariant
            0 <= given@ <= back0.len(),
            given@ + to_send_back@.len() == back0.len(),
            to_send_back@ == back0.skip(given@),
            received_back@ == back0.take(given@),
            client.wf(),
            client.output_open,
            !client.output.peer_closed,
            client.output.pending@ == Seq::<B>::empty(),
            client.inputs() == Seq::<A>::empty(),
            client.input.senders == 1,
            client.input.capacity == CHANNEL_CAPACITY,
            main.wf(),
            main.inputs() == Seq::<B>::empty(),
            main.input.senders == 1,
            main.input.capacity == CHANNEL_CAPACITY,
        decreases to_send_back@.len(),
    {
        let ghost k = given@;
        let m = to_send_back.remove(0);
        let outcome = client.send(m);
        assert(outcome is Ok);
        transfer(&mut client, &mut main);
        match main.recv() {
            RecvOutcome::Message(got) => {
                received_back.push(got);
            },
            _ => {
                proof {
                    assert(false);
                }
            },
        }
        proof {
            assert(to_send_back@ =~= back0.skip(k + 1));
            assert(received_back@ =~= back0.take(k + 1));
            assert(main.inputs() =~= Seq::<B>::empty());
            assert(client.output.pending@ =~= Seq::<B>::empty());
        }
        given = Ghost(k + 1);
    }
    proof {
        assert(received_back@ =~= back0);
    }

    (received_forth, received_back)
}

/// A message box for a request/response service: every request carries the
/// identity of the client it came from, and every response carries the
/// identity of the client it goes back to.
pub type ServiceMessageBox<Request, Response> = SimpleMessageBox<
    (ClientId, Request),
    (ClientId, Response),
>;

/// A computation started for one request and not yet finished.
///
/// The value a pending computation will produce is not known here; it is
/// reported to the box through [`ConcurrentServiceMessageBox::finish_pending`]
/// once the executor observes its completion.
pub struct PendingResponse {
    /// An identifier the adapter uses to tie this entry to its running task.
    pub task: u64,
}

/// How a computation run for a request ended.
pub enum TaskOutcome<T> {
    /// The task finished and produced this value.
    Completed(T),
    /// The task panicked; it produced nothing.
    Panicked,
    /// The task was cancelled before finishing; it produced nothing.
    Cancelled,
}

/// What the concurrent box decides when asked for the next request.
pub enum NextRequest<T> {
    /// A request, still tagged with its client, for the actor to process.
    Request(T),
    /// The box is not ready for a request: a finished computation must be
    /// reported first, either because the concurrency cap is reached or
    /// because only pending computations are left.
    MustDrain,
    /// Nothing to do right now; a request or a completion may still arrive.
    Pending,
    /// No request will ever arrive again and nothing is pending.
    Closed,
}

/// A message box for services that handle requests concurrently, but never
/// more than `max_concurrency` at a time.
///
/// A new request is admitted only while the number of in-flight computations
/// is below the cap, so `pending_responses` can never outgrow it (the
/// invariant [`ConcurrentServiceMessageBox::within_bound`], which every
/// method preserves). Responses are forwarded to the clients' box as soon as
/// their completion is reported, each still tagged with the identity of the
/// client that asked — completions may come in any order, and correlation is
/// preserved per client (see [`lemma_per_client_correlation`]).
pub struct ConcurrentServiceMessageBox<Request, Response> {
    /// The cap on concurrent computations, fixed at construction.
    pub max_concurrency: usize,
    /// The box shared by all the clients of this service.
    pub clients: ServiceMessageBox<Request, Response>,
    /// The computations started and not yet finished, in admission order.
    pub pending_responses: Vec<PendingResponse>,
}

impl<Request, Response> ConcurrentServiceMessageBox<Request, Response> {
    /// At no instant are more computations in flight than the configured cap.
    pub open spec fn within_bound(&self) -> bool {
        self.pending_responses@.len() <= self.max_concurrency
    }

    /// The box is well formed: its channel is, and the cap is respected.
    pub open spec fn wf(&self) -> bool {
        self.clients.wf() && self.within_bound()
    }

    /// A concurrent box over an existing clients' box.
    pub(crate) fn new(
        max_concurrency: usize,
        clients: ServiceMessageBox<Request, Response>,
    ) -> (r: ConcurrentServiceMessageBox<Request, Response>)
        ensures
            r.max_concurrency == max_concurrency,
            r.clients == clients,
            r.pending_responses@ == Seq::<PendingResponse>::empty(),
            r.within_bound(),
    {
        ConcurrentServiceMessageBox { max_concurrency, clients, pending_responses: Vec::new() }
    }

    /// A concurrent service box alongside an associated box for a client.
    ///
    /// In practice the associated box serves tests: all requests and
    /// responses of real clients are multiplexed over it.
    pub fn new_channel(name: &str, max_concurrency: usize) -> (r: (
        SimpleMessageBox<(ClientId, Response), (ClientId, Request)>,
        ConcurrentServiceMessageBox<Request, Response>,
    ))
        ensures
            r.0.wf(),
            r.1.wf(),
            r.0.inputs() == Seq::<(ClientId, Response)>::empty(),
            r.0.output.pending@ == Seq::<(ClientId, Request)>::empty(),
            r.0.input.senders == 1,
            r.0.input.capacity == CHANNEL_CAPACITY,
            r.0.output_open,
            !r.0.output.peer_closed,
            r.1.clients.inputs() == Seq::<(ClientId, Request)>::empty(),
            r.1.clients.outputs() == Seq::<(ClientId, Response)>::empty(),
            r.1.clients.input.senders == 1,
            r.1.clients.input.capacity == CHANNEL_CAPACITY,
            r.1.clients.output_open,
            !r.1.clients.output.peer_closed,
            r.1.max_concurrency == max_concurrency,
            r.1.pending_responses@ == Seq::<PendingResponse>::empty(),
    {
        let (clients_box, service_box) = SimpleMessageBox::<
            (ClientId, Request),
            (ClientId, Response),
        >::new_channel(name);
        let concurrent_service_box = ConcurrentServiceMessageBox::new(max_concurrency, service_box);
        (clients_box, concurrent_service_box)
    }

    /// Decide what to do next: hand out a request, wait, drain a completion,
    /// or report closure.
    ///
    /// A request is handed out only while the number of in-flight
    /// computations is strictly below the cap — this is the backpressure that
    /// keeps the bound an invariant — and closure is reported only once the
    /// clients' channel is closed and nothing is pending.
    pub fn next_request(&mut self) -> (r: NextRequest<(ClientId, Request)>)
        requires
            old(self).wf(),
        ensures
            final(self).wf(),
            final(self).max_concurrency == old(self).max_concurrency,
            final(self).pending_responses == old(self).pending_responses,
            final(self).clients.output == old(self).clients.output,
            old(self).pending_responses@.len() >= old(self).max_concurrency ==> r is MustDrain
                && *final(self) == *old(self),
            old(self).pending_responses@.len() < old(self).max_concurrency ==> {
                &&& old(self).clients.inputs().len() > 0 ==> (r matches NextRequest::Request(m)
                    && m == old(self).clients.inputs()[0] && final(self).clients.inputs()
                    == old(self).clients.inputs().skip(1))
                &&& old(self).clients.inputs().len() == 0 && old(self).clients.input.senders > 0
                    ==> r is Pending && *final(self) == *old(self)
                &&& old(self).clients.input.is_closed() ==> *final(self) == *old(self) && (if old(
                    self,
                ).pending_responses@.len() == 0 {
                    r is Closed
                } else {
                    r is MustDrain
                })
            },
    {
        if self.pending_responses.len() >= self.max_concurrency {
            return NextRequest::MustDrain;
        }
        match self.clients.recv() {
            RecvOutcome::Message(request) => NextRequest::Request(request),
            RecvOutcome::Pending => NextRequest::Pending,
            RecvOutcome::Closed => {
                if self.pending_responses.len() == 0 {
                    NextRequest::Closed
                } else {
                    NextRequest::MustDrain
                }
            },
        }
    }

    /// Register the computation started for the request just admitted.
    ///
    /// An admission happens only below the cap, so registering its
    /// computation keeps the bound.
    pub fn send_response_once_done(&mut self, pending_result: PendingResponse)
        requires
            old(self).wf(),
            old(self).pending_responses@.len() < old(self).max_concurrency,
        ensures
            final(self).wf(),
            final(self).pending_responses@ == old(self).pending_responses@.push(pending_result),
            final(self).clients == old(self).clients,
            final(self).max_concurrency == old(self).max_concurrency,
    {
        self.pending_responses.push(pending_result);
    }

    /// Report that the in-flight computation at `index` has finished, in
    /// whatever order completions happen to come.
    ///
    /// A completed computation's response is forwarded to the clients' box at
    /// once, still tagged with the identity of the client that asked; a
    /// panicked or cancelled one, or a response nobody can receive anymore,
    /// is dropped. Either way the computation leaves the in-flight set, so
    /// the bound can only tighten.
    pub fn finish_pending(
        &mut self,
        index: usize,
        outcome: TaskOutcome<(ClientId, Response)>,
    )
        requires
            old(self).wf(),
            index < old(self).pending_responses@.len(),
        ensures
            final(self).wf(),
            final(self).pending_responses@ == old(self).pending_responses@.remove(index as int),
            final(self).pending_responses@.len() == old(self).pending_responses@.len() - 1,
            final(self).max_concurrency == old(self).max_concurrency,
            final(self).clients.input == old(self).clients.input,
            outcome matches TaskOutcome::Completed(v) ==> ((old(self).clients.output_open && !old(
                self,
            ).clients.output.peer_closed) ==> final(self).clients.outputs() == old(
                self,
            ).clients.outputs().push(v)),
            (outcome matches TaskOutcome::Completed(_) && !(old(self).clients.output_open && !old(
                self,
            ).clients.output.peer_closed)) ==> final(self).clients == old(self).clients,
            (match outcome {
                TaskOutcome::Completed(_) => false,
                _ => true,
            }) ==> final(self).clients == old(self).clients,
    {
        self.pending_responses.remove(index);
        match outcome {
            TaskOutcome::Completed(response) => {
                let _ = self.clients.send(response);
            },
            TaskOutcome::Panicked => {},
            TaskOutcome::Cancelled => {},
        }
    }

    /// Make room for one more computation where the cap demands it.
    ///
    /// With the in-flight set at the cap (and not empty), exactly one
    /// computation — the reported one, standing at the front of the
    /// admission-ordered set — leaves it, its response forwarded to the
    /// clients' box as [`finish_pending`](Self::finish_pending) does, and the
    /// length decreases by one. Below the cap nothing is consumed and nothing
    /// changes. The adapter passes the completion it awaited whenever the set
    /// is at the cap; to report a completion at a known other position, use
    /// `finish_pending` directly.
    pub fn await_idle_processor(
        &mut self,
        completion: Option<TaskOutcome<(ClientId, Response)>>,
    ) -> (drained: bool)
        requires
            old(self).wf(),
            (old(self).pending_responses@.len() >= old(self).max_concurrency && old(
                self,
            ).pending_responses@.len() > 0) ==> completion is Some,
        ensures
            final(self).wf(),
            drained == (old(self).pending_responses@.len() >= old(self).max_concurrency && old(
                self,
            ).pending_responses@.len() > 0),
            !drained ==> *final(self) == *old(self),
            drained ==> {
                &&& final(self).pending_responses@ == old(self).pending_responses@.skip(1)
                &&& final(self).pending_responses@.len() == old(self).pending_responses@.len() - 1
                &&& final(self).max_concurrency == old(self).max_concurrency
                &&& final(self).clients.input == old(self).clients.input
                &&& completion matches Some(TaskOutcome::Completed(v)) ==> ((old(
                    self,
                ).clients.output_open && !old(self).clients.output.peer_closed)
                    ==> final(self).clients.outputs() == old(self).clients.outputs().push(v))
                &&& (match completion {
                    Some(TaskOutcome::Completed(_)) => false,
                    _ => true,
                }) ==> final(self).clients == old(self).clients
                &&& (completion matches Some(TaskOutcome::Completed(_)) && !(old(
                    self,
                ).clients.output_open && !old(self).clients.output.peer_closed))
                    ==> final(self).clients == old(self).clients
            },
    {
        if self.pending_responses.len() >= self.max_concurrency && self.pending_responses.len()
            > 0 {
            match completion {
                Some(outcome) => {
                    self.finish_pending(0, outcome);
                    proof {
                        assert(self.pending_responses@ =~= old(self).pending_responses@.skip(1));
                    }
                    true
                },
                None => {
                    proof {
                        assert(false);
                    }
                    false
                },
            }
        } else {
            false
        }
    }
}

/// The responses delivered to one client: those tagged with its identity, in
/// delivery order, with the tags stripped.
pub open spec fn responses_for<R>(sent: Seq<(ClientId, R)>, client: ClientId) -> Seq<R>
    decreases sent.len(),
{
    if sent.len() == 0 {
        Seq::empty()
    } else {
        let rest = responses_for(sent.drop_last(), client);
        if sent.last().0 == client {
            rest.push(sent.last().1)
        } else {
            rest
        }
    }
}

/// Per-client correlation: forwarding a response tagged for one client
/// appends it to that client's stream of responses and leaves every other
/// client's stream exactly as it was — whatever order completions arrive in,
/// a client receives precisely the responses correlated to its own requests.
pub proof fn lemma_per_client_correlation<R>(
    sent: Seq<(ClientId, R)>,
    client: ClientId,
    response: R,
    other: ClientId,
)
    requires
        other != client,
    ensures
        responses_for(sent.push((client, response)), client) == responses_for(
            sent,
            client,
        ).push(response),
        responses_for(sent.push((client, response)), other) == responses_for(sent, other),
{
    let pushed = sent.push((client, response));
    assert(pushed.drop_last() =~= sent);
    assert(pushed.last() == (client, response));
}

} // verus!
