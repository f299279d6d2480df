//! The actor abstraction: a unit of computation that consumes its mailbox
//! message by message and hands its outputs to declared peers, run to
//! completion or until its input is exhausted.

use vstd::prelude::*;

use crate::channels::Mailbox;
use crate::channels::RecvOutcome;
use crate::channels::Sender;

verus! {

/// A unit of computation driven by its mailbox.
///
/// An actor holds its own state and reacts to one input at a time, producing
/// zero or more outputs per input; it never polls or blocks on anything but
/// its mailbox and the sender handles it was given. `reaction` is the
/// specification of that step, and `react` is bound to it, so that a whole
/// run of the actor is a function of its initial state and its inputs (see
/// [`run_actor`]).
pub trait Actor: Sized {
    /// Messages this actor consumes.
    type Input;

    /// Messages this actor produces.
    type Output;

    /// What one step does: the successor state and the outputs produced, as
    /// a function of the current state and the message.
    spec fn reaction(&self, message: Self::Input) -> (Self, Seq<Self::Output>);

    /// Process one message, updating the state and producing the outputs
    /// that `reaction` specifies.
    fn react(&mut self, message: Self::Input) -> (out: Vec<Self::Output>)
        ensures
            *final(self) == old(self).reaction(message).0,
            out@ == old(self).reaction(message).1,
    ;
}

/// The state and outputs of a whole run: the actor folded over a sequence of
/// inputs, every output in order.
pub open spec fn actor_run<A: Actor>(actor: A, inputs: Seq<A::Input>) -> (A, Seq<A::Output>)
    decreases inputs.len(),
{
    if inputs.len() == 0 {
        (actor, Seq::empty())
    } else {
        let step = actor.reaction(inputs[0]);
        let rest = actor_run(step.0, inputs.skip(1));
        (rest.0, step.1 + rest.1)
    }
}

/// How a drive of an actor over its mailbox ended.
pub enum ActorOutcome {
    /// The mailbox reported closure: the actor's work is done for good.
    Completed,
    /// The mailbox is empty but still open: the actor should be resumed once
    /// a message may have arrived.
    Waiting,
    /// A peer's channel is gone: the actor's job has become impossible.
    ChannelFailure,
}

/// Drive an actor over its mailbox until the input is exhausted or a peer
/// disappears.
///
/// Every queued message is processed in order and every produced output is
/// handed to `peers` in order: unless a send fails, the actor's final state
/// and the outputs appended to `peers` are exactly those of
/// [`actor_run`] over the queued inputs, the mailbox is drained, and the
/// outcome tells closure apart from a plain lull. If a send fails, the
/// mailbox still holds exactly the unprocessed suffix, and resuming the run
/// from the final state would reach the same final actor state as the
/// uninterrupted run.
#[verifier::loop_isolation(false)]
pub fn run_actor<A: Actor, S: Sender<A::Output>>(
    actor: &mut A,
    messages: &mut Mailbox<A::Input>,
    peers: &mut S,
) -> (r: ActorOutcome)
    ensures
        !(r is ChannelFailure) ==> {
            &&& *final(actor) == actor_run(*old(actor), old(messages).queue@).0
            &&& final(peers).sent() == old(peers).sent() + actor_run(
                *old(actor),
                old(messages).queue@,
            ).1
            &&& final(messages).queue@ == Seq::<A::Input>::empty()
            &&& (r is Completed <==> old(messages).senders == 0)
        },
        r is ChannelFailure ==> {
            &&& actor_run(*final(actor), final(messages).queue@).0 == actor_run(
                *old(actor),
                old(messages).queue@,
            ).0
            &&& final(peers).sent().is_prefix_of(
                old(peers).sent() + actor_run(*old(actor), old(messages).queue@).1,
            )
            &&& exists|k: int|
                0 <= k <= old(messages).queue@.len() && final(messages).queue@ == old(
                    messages,
                ).queue@.skip(k)
        },
        final(messages).capacity == old(messages).capacity,
        final(messages).senders == old(messages).senders,
{
    let ghost inputs0 = messages.queue@;
    let mut processed: Ghost<int> = Ghost(0);
    loop
        invariant
            0 <= processed@ <= inputs0.len(),
            messages.queue@ == inputs0.skip(processed@),
            messages.capacity == old(messages).capacity,
            messages.senders == old(messages).senders,
            actor_run(*actor, messages.queue@).0 == actor_run(*old(actor), inputs0).0,
            peers.sent() + actor_run(*actor, messages.queue@).1 == old(peers).sent() + actor_run(
                *old(actor),
                inputs0,
            ).1,
        decreases messages.queue@.len(),
    {
        let ghost pre_actor = *actor;
        let ghost pre_queue = messages.queue@;
        match messages.recv() {
            RecvOutcome::Message(message) => {
                let ghost step = pre_actor.reaction(message);
                let ghost rest_run = actor_run(step.0, pre_queue.skip(1));
                let mut outputs = actor.react(message);
                let ghost first = outputs@;
                let ghost sent_before = peers.sent();
                proof {
                    assert(actor_run(pre_actor, pre_queue).0 == rest_run.0);
                    assert(actor_run(pre_actor, pre_queue).1 == first + rest_run.1);
                }
                let mut sent_count: Ghost<int> = Ghost(0);
                while outputs.len() > 0
                    invariant
                        0 <= sent_count@ <= first.len(),
                        outputs@ == first.skip(sent_count@),
                        peers.sent() == sent_before + first.take(sent_count@),
                    decreases outputs@.len(),
                {
                    let ghost j = sent_count@;
                    let out = outputs.remove(0);
                    assert(out == first[j]);
                    match peers.send(out) {
                        Ok(_) => {
                            sent_count = Ghost(j + 1);
                            proof {
                                assert(outputs@ =~= first.skip(j + 1));
                                assert((sent_before + first.take(j)).push(first[j]) =~= sent_before
                                    + first.take(j + 1));
                            }
                        },
                        Err(_) => {
                            proof {
                                assert(messages.queue@ =~= inputs0.skip(processed@ + 1));
                                assert(actor_run(*actor, messages.queue@).0 == actor_run(
                                    *old(actor),
                                    inputs0,
                                ).0);
                                assert(0 <= processed@ + 1 <= inputs0.len() && messages.queue@
                                    == inputs0.skip(processed@ + 1));
                                assert(first =~= first.take(j) + first.skip(j));
                                assert((sent_before + (first + rest_run.1)) =~= (sent_before
                                    + first.take(j)) + (first.skip(j) + rest_run.1));
                                assert(peers.sent().is_prefix_of(
                                    old(peers).sent() + actor_run(*old(actor), inputs0).1,
                                ));
                            }
                            return ActorOutcome::ChannelFailure;
                        },
                    }
                }
                processed = Ghost(processed@ + 1);
                proof {
                    assert(first.take(first.len() as int) =~= first);
                    assert(peers.sent() == sent_before + first);
                    assert(messages.queue@ =~= inputs0.skip(processed@));
                    assert((sent_before + first) + rest_run.1 =~= sent_before + (first
                        + rest_run.1));
                    assert(peers.sent() + actor_run(*actor, messages.queue@).1 == old(
                        peers,
                    ).sent() + actor_run(*old(actor), inputs0).1);
                }
            },
            RecvOutcome::Pending => {
                proof {
                    assert(actor_run(*actor, messages.queue@).1 == Seq::<A::Output>::empty());
                    assert(peers.sent() + Seq::<A::Output>::empty() =~= peers.sent());
                }
                return ActorOutcome::Waiting;
            },
            RecvOutcome::Closed => {
                proof {
                    assert(actor_run(*actor, messages.queue@).1 == Seq::<A::Output>::empty());
                    assert(peers.sent() + Seq::<A::Output>::empty() =~= peers.sent());
                }
                return ActorOutcome::Completed;
            },
        }
    }
}

} // verus!
