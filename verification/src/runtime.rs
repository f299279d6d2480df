//! The supervisor: it accepts spawn and shutdown actions over its own
//! bounded channel, launches each spawned task as an independent unit of
//! concurrency, and turns the way its background loop ended into a typed
//! result.
//!
//! Running the tasks is the adapter's job; the runtime here decides, for
//! every action and every termination, what is to happen.

use vstd::prelude::*;

use crate::channels::new_mailbox;
use crate::channels::Address;
use crate::channels::Mailbox;
use crate::channels::RecvOutcome;
use crate::channels::Sender;
use crate::errors::ChannelError;
use crate::errors::RuntimeError;

verus! {

/// The capacity of the runtime's internal action channel.
pub const RUNTIME_ACTION_CAPACITY: usize = 16;

/// A task handed to the runtime: an identifier for the adapter to run it by,
/// and a name for tracing.
pub struct TaskRef {
    /// The identifier the adapter uses to start the actual work.
    pub id: u64,
    /// The task's name, for tracing.
    pub name: String,
}

/// Actions sent by actors to the runtime.
pub enum RuntimeAction {
    /// Stop the runtime's action-processing loop.
    Shutdown,
    /// Launch the given task as an independent unit of concurrency.
    Spawn(TaskRef),
}

/// Requests sent by the runtime to actors.
pub enum RuntimeRequest {
    /// A cooperative notice to wind down.
    Shutdown,
}

/// Events published by the runtime.
pub enum RuntimeEvent {
    /// The runtime failed.
    Error(RuntimeError),
    /// A task was started.
    Started { task: String },
    /// A task ran to completion.
    Stopped { task: String },
    /// A task was given up on.
    Aborted { task: String, error: RuntimeError },
}

/// How the runtime's background task, or any spawned task, ended.
pub enum TaskTermination {
    /// It ran to completion.
    Completed,
    /// It panicked — a bug, not an intentional stop.
    Panicked,
    /// It was cancelled — an intentional stop, not a bug.
    Cancelled,
}

/// What the runtime's loop decides after taking in one action.
pub enum RuntimeStep {
    /// Start the given task as an independent unit of concurrency.
    Launch(TaskRef),
    /// The loop is over: a shutdown was requested, or every handle is gone.
    Finished,
    /// No action is queued yet; the loop should suspend and retry.
    Idle,
}

/// The lifecycle of the runtime's action-processing loop.
#[derive(Clone, Copy, PartialEq, Eq, Structural, Debug)]
pub enum RuntimeState {
    /// The loop takes in actions.
    Running,
    /// The loop has ended; every further action is ignored.
    Stopped,
}

/// The runtime's background loop: the exclusive consumer of the action
/// channel.
///
/// Each [`step`](RuntimeActor::step) consumes at most one action. A
/// `Spawn` is answered with the decision to launch that task, recorded in
/// `spawned`; a `Shutdown`, or the loss of every handle, ends the loop for
/// good — once `Stopped`, no step ever launches anything again.
pub struct RuntimeActor {
    /// The receiving end of the action channel.
    pub actions: Mailbox<RuntimeAction>,
    /// The current lifecycle state of the loop.
    pub state: RuntimeState,
    /// Every task launched so far, in launch order.
    pub spawned: Vec<TaskRef>,
}

impl RuntimeActor {
    /// The action channel is well formed.
    pub open spec fn wf(&self) -> bool {
        self.actions.wf()
    }

    /// Consume at most one action and decide what to do about it.
    ///
    /// In the `Running` state: a queued `Spawn` is recorded and answered
    /// with `Launch`; a queued `Shutdown` stops the loop; an empty channel
    /// means `Idle` while some handle is alive and `Finished` once every
    /// handle is gone. In the `Stopped` state nothing is consumed and
    /// nothing is ever launched.
    pub fn step(&mut self) -> (r: RuntimeStep)
        requires
            old(self).wf(),
        ensures
            final(self).wf(),
            old(self).state == RuntimeState::Stopped ==> r is Finished && *final(self) == *old(
                self,
            ),
            old(self).state == RuntimeState::Running ==> {
                &&& old(self).actions.queue@.len() > 0 ==> match old(self).actions.queue@[0] {
                    RuntimeAction::Spawn(task) => {
                        &&& (r matches RuntimeStep::Launch(t) && t == task)
                        &&& final(self).spawned@ == old(self).spawned@.push(task)
                        &&& final(self).state == RuntimeState::Running
                    },
                    RuntimeAction::Shutdown => {
                        &&& r is Finished
                        &&& final(self).state == RuntimeState::Stopped
                        &&& final(self).spawned@ == old(self).spawned@
                    },
                }
                &&& old(self).actions.queue@.len() > 0 ==> final(self).actions.queue@ == old(
                    self,
                ).actions.queue@.skip(1)
                &&& old(self).actions.queue@.len() == 0 && old(self).actions.senders > 0 ==> (
                r is Idle && *final(self) == *old(self))
                &&& old(self).actions.is_closed() ==> {
                    &&& r is Finished
                    &&& final(self).state == RuntimeState::Stopped
                    &&& final(self).spawned@ == old(self).spawned@
                }
            },
            final(self).actions.capacity == old(self).actions.capacity,
            final(self).actions.senders == old(self).actions.senders,
    {
        match self.state {
            RuntimeState::Stopped => RuntimeStep::Finished,
            RuntimeState::Running => {
                match self.actions.recv() {
                    RecvOutcome::Message(action) => {
                        match action {
                            RuntimeAction::Spawn(task) => {
                                let launched = TaskRef { id: task.id, name: task.name.clone() };
                                self.spawned.push(task);
                                RuntimeStep::Launch(launched)
                            },
                            RuntimeAction::Shutdown => {
                                self.state = RuntimeState::Stopped;
                                RuntimeStep::Finished
                            },
                        }
                    },
                    RecvOutcome::Pending => RuntimeStep::Idle,
                    RecvOutcome::Closed => {
                        self.state = RuntimeState::Stopped;
                        RuntimeStep::Finished
                    },
                }
            },
        }
    }
}

/// A handle passed to actors to interact with the runtime.
///
/// Every clone holds a sender of the runtime's action channel; spawning and
/// shutting down both desugar to sending one action over it.
pub struct RuntimeHandle {
    /// The sending end of the runtime's action channel.
    pub actions_sender: Address<RuntimeAction>,
}

impl RuntimeHandle {
    /// Ask the runtime to stop processing actions.
    pub fn shutdown(&mut self) -> (r: Result<(), RuntimeError>)
        ensures
            r is Ok <==> !old(self).actions_sender.peer_closed,
            r is Ok ==> final(self).actions_sender.sent() == old(self).actions_sender.sent().push(
                RuntimeAction::Shutdown,
            ) && final(self).actions_sender.pending@ == old(self).actions_sender.pending@.push(
                RuntimeAction::Shutdown,
            ) && final(self).actions_sender.delivered@ == old(self).actions_sender.delivered@,
            r is Err ==> r == Result::<(), RuntimeError>::Err(
                RuntimeError::SendError(ChannelError::SendError),
            ) && *final(self) == *old(self),
    {
        match self.send(RuntimeAction::Shutdown) {
            Ok(_) => Ok(()),
            Err(e) => Err(RuntimeError::from(e)),
        }
    }

    /// Ask the runtime to launch a task in the background.
    pub fn spawn(&mut self, task: TaskRef) -> (r: Result<(), RuntimeError>)
        ensures
            r is Ok <==> !old(self).actions_sender.peer_closed,
            r is Ok ==> final(self).actions_sender.sent() == old(self).actions_sender.sent().push(
                RuntimeAction::Spawn(task),
            ) && final(self).actions_sender.pending@ == old(self).actions_sender.pending@.push(
                RuntimeAction::Spawn(task),
            ) && final(self).actions_sender.delivered@ == old(self).actions_sender.delivered@,
            r is Err ==> r == Result::<(), RuntimeError>::Err(
                RuntimeError::SendError(ChannelError::SendError),
            ) && *final(self) == *old(self),
    {
        match self.send(RuntimeAction::Spawn(task)) {
            Ok(_) => Ok(()),
            Err(e) => Err(RuntimeError::from(e)),
        }
    }

    /// Send an action to the runtime.
    pub fn send(&mut self, action: RuntimeAction) -> (r: Result<(), ChannelError>)
        ensures
            r is Ok <==> !old(self).actions_sender.peer_closed,
            r is Ok ==> final(self).actions_sender.sent() == old(self).actions_sender.sent().push(
                action,
            ) && final(self).actions_sender.pending@ == old(self).actions_sender.pending@.push(
                action,
            ) && final(self).actions_sender.delivered@ == old(self).actions_sender.delivered@,
            r is Err ==> r == Result::<(), ChannelError>::Err(ChannelError::SendError)
                && *final(self) == *old(self),
            final(self).actions_sender.peer_closed == old(self).actions_sender.peer_closed,
    {
        self.actions_sender.send(action)
    }

    /// A handle of its own to the same runtime.
    ///
    /// As with every cloned sender, the clone must be registered with the
    /// action mailbox through [`Mailbox::sender_cloned`].
    pub fn clone_handle(&self) -> (r: RuntimeHandle)
        ensures
            r.actions_sender.sent() == Seq::<RuntimeAction>::empty(),
            r.actions_sender.pending@ == Seq::<RuntimeAction>::empty(),
            r.actions_sender.peer_closed == self.actions_sender.peer_closed,
    {
        RuntimeHandle { actions_sender: self.actions_sender.clone_handle() }
    }
}

/// The actor runtime: its background loop and the first handle to it.
pub struct Runtime {
    /// The first handle; actors get clones of it.
    pub handle: RuntimeHandle,
    /// The background action-processing loop.
    pub actor: RuntimeActor,
}

impl Runtime {
    /// Launch the runtime: a fresh action channel, the loop in its `Running`
    /// state, and the first handle.
    pub fn try_new() -> (r: Result<Runtime, RuntimeError>)
        ensures
            r matches Ok(rt) && rt.actor.wf() && rt.actor.state == RuntimeState::Running
                && rt.actor.actions.queue@ == Seq::<RuntimeAction>::empty()
                && rt.actor.actions.capacity == RUNTIME_ACTION_CAPACITY
                && rt.actor.actions.senders == 1 && rt.actor.spawned@ == Seq::<TaskRef>::empty()
                && rt.handle.actions_sender.sent() == Seq::<RuntimeAction>::empty()
                && rt.handle.actions_sender.pending@ == Seq::<RuntimeAction>::empty()
                && !rt.handle.actions_sender.peer_closed,
    {
        let (actions, actions_sender) = new_mailbox::<RuntimeAction>(RUNTIME_ACTION_CAPACITY);
        let actor = RuntimeActor { actions, state: RuntimeState::Running, spawned: Vec::new() };
        let handle = RuntimeHandle { actions_sender };
        Ok(Runtime { handle, actor })
    }

    /// A handle for one more actor to interact with the runtime.
    pub fn get_handle(&mut self) -> (r: RuntimeHandle)
        requires
            old(self).actor.actions.senders >= 1,
            old(self).actor.actions.senders < usize::MAX,
        ensures
            r.actions_sender.sent() == Seq::<RuntimeAction>::empty(),
            r.actions_sender.peer_closed == old(self).handle.actions_sender.peer_closed,
            final(self).actor.actions.senders == old(self).actor.actions.senders + 1,
            final(self).actor.actions.queue@ == old(self).actor.actions.queue@,
            final(self).actor.state == old(self).actor.state,
            final(self).actor.spawned == old(self).actor.spawned,
            final(self).handle == old(self).handle,
    {
        self.actor.actions.sender_cloned();
        self.handle.clone_handle()
    }

    /// The result of running the runtime up to completion, given how its
    /// background loop ended.
    ///
    /// A task that panicked is a bug and reported as such; one that was
    /// cancelled was stopped on purpose; one that completed is no error.
    /// This distinction is what lets a caller tell a crash from an
    /// intentional stop.
    pub fn wait_for_completion(termination: TaskTermination) -> (r: Result<(), RuntimeError>)
        ensures
            termination is Completed <==> r is Ok,
            termination is Panicked <==> r == Result::<(), RuntimeError>::Err(
                RuntimeError::RuntimePanic,
            ),
            termination is Cancelled <==> r == Result::<(), RuntimeError>::Err(
                RuntimeError::RuntimeCancellation,
            ),
    {
        match termination {
            TaskTermination::Completed => Ok(()),
            TaskTermination::Panicked => Err(RuntimeError::RuntimePanic),
            TaskTermination::Cancelled => Err(RuntimeError::RuntimeCancellation),
        }
    }
}

} // verus!
