//! A journal of operation events, keyed by request: the record of what was
//! scheduled, started and finished.
//!
//! The journal here is the in-memory store with its exact lookup semantics;
//! persisting it to disk is an unverified collaborator's job.

use vstd::pervasive::VecAdditionalExecFns;
use vstd::prelude::*;
use vstd::string::StringExecFns;

verus! {

/// The identity of the request an event belongs to.
pub type RequestId = String;

/// When an event happened.
pub type Timestamp = u64;

/// One journal entry: when, for which request, and what happened.
#[derive(Debug, Clone)]
pub struct Event {
    /// When the event happened.
    pub time: Timestamp,
    /// The request this event belongs to.
    pub id: RequestId,
    /// What happened.
    pub event: OperationEvent,
}

/// What happened to an operation.
#[derive(Debug, Clone)]
pub enum OperationEvent {
    /// The operation was scheduled.
    Schedule(OperationRequest),
    /// The operation is being executed by a process.
    Executing(OperationProcess),
    /// The operation succeeded.
    Success(OperationStatus),
    /// The operation failed.
    Failure(OperationStatus),
}

/// An operation as requested: what to run and for whom.
#[derive(Debug, Clone)]
pub struct OperationRequest {
    /// The name of the operation.
    pub operation: String,
    /// The command to run.
    pub command: String,
    /// The command's arguments.
    pub args: Vec<String>,
    /// The user to run as.
    pub user: String,
}

/// An operation in execution.
#[derive(Debug, Clone)]
pub struct OperationProcess {
    /// The name of the operation.
    pub operation: String,
    /// The process executing it.
    pub process_id: u32,
}

/// An operation's outcome.
#[derive(Debug, Clone)]
pub struct OperationStatus {
    /// The name of the operation.
    pub operation: String,
    /// What the operation logged.
    pub log: String,
}

impl Event {
    /// The event recording that `command` was scheduled at `time` to carry
    /// out `operation` for request `id`, with no arguments, as nobody.
    pub fn schedule(time: u64, id: &str, operation: &str, command: &str) -> (r: Event)
        ensures
            r.time == time,
            r.id@ == id@,
            r.event matches OperationEvent::Schedule(req) && req.operation@ == operation@
                && req.command@ == command@ && req.args@ == Seq::<String>::empty() && req.user@
                == "nobody"@,
    {
        let id = id.to_owned();
        let request = OperationRequest {
            operation: operation.to_owned(),
            command: command.to_owned(),
            args: vec![],
            user: String::from_str("nobody"),
        };
        Event { time, id, event: OperationEvent::Schedule(request) }
    }
}

/// Why a journal operation failed.
#[derive(Debug, Clone, Copy, PartialEq, Eq, Structural)]
pub enum JournalError {
    /// The backing database failed.
    DatabaseError,
}

/// The event a journal holds for a request: the last one logged under that
/// request's identity, if any.
pub open spec fn spec_journal_get(entries: Seq<(String, Event)>, id: Seq<char>) -> Option<Event>
    decreases entries.len(),
{
    if entries.len() == 0 {
        None
    } else if entries.last().0@ == id {
        Some(entries.last().1)
    } else {
        spec_journal_get(entries.drop_last(), id)
    }
}

/// A journal of events, one per request: logging an event for a request
/// replaces whatever was logged for it before.
pub struct Journal {
    /// The entries, in logging order; each request appears at most once.
    pub entries: Vec<(String, Event)>,
}

impl Journal {
    /// Each request appears at most once.
    pub open spec fn wf(&self) -> bool {
        forall|i: int, j: int|
            0 <= i < j < self.entries@.len() ==> self.entries@[i].0@ != self.entries@[j].0@
    }

    /// An empty journal.
    pub fn new() -> (r: Journal)
        ensures
            r.wf(),
            r.entries@ == Seq::<(String, Event)>::empty(),
    {
        Journal { entries: Vec::new() }
    }

    /// Record an event under its request's identity, replacing any event
    /// recorded for that request before and touching no other request.
    pub fn log(&mut self, event: Event) -> (r: Result<(), JournalError>)
        requires
            old(self).wf(),
        ensures
            final(self).wf(),
            r is Ok,
            spec_journal_get(final(self).entries@, event.id@) == Some(event),
            forall|other: Seq<char>|
                other != event.id@ ==> spec_journal_get(final(self).entries@, other)
                    == spec_journal_get(old(self).entries@, other),
    {
        let n = self.entries.len();
        let mut i: usize = 0;
        while i < n
            invariant
                n == self.entries@.len(),
                0 <= i <= n,
                forall|j: int| 0 <= j < i ==> self.entries@[j].0@ != event.id@,
                self.wf(),
                *self == *old(self),
            decreases n - i,
        {
            let hit = {
                let pair = &self.entries[i];
                crate::text::str_eq(pair.0.as_str(), event.id.as_str())
            };
            if hit {
                let id = event.id.clone();
                let ghost set_event = event;
                self.entries.set(i, (id, event));
                proof {
                    lemma_journal_get_set(old(self).entries@, self.entries@, i as int, set_event);
                }
                return Ok(());
            }
            i = i + 1;
        }
        let id = event.id.clone();
        let ghost pushed_id = id;
        let ghost pushed_event = event;
        self.entries.push((id, event));
        proof {
            lemma_journal_get_push(old(self).entries@, pushed_id, pushed_event);
        }
        Ok(())
    }

    /// The event recorded for a request, if any.
    pub fn get(&self, id: &str) -> (r: Result<Option<&Event>, JournalError>)
        requires
            self.wf(),
        ensures
            r matches Ok(o) && (match spec_journal_get(self.entries@, id@) {
                Some(e) => o matches Some(f) && *f == e,
                None => o is None,
            }),
    {
        let n = self.entries.len();
        let mut i: usize = 0;
        while i < n
            invariant
                self.wf(),
                n == self.entries@.len(),
                0 <= i <= n,
                forall|j: int| 0 <= j < i ==> self.entries@[j].0@ != id@,
            decreases n - i,
        {
            let pair = &self.entries[i];
            if crate::text::str_eq(pair.0.as_str(), id) {
                proof {
                    lemma_journal_get_found(self.entries@, i as int, id@);
                }
                return Ok(Some(&self.entries[i].1));
            }
            i = i + 1;
        }
        proof {
            lemma_journal_get_missing(self.entries@, id@);
        }
        Ok(None)
    }
}

/// Looking a request up finds the entry that names it, where no earlier
/// entry does and no two entries name the same request.
proof fn lemma_journal_get_found(entries: Seq<(String, Event)>, i: int, id: Seq<char>)
    requires
        0 <= i < entries.len(),
        entries[i].0@ == id,
        forall|j: int, k: int| 0 <= j < k < entries.len() ==> entries[j].0@ != entries[k].0@,
    ensures
        spec_journal_get(entries, id) == Some(entries[i].1),
    decreases entries.len(),
{
    if i + 1 < entries.len() {
        lemma_journal_get_found(entries.drop_last(), i, id);
    }
}

/// Looking a request up that no entry names finds nothing.
proof fn lemma_journal_get_missing(entries: Seq<(String, Event)>, id: Seq<char>)
    requires
        forall|j: int| 0 <= j < entries.len() ==> entries[j].0@ != id,
    ensures
        spec_journal_get(entries, id) is None,
    decreases entries.len(),
{
    if entries.len() > 0 {
        lemma_journal_get_missing(entries.drop_last(), id);
    }
}

/// Replacing the entry that names a request changes that request's lookup to
/// the new event and no other request's.
proof fn lemma_journal_get_set(
    pre: Seq<(String, Event)>,
    post: Seq<(String, Event)>,
    i: int,
    event: Event,
)
    requires
        0 <= i < pre.len(),
        pre[i].0@ == event.id@,
        post.len() == pre.len(),
        post[i].1 == event,
        post[i].0@ == event.id@,
        forall|j: int| 0 <= j < pre.len() && j != i ==> post[j] == pre[j],
        forall|j: int, k: int| 0 <= j < k < pre.len() ==> pre[j].0@ != pre[k].0@,
    ensures
        spec_journal_get(post, event.id@) == Some(event),
        forall|other: Seq<char>|
            other != event.id@ ==> spec_journal_get(post, other) == spec_journal_get(pre, other),
    decreases pre.len(),
{
    if i + 1 < pre.len() {
        lemma_journal_get_set(pre.drop_last(), post.drop_last(), i, event);
        assert(post.last() == pre.last());
        assert forall|other: Seq<char>| other != event.id@ implies spec_journal_get(post, other)
            == spec_journal_get(pre, other) by {
            assert(spec_journal_get(post.drop_last(), other) == spec_journal_get(
                pre.drop_last(),
                other,
            ));
        }
    } else {
        assert(post.drop_last() =~= pre.drop_last());
        assert forall|other: Seq<char>| other != event.id@ implies spec_journal_get(post, other)
            == spec_journal_get(pre, other) by {
            assert(post.last().0@ == event.id@);
            assert(pre.last().0@ == event.id@);
        }
    }
}

/// Appending an entry for a fresh request makes its lookup find the new
/// event and changes no other request's.
proof fn lemma_journal_get_push(pre: Seq<(String, Event)>, id: String, event: Event)
    requires
        id@ == event.id@,
    ensures
        spec_journal_get(pre.push((id, event)), event.id@) == Some(event),
        forall|other: Seq<char>|
            other != id@ ==> #[trigger] spec_journal_get(pre.push((id, event)), other)
                == spec_journal_get(pre, other),
{
    assert(pre.push((id, event)).drop_last() =~= pre);
}

} // verus!
