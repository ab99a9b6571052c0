use crate::contracts::ConnectionId;
use crate::publishers::publish_error::PublishError;
use crate::task_completion::{CompletionState, TaskCompletion, TaskEvent};
use std::collections::HashMap;
use vstd::prelude::*;
use vstd::std_specs::iter::IteratorSpec;

verus! {

broadcast use vstd::std_specs::hash::group_hash_axioms;

/// A publish request that has left the pending set, with the cell that tells
/// its waiter how it ended.
#[derive(Debug)]
pub struct ResolvedPublish {
    pub request_id: i64,
    pub completion: TaskCompletion<(), PublishError>,
}

/// The request ids of a list of resolved requests, in order.
pub open spec fn resolved_ids(resolved: Seq<ResolvedPublish>) -> Seq<i64> {
    resolved.map_values(|r: ResolvedPublish| r.request_id)
}

/// Every request of the list ended with the same `event`.
pub open spec fn all_resolved_with(
    resolved: Seq<ResolvedPublish>,
    event: TaskEvent<(), PublishError>,
) -> bool {
    forall|i: int|
        0 <= i < resolved.len() ==> (#[trigger] resolved[i]).completion@
            == CompletionState::Completed(event)
}

/// The list is what tearing a connection down hands back for the pending
/// requests `pending`: each of them once, and each failed as disconnected.
pub open spec fn fails_all_pending(resolved: Seq<ResolvedPublish>, pending: Set<i64>) -> bool {
    &&& resolved_ids(resolved).to_set() == pending
    &&& resolved_ids(resolved).no_duplicates()
    &&& all_resolved_with(resolved, TaskEvent::Error(PublishError::Disconnected))
}

/// The mathematical value of a [`PublishProcessByConnection`].
pub struct ConnectionRequests {
    pub connection_id: ConnectionId,
    pub pending: Set<i64>,
}

/// The publish requests that wait for an answer on one connection.
pub struct PublishProcessByConnection {
    connection_id: ConnectionId,
    requests: HashMap<i64, TaskCompletion<(), PublishError>>,
}

impl View for PublishProcessByConnection {
    type V = ConnectionRequests;

    closed spec fn view(&self) -> ConnectionRequests {
        ConnectionRequests { connection_id: self.connection_id, pending: self.requests@.dom() }
    }
}

impl PublishProcessByConnection {
    /// Every request that waits has a cell without a result, and the requests
    /// that wait are finitely many.
    pub closed spec fn wf(self) -> bool {
        &&& self.requests@.dom().finite()
        &&& forall|request_id: i64| #[trigger]
            self.requests@.contains_key(request_id) ==> self.requests@[request_id]@ is Pending
    }

    /// The requests that wait are finitely many.
    pub proof fn lemma_pending_is_finite(self)
        requires
            self.wf(),
        ensures
            self@.pending.finite(),
    {
    }

    /// No request waits on a connection that was just made.
    pub fn new(connection_id: ConnectionId) -> (process: Self)
        ensures
            process.wf(),
            process@ == (ConnectionRequests { connection_id, pending: Set::empty() }),
    {
        Self { connection_id, requests: HashMap::new() }
    }

    /// The connection that the requests were written to.
    pub fn connection_id(&self) -> (id: ConnectionId)
        ensures
            id == self@.connection_id,
    {
        self.connection_id
    }

    /// How many requests wait for an answer.
    pub fn pending_count(&self) -> (count: usize)
        ensures
            count == self@.pending.len(),
    {
        self.requests.len()
    }

    /// Whether `request_id` waits for an answer.
    pub fn is_pending(&self, request_id: i64) -> (pending: bool)
        ensures
            pending == self@.pending.contains(request_id),
    {
        self.requests.contains_key(&request_id)
    }

    /// The ids of the requests that wait, each once, in no particular order.
    pub fn pending_ids(&self) -> (ids: Vec<i64>)
        ensures
            ids@.to_set() == self@.pending,
            ids@.no_duplicates(),
    {
        let mut ids: Vec<i64> = Vec::new();
        for id in it: self.requests.keys()
            invariant
                ids@ == it.seq().take(it.index() as int).unref(),
                it.seq() == self.requests.keys().remaining(),
        {
            ids.push(*id);
            assert(it.seq().take(it.index() + 1) == it.seq().take(it.index() as int).push(id));
        }
        let ghost keys = self.requests.keys().remaining();
        assert(keys.take(keys.len() as int) == keys);
        ids
    }

    /// Adds `request_id` to the requests that wait for an answer.
    pub fn register(&mut self, request_id: i64)
        requires
            old(self).wf(),
        ensures
            final(self).wf(),
            final(self)@ == (ConnectionRequests {
                pending: old(self)@.pending.insert(request_id),
                ..old(self)@
            }),
    {
        self.requests.insert(request_id, TaskCompletion::new());
    }

    /// Takes `request_id` out of the pending requests and completes it with
    /// success. A request that does not wait is left alone.
    pub fn confirm(&mut self, request_id: i64) -> (resolved: Option<ResolvedPublish>)
        requires
            old(self).wf(),
        ensures
            final(self).wf(),
            final(self)@ == (ConnectionRequests {
                pending: old(self)@.pending.remove(request_id),
                ..old(self)@
            }),
            old(self)@.pending.contains(request_id) <==> resolved is Some,
            resolved matches Some(r) ==> r.request_id == request_id && r.completion@
                == CompletionState::Completed(TaskEvent::<(), PublishError>::Success(())),
    {
        match self.requests.remove(&request_id) {
            Some(mut completion) => {
                let _ = completion.set_ok(());
                Some(ResolvedPublish { request_id, completion })
            },
            None => None,
        }
    }

    /// Ends the bookkeeping of the connection: every request that still waits
    /// is failed as disconnected and handed back, so that none is forgotten.
    pub fn close(self) -> (resolved: Vec<ResolvedPublish>)
        requires
            self.wf(),
        ensures
            fails_all_pending(resolved@, self@.pending),
    {
        let ids = self.pending_ids();
        let mut requests = self.requests;
        let mut resolved: Vec<ResolvedPublish> = Vec::new();
        let mut i: usize = 0;
        while i < ids.len()
            invariant
                i <= ids@.len(),
                ids@.no_duplicates(),
                resolved_ids(resolved@) == ids@.take(i as int),
                all_resolved_with(resolved@, TaskEvent::Error(PublishError::Disconnected)),
                forall|j: int|
                    i <= j < ids@.len() ==> requests@.contains_key(#[trigger] ids@[j])
                        && requests@[ids@[j]]@ is Pending,
            decreases ids@.len() - i,
        {
            let request_id = ids[i];
            let taken = requests.remove(&request_id);
            assert(taken is Some);
            if let Some(mut completion) = taken {
                let _ = completion.set_error(PublishError::Disconnected);
                let ghost before = resolved@;
                resolved.push(ResolvedPublish { request_id, completion });
                assert(resolved_ids(resolved@) == resolved_ids(before).push(request_id));
                assert(ids@.take(i as int + 1) == ids@.take(i as int).push(request_id));
            }
            i += 1;
        }
        assert(ids@.take(ids@.len() as int) == ids@);
        resolved
    }
}

} // verus!
