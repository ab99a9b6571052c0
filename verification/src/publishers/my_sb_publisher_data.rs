use crate::contracts::{ConnectionId, MessageToPublish, TcpContract, TcpContractView};
use crate::publishers::publish_error::PublishError;
use crate::publishers::publish_process_by_connection::{
    fails_all_pending,
    ConnectionRequests,
    PublishProcessByConnection,
    ResolvedPublish,
};
use crate::task_completion::{CompletionState, TaskEvent};
use vstd::prelude::*;

verus! {

/// The mathematical value of a [`MySbPublisherData`].
pub struct PublisherState {
    /// The request id that was issued last; 0 before the first.
    pub request_id: i64,
    /// The current connection with the requests that wait on it, if there is one.
    pub connection: Option<ConnectionRequests>,
    /// The topics that the client has declared, in the order of declaration.
    pub topics: Seq<Seq<char>>,
}

impl PublisherState {
    /// The state of an engine that has done nothing yet.
    pub open spec fn initial() -> Self {
        PublisherState { request_id: 0, connection: None, topics: Seq::empty() }
    }

    /// The requests that wait for an answer; none without a connection.
    pub open spec fn pending(self) -> Set<i64> {
        match self.connection {
            Some(connection) => connection.pending,
            None => Set::empty(),
        }
    }

    /// The state after the next request id was issued.
    pub open spec fn issue_request_id(self) -> Self {
        PublisherState { request_id: (self.request_id + 1) as i64, ..self }
    }

    /// The state after `request_id` was registered: it waits on the current
    /// connection; without a connection nothing changes.
    pub open spec fn register(self, request_id: i64) -> Self {
        match self.connection {
            Some(connection) => PublisherState {
                connection: Some(
                    ConnectionRequests {
                        pending: connection.pending.insert(request_id),
                        ..connection
                    },
                ),
                ..self
            },
            None => self,
        }
    }

    /// The state after the answer to `request_id` came.
    pub open spec fn confirm(self, request_id: i64) -> Self {
        match self.connection {
            Some(connection) => PublisherState {
                connection: Some(
                    ConnectionRequests {
                        pending: connection.pending.remove(request_id),
                        ..connection
                    },
                ),
                ..self
            },
            None => self,
        }
    }

    /// The state after `connection_id` became the current connection.
    pub open spec fn connect(self, connection_id: ConnectionId) -> Self {
        PublisherState {
            connection: Some(ConnectionRequests { connection_id, pending: Set::empty() }),
            ..self
        }
    }

    /// The state after the current connection was lost.
    pub open spec fn disconnect(self) -> Self {
        PublisherState { connection: None, ..self }
    }

    /// The state after `topic_id` was declared: a topic is kept once.
    pub open spec fn declare_topic(self, topic_id: Seq<char>) -> Self {
        if self.topics.contains(topic_id) {
            self
        } else {
            PublisherState { topics: self.topics.push(topic_id), ..self }
        }
    }
}

/// What can happen to a publisher engine.
pub enum PublisherEvent {
    /// The next request id is issued.
    IssueRequestId,
    /// A request is registered as waiting.
    Register(i64),
    /// The broker answers a request.
    Confirm(i64),
    /// A connection becomes the current one.
    Connect(ConnectionId),
    /// The current connection is lost.
    Disconnect,
    /// A topic is declared.
    DeclareTopic(Seq<char>),
}

impl PublisherEvent {
    /// Whether the event changes which connection is current.
    pub open spec fn changes_connection(self) -> bool {
        self is Connect || self is Disconnect
    }
}

impl PublisherState {
    /// The state after `event`.
    pub open spec fn apply(self, event: PublisherEvent) -> Self {
        match event {
            PublisherEvent::IssueRequestId => self.issue_request_id(),
            PublisherEvent::Register(request_id) => self.register(request_id),
            PublisherEvent::Confirm(request_id) => self.confirm(request_id),
            PublisherEvent::Connect(connection_id) => self.connect(connection_id),
            PublisherEvent::Disconnect => self.disconnect(),
            PublisherEvent::DeclareTopic(topic_id) => self.declare_topic(topic_id),
        }
    }

    /// The state after `events`, in order.
    pub open spec fn run(self, events: Seq<PublisherEvent>) -> Self
        decreases events.len(),
    {
        if events.len() == 0 {
            self
        } else {
            self.run(events.drop_last()).apply(events.last())
        }
    }
}

/// A request that does not wait starts to wait only by being registered.
pub proof fn lemma_pending_needs_registration(
    state: PublisherState,
    events: Seq<PublisherEvent>,
    request_id: i64,
)
    requires
        !state.pending().contains(request_id),
        forall|i: int| 0 <= i < events.len() ==> events[i] != PublisherEvent::Register(request_id),
    ensures
        !state.run(events).pending().contains(request_id),
    decreases events.len(),
{
    if events.len() > 0 {
        lemma_pending_needs_registration(state, events.drop_last(), request_id);
    }
}

/// Topics are only ever added: whatever happens, the topics that were
/// declared stay declared, in their places.
pub proof fn lemma_topics_only_grow(state: PublisherState, events: Seq<PublisherEvent>)
    ensures
        state.topics.is_prefix_of(state.run(events).topics),
    decreases events.len(),
{
    if events.len() > 0 {
        lemma_topics_only_grow(state, events.drop_last());
        let before = state.run(events.drop_last());
        assert(before.topics.is_prefix_of(before.apply(events.last()).topics));
    }
}

/// A request stops waiting only when it is resolved: when the broker
/// answers it, or when the connection that it waits on is replaced or lost.
pub proof fn lemma_pending_leaves_only_resolved(
    state: PublisherState,
    event: PublisherEvent,
    request_id: i64,
)
    requires
        state.pending().contains(request_id),
        !state.apply(event).pending().contains(request_id),
    ensures
        event == PublisherEvent::Confirm(request_id) || event.changes_connection(),
{
}

/// No pending request outlives its connection. Whatever happened before,
/// once the current connection is replaced or lost, a request that waited
/// on it waits no more, whatever happens afterwards, as long as the same id
/// is not registered anew.
pub proof fn lemma_pending_does_not_outlive_connection(
    state: PublisherState,
    before: Seq<PublisherEvent>,
    change: PublisherEvent,
    after: Seq<PublisherEvent>,
    request_id: i64,
)
    requires
        change.changes_connection(),
        forall|i: int| 0 <= i < after.len() ==> after[i] != PublisherEvent::Register(request_id),
    ensures
        state.run(before).apply(change).pending() == Set::<i64>::empty(),
        !state.run(before).apply(change).run(after).pending().contains(request_id),
{
    lemma_pending_needs_registration(state.run(before).apply(change), after, request_id);
}

/// The values of a list of texts, in order.
pub open spec fn text_views(texts: Seq<String>) -> Seq<Seq<char>> {
    texts.map_values(|text: String| text@)
}

/// What the publisher engine keeps: the request-id counter, the current
/// connection with its pending requests, and the declared topics.
pub struct MySbPublisherData {
    request_id: i64,
    connection: Option<PublishProcessByConnection>,
    topics_to_create: Vec<String>,
}

impl View for MySbPublisherData {
    type V = PublisherState;

    closed spec fn view(&self) -> PublisherState {
        PublisherState {
            request_id: self.request_id,
            connection: match self.connection {
                Some(connection) => Some(connection@),
                None => None,
            },
            topics: text_views(self.topics_to_create@),
        }
    }
}

impl MySbPublisherData {
    /// The counter of request ids is not negative, the bookkeeping of the
    /// current connection is well formed, and no topic is kept twice.
    pub closed spec fn wf(self) -> bool {
        &&& self.request_id >= 0
        &&& self.connection matches Some(connection) ==> connection.wf()
        &&& text_views(self.topics_to_create@).no_duplicates()
    }

    /// What well-formedness says of the state: request ids are never
    /// negative, no topic is declared twice, and finitely many requests wait.
    pub proof fn lemma_wf_state(self)
        requires
            self.wf(),
        ensures
            self@.request_id >= 0,
            self@.topics.no_duplicates(),
            self@.pending().finite(),
    {
        if let Some(connection) = self.connection {
            connection.lemma_pending_is_finite();
        }
    }

    /// An engine without a connection, a topic or a request.
    pub fn new() -> (data: Self)
        ensures
            data.wf(),
            data@ == PublisherState::initial(),
    {
        let data = Self { request_id: 0, connection: None, topics_to_create: Vec::new() };
        assert(text_views(data.topics_to_create@) == Seq::<Seq<char>>::empty());
        data
    }

    /// Whether there is a current connection.
    pub fn has_connection(&self) -> (connected: bool)
        ensures
            connected == self@.connection is Some,
    {
        self.connection.is_some()
    }

    /// The current connection, if there is one.
    pub fn connection_id(&self) -> (id: Option<ConnectionId>)
        ensures
            match id {
                Some(id) => self@.connection matches Some(connection) && connection.connection_id
                    == id,
                None => self@.connection is None,
            },
    {
        match &self.connection {
            Some(connection) => Some(connection.connection_id()),
            None => None,
        }
    }

    /// Whether `request_id` waits for an answer.
    pub fn is_pending(&self, request_id: i64) -> (pending: bool)
        ensures
            pending == self@.pending().contains(request_id),
    {
        match &self.connection {
            Some(connection) => connection.is_pending(request_id),
            None => false,
        }
    }

    /// How many requests wait for an answer.
    pub fn pending_count(&self) -> (count: usize)
        ensures
            count == self@.pending().len(),
    {
        match &self.connection {
            Some(connection) => connection.pending_count(),
            None => 0,
        }
    }

    /// Whether the counter can still give a request id.
    pub fn can_issue_request_id(&self) -> (possible: bool)
        ensures
            possible == (self@.request_id < i64::MAX),
    {
        self.request_id < i64::MAX
    }

    /// Issues the next request id. The first is 1, and each next one is one
    /// higher: the counter never goes back.
    pub fn get_next_request_id(&mut self) -> (request_id: i64)
        requires
            old(self).wf(),
            old(self)@.request_id < i64::MAX,
        ensures
            final(self).wf(),
            request_id == old(self)@.request_id + 1,
            final(self)@ == old(self)@.issue_request_id(),
    {
        self.request_id += 1;
        self.request_id
    }

    /// Builds the publish packet for `messages` under a request id of its own.
    /// The packet never asks the broker to persist immediately.
    pub fn compile_publish_payload(&mut self, topic_id: &str, messages: Vec<MessageToPublish>) -> (payload:
        (i64, TcpContract))
        requires
            old(self).wf(),
            old(self)@.request_id < i64::MAX,
        ensures
            final(self).wf(),
            final(self)@ == old(self)@.issue_request_id(),
            payload.0 == old(self)@.request_id + 1,
            payload.1@ == (TcpContractView::Publish {
                topic_id: topic_id@,
                request_id: payload.0,
                persist_immediately: false,
                data_to_publish: messages@,
            }),
    {
        let request_id = self.get_next_request_id();
        let packet = TcpContract::Publish {
            topic_id: topic_id.to_owned(),
            request_id,
            persist_immediately: false,
            data_to_publish: messages,
        };
        (request_id, packet)
    }

    /// Registers `request_id` as waiting on the current connection and tells
    /// which connection its packet goes to. Without a connection nothing is
    /// registered and the request fails at once.
    pub fn publish_to_socket(&mut self, request_id: i64) -> (target: Result<
        ConnectionId,
        PublishError,
    >)
        requires
            old(self).wf(),
        ensures
            final(self).wf(),
            final(self)@ == old(self)@.register(request_id),
            match target {
                Ok(connection_id) => old(self)@.connection matches Some(connection)
                    && connection.connection_id == connection_id,
                Err(error) => old(self)@.connection is None && error
                    == PublishError::NoConnectionToPublish,
            },
    {
        match &mut self.connection {
            Some(connection) => {
                connection.register(request_id);
                Ok(connection.connection_id())
            },
            None => Err(PublishError::NoConnectionToPublish),
        }
    }

    /// Handles the broker's answer to `request_id`: the request leaves the
    /// pending set, completed with success. An answer that no request waits
    /// for changes nothing.
    pub fn confirm(&mut self, request_id: i64) -> (resolved: Option<ResolvedPublish>)
        requires
            old(self).wf(),
        ensures
            final(self).wf(),
            final(self)@ == old(self)@.confirm(request_id),
            old(self)@.pending().contains(request_id) <==> resolved is Some,
            resolved matches Some(r) ==> r.request_id == request_id && r.completion@
                == CompletionState::Completed(TaskEvent::<(), PublishError>::Success(())),
    {
        match &mut self.connection {
            Some(connection) => connection.confirm(request_id),
            None => None,
        }
    }

    /// Makes `connection_id` the current connection. The requests that waited
    /// on the connection it replaces are failed as disconnected and handed
    /// back; none waits on the new one.
    pub fn connect(&mut self, connection_id: ConnectionId) -> (failed: Vec<ResolvedPublish>)
        requires
            old(self).wf(),
        ensures
            final(self).wf(),
            final(self)@ == old(self)@.connect(connection_id),
            fails_all_pending(failed@, old(self)@.pending()),
    {
        let failed = self.disconnect();
        self.connection = Some(PublishProcessByConnection::new(connection_id));
        failed
    }

    /// Forgets the current connection. Every request that waited on it is
    /// failed as disconnected and handed back.
    pub fn disconnect(&mut self) -> (failed: Vec<ResolvedPublish>)
        requires
            old(self).wf(),
        ensures
            final(self).wf(),
            final(self)@ == old(self)@.disconnect(),
            fails_all_pending(failed@, old(self)@.pending()),
    {
        match self.connection.take() {
            Some(connection) => connection.close(),
            None => {
                let failed: Vec<ResolvedPublish> = Vec::new();
                assert(crate::publishers::publish_process_by_connection::resolved_ids(failed@)
                    == Seq::<i64>::empty());
                assert(Seq::<i64>::empty().to_set() == Set::<i64>::empty());
                failed
            },
        }
    }

    /// Adds `topic_id` to the topics that every new connection declares.
    /// Declaring a topic again changes nothing.
    pub fn create_topic_if_not_exists(&mut self, topic_id: String)
        requires
            old(self).wf(),
        ensures
            final(self).wf(),
            final(self)@ == old(self)@.declare_topic(topic_id@),
    {
        let mut i: usize = 0;
        while i < self.topics_to_create.len()
            invariant
                i <= self.topics_to_create@.len(),
                *self == *old(self),
                self.wf(),
                forall|j: int|
                    0 <= j < i ==> (#[trigger] text_views(self.topics_to_create@)[j]) != topic_id@,
            decreases self.topics_to_create@.len() - i,
        {
            if self.topics_to_create[i] == topic_id {
                assert(text_views(self.topics_to_create@)[i as int] == topic_id@);
                return ;
            }
            i += 1;
        }
        assert(!text_views(self.topics_to_create@).contains(topic_id@));
        let ghost before = self.topics_to_create@;
        self.topics_to_create.push(topic_id);
        assert(text_views(self.topics_to_create@) == text_views(before).push(topic_id@));
    }

    /// The declared topics, in the order of declaration.
    pub fn get_topics_to_create(&self) -> (topics: Vec<String>)
        ensures
            text_views(topics@) == self@.topics,
    {
        let mut topics: Vec<String> = Vec::new();
        let mut i: usize = 0;
        while i < self.topics_to_create.len()
            invariant
                i <= self.topics_to_create@.len(),
                text_views(topics@) == text_views(self.topics_to_create@).take(i as int),
            decreases self.topics_to_create@.len() - i,
        {
            let ghost before = topics@;
            topics.push(self.topics_to_create[i].clone());
            assert(text_views(topics@) == text_views(before).push(self.topics_to_create@[i as int]@));
            assert(text_views(self.topics_to_create@).take(i as int + 1) == text_views(
                self.topics_to_create@,
            ).take(i as int).push(self.topics_to_create@[i as int]@));
            i += 1;
        }
        assert(text_views(self.topics_to_create@).take(self.topics_to_create@.len() as int)
            == text_views(self.topics_to_create@));
        topics
    }
}

} // verus!
