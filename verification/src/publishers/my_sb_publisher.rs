use crate::contracts::{
    contract_views,
    ConnectionId,
    MessageToPublish,
    TcpContract,
    TcpContractView,
};
use crate::publishers::my_sb_publisher_data::{text_views, MySbPublisherData, PublisherState};
use crate::publishers::publish_error::PublishError;
use crate::publishers::publish_process_by_connection::{fails_all_pending, ResolvedPublish};
use crate::task_completion::{CompletionState, TaskError, TaskEvent};
use crate::tcp::socket_ctx::SocketError;
use vstd::prelude::*;

verus! {

/// What the caller of a publish does next.
#[derive(Debug, PartialEq, Eq)]
pub enum PublishStep {
    /// Write the request's packet to this connection, then wait until the
    /// request is resolved and report how.
    Send { connection_id: ConnectionId, request_id: i64 },
    /// Wait until there is a connection again, then attempt once more.
    WaitForConnection,
    /// The publish call returns this.
    Done(Result<(), PublishError>),
}

/// The mathematical value of a [`PublishRequest`].
pub struct PublishRequestState {
    pub request_id: i64,
    pub topic_id: Seq<char>,
    pub messages: Seq<MessageToPublish>,
    pub do_retries: bool,
    /// Whether the packet was handed out for writing under `request_id`.
    pub transmitted: bool,
}

impl PublishRequestState {
    /// The packet that carries the request.
    pub open spec fn packet(self) -> TcpContractView {
        TcpContractView::Publish {
            topic_id: self.topic_id,
            request_id: self.request_id,
            persist_immediately: false,
            data_to_publish: self.messages,
        }
    }

    /// The id under which the next attempt goes out, while `last_issued` is
    /// the id that the engine issued last: a request that was never handed
    /// out keeps its id, one that was gets a new one.
    pub open spec fn next_attempt_id(self, last_issued: i64) -> i64 {
        if self.transmitted {
            (last_issued + 1) as i64
        } else {
            self.request_id
        }
    }
}

impl PublishRequestState {
    /// The request of a publish call that `engine` has just started.
    pub open spec fn begun(
        engine: PublisherState,
        topic_id: Seq<char>,
        messages: Seq<MessageToPublish>,
        do_retries: bool,
    ) -> Self {
        PublishRequestState {
            request_id: (engine.request_id + 1) as i64,
            topic_id,
            messages,
            do_retries,
            transmitted: false,
        }
    }

    /// The request after an attempt on `engine`: without a connection it is
    /// unchanged, with one it was handed out under the id of the attempt.
    pub open spec fn after_attempt(self, engine: PublisherState) -> Self {
        match engine.connection {
            None => self,
            Some(_) => PublishRequestState {
                request_id: self.next_attempt_id(engine.request_id),
                transmitted: true,
                ..self
            },
        }
    }

    /// What the caller does after an attempt on `engine`: without a
    /// connection the retry policy decides, with one the packet is written
    /// to it.
    pub open spec fn attempt_step(self, engine: PublisherState) -> PublishStep {
        match engine.connection {
            None => step_after(self.do_retries, Err(PublishError::NoConnectionToPublish)),
            Some(connection) => PublishStep::Send {
                connection_id: connection.connection_id,
                request_id: self.next_attempt_id(engine.request_id),
            },
        }
    }

    /// The engine after an attempt for this request: without a connection it
    /// is unchanged, with one the request waits on it under the id of the
    /// attempt.
    pub open spec fn engine_after_attempt(self, engine: PublisherState) -> PublisherState {
        match engine.connection {
            None => engine,
            Some(_) => (if self.transmitted {
                engine.issue_request_id()
            } else {
                engine
            }).register(self.next_attempt_id(engine.request_id)),
        }
    }
}

/// The error that a publish call ends with when its packet could not be
/// written. A connection that was torn down or replaced before the write
/// counts as lost; a write that the transport failed is reported with its
/// reason.
pub open spec fn error_of_write(error: SocketError) -> PublishError {
    match error {
        SocketError::Disconnected { socket_id } => PublishError::Disconnected,
        SocketError::WriteFailed { socket_id, reason } => PublishError::Other(reason),
    }
}

/// How an attempt ended whose packet was written, by what the waiter of the
/// request was told. A result that was set is passed on. A cell that was
/// abandoned, or whose outcome was taken before, means that the bookkeeping
/// of the connection is gone: the connection counts as lost.
pub open spec fn result_of_waiting(outcome: Result<(), TaskError<PublishError>>) -> Result<
    (),
    PublishError,
> {
    match outcome {
        Ok(_) => Ok(()),
        Err(TaskError::Error(error)) => Err(error),
        Err(TaskError::FatalError(_)) => Err(PublishError::Disconnected),
    }
}

/// How an attempt ended, by how the write of its packet ended and, if the
/// packet was written, by what the waiter of the request was told.
pub open spec fn result_of_attempt(
    write_result: Result<(), SocketError>,
    outcome: Result<(), TaskError<PublishError>>,
) -> Result<(), PublishError> {
    match write_result {
        Ok(_) => result_of_waiting(outcome),
        Err(error) => Err(error_of_write(error)),
    }
}

/// One publish call in progress: its packet and what the retry policy needs.
pub struct PublishRequest {
    request_id: i64,
    packet: TcpContract,
    do_retries: bool,
    transmitted: bool,
}

impl View for PublishRequest {
    type V = PublishRequestState;

    closed spec fn view(&self) -> PublishRequestState {
        PublishRequestState {
            request_id: self.request_id,
            topic_id: self.packet@->Publish_topic_id,
            messages: self.packet@->Publish_data_to_publish,
            do_retries: self.do_retries,
            transmitted: self.transmitted,
        }
    }
}

impl PublishRequest {
    /// The packet is a publish packet under the request's id.
    pub closed spec fn wf(self) -> bool {
        self.packet@ == self@.packet()
    }

    /// The request id under which the packet goes out.
    pub fn request_id(&self) -> (request_id: i64)
        ensures
            request_id == self@.request_id,
    {
        self.request_id
    }

    /// The packet to write.
    pub fn packet(&self) -> (packet: &TcpContract)
        requires
            self.wf(),
        ensures
            packet@ == self@.packet(),
    {
        &self.packet
    }

    /// Whether the caller asked for retries.
    pub fn do_retries(&self) -> (do_retries: bool)
        ensures
            do_retries == self@.do_retries,
    {
        self.do_retries
    }
}

/// What follows from the way an attempt ended. Success ends the call. An
/// error ends it too, unless the caller asked for retries and the error is one
/// that a lost or missing connection produces: then the call waits for a
/// connection.
pub open spec fn step_after(do_retries: bool, result: Result<(), PublishError>) -> PublishStep {
    match result {
        Ok(_) => PublishStep::Done(result),
        Err(error) => if do_retries && error.is_retryable() {
            PublishStep::WaitForConnection
        } else {
            PublishStep::Done(result)
        },
    }
}

/// What a new connection has to be told and what it ends.
pub struct NewConnection {
    /// The requests that waited on the connection that was replaced.
    pub failed: Vec<ResolvedPublish>,
    /// One declaration for each declared topic.
    pub declarations: Vec<TcpContract>,
}

/// The declaration packets for `topics`, one for each, in order.
pub open spec fn topic_declarations(topics: Seq<Seq<char>>) -> Seq<TcpContractView> {
    topics.map_values(|topic_id: Seq<char>| TcpContractView::CreateTopicIfNotExists { topic_id })
}

/// The publisher engine: request ids, pending requests, declared topics and
/// the retry policy of a publish call.
pub struct MySbPublishers {
    data: MySbPublisherData,
}

impl View for MySbPublishers {
    type V = PublisherState;

    closed spec fn view(&self) -> PublisherState {
        self.data@
    }
}

impl MySbPublishers {
    /// The engine's data is well formed.
    pub closed spec fn wf(self) -> bool {
        self.data.wf()
    }

    /// What well-formedness says of the state: request ids are never
    /// negative, no topic is declared twice, and finitely many requests wait.
    pub proof fn lemma_wf_state(self)
        requires
            self.wf(),
        ensures
            self@.request_id >= 0,
            self@.topics.no_duplicates(),
            self@.pending().finite(),
    {
        self.data.lemma_wf_state();
    }

    /// An engine without a connection, a topic or a request.
    pub fn new() -> (publishers: Self)
        ensures
            publishers.wf(),
            publishers@ == PublisherState::initial(),
    {
        Self { data: MySbPublisherData::new() }
    }

    /// Whether there is a current connection. A publish call that waits for
    /// a connection asks this until the answer is yes.
    pub fn has_connection(&self) -> (connected: bool)
        ensures
            connected == self@.connection is Some,
    {
        self.data.has_connection()
    }

    /// Whether `request_id` waits for an answer.
    pub fn is_pending(&self, request_id: i64) -> (pending: bool)
        ensures
            pending == self@.pending().contains(request_id),
    {
        self.data.is_pending(request_id)
    }

    /// How many requests wait for an answer.
    pub fn pending_count(&self) -> (count: usize)
        ensures
            count == self@.pending().len(),
    {
        self.data.pending_count()
    }

    /// Whether the counter can still give a request id.
    pub fn can_issue_request_id(&self) -> (possible: bool)
        ensures
            possible == (self@.request_id < i64::MAX),
    {
        self.data.can_issue_request_id()
    }

    /// Handles the broker's answer to `request_id`: the request leaves the
    /// pending set, completed with success. An answer that no request waits
    /// for changes nothing.
    pub fn set_confirmed(&mut self, request_id: i64) -> (resolved: Option<ResolvedPublish>)
        requires
            old(self).wf(),
        ensures
            final(self).wf(),
            final(self)@ == old(self)@.confirm(request_id),
            old(self)@.pending().contains(request_id) <==> resolved is Some,
            resolved matches Some(r) ==> r.request_id == request_id && r.completion@
                == CompletionState::Completed(TaskEvent::<(), PublishError>::Success(())),
    {
        self.data.confirm(request_id)
    }

    /// Makes `connection_id` the current connection. The requests that waited
    /// on the connection it replaces are failed as disconnected, and the new
    /// connection gets one declaration for each declared topic, whatever
    /// earlier connections were told.
    pub fn new_connection(&mut self, connection_id: ConnectionId) -> (started: NewConnection)
        requires
            old(self).wf(),
        ensures
            final(self).wf(),
            final(self)@ == old(self)@.connect(connection_id),
            fails_all_pending(started.failed@, old(self)@.pending()),
            contract_views(started.declarations@) == topic_declarations(old(self)@.topics),
    {
        let failed = self.data.connect(connection_id);
        let topics = self.data.get_topics_to_create();
        let declarations = declare_topics(topics);
        NewConnection { failed, declarations }
    }

    /// Forgets the current connection. Every request that waited on it is
    /// failed as disconnected and handed back.
    pub fn disconnect(&mut self) -> (failed: Vec<ResolvedPublish>)
        requires
            old(self).wf(),
        ensures
            final(self).wf(),
            final(self)@ == old(self)@.disconnect(),
            fails_all_pending(failed@, old(self)@.pending()),
    {
        self.data.disconnect()
    }

    /// Adds `topic_id` to the topics that every new connection declares.
    /// Declaring a topic again changes nothing.
    pub fn create_topic_if_not_exists(&mut self, topic_id: String)
        requires
            old(self).wf(),
        ensures
            final(self).wf(),
            final(self)@ == old(self)@.declare_topic(topic_id@),
    {
        self.data.create_topic_if_not_exists(topic_id)
    }

    /// The declared topics, in the order of declaration.
    pub fn get_topics_to_create(&self) -> (topics: Vec<String>)
        ensures
            text_views(topics@) == self@.topics,
    {
        self.data.get_topics_to_create()
    }

    /// Starts a publish call: gives it the next request id and builds its
    /// packet. Nothing is registered or handed out yet.
    pub fn begin_publish(
        &mut self,
        topic_id: &str,
        messages: Vec<MessageToPublish>,
        do_retries: bool,
    ) -> (request: PublishRequest)
        requires
            old(self).wf(),
            old(self)@.request_id < i64::MAX,
        ensures
            final(self).wf(),
            final(self)@ == old(self)@.issue_request_id(),
            request.wf(),
            request@ == PublishRequestState::begun(old(self)@, topic_id@, messages@, do_retries),
    {
        let (request_id, packet) = self.data.compile_publish_payload(topic_id, messages);
        PublishRequest { request_id, packet, do_retries, transmitted: false }
    }

    /// Makes one attempt to send `request`.
    ///
    /// Without a connection nothing changes, and the retry policy decides:
    /// the call waits if retries were asked for, and else ends with
    /// `NoConnectionToPublish`. With a connection the request is registered
    /// as waiting on it and its packet is to be written. A request whose
    /// packet was handed out before goes out under a new id.
    pub fn publish_attempt(&mut self, request: &mut PublishRequest) -> (step: PublishStep)
        requires
            old(self).wf(),
            old(request).wf(),
            old(request)@.transmitted ==> old(self)@.request_id < i64::MAX,
        ensures
            final(self).wf(),
            final(request).wf(),
            final(request)@ == old(request)@.after_attempt(old(self)@),
            final(self)@ == old(request)@.engine_after_attempt(old(self)@),
            step == old(request)@.attempt_step(old(self)@),
    {
        if !self.data.has_connection() {
            return publish_result(request.do_retries, Err(PublishError::NoConnectionToPublish));
        }
        if request.transmitted {
            let request_id = self.data.get_next_request_id();
            request.request_id = request_id;
            match &mut request.packet {
                TcpContract::Publish { request_id: packet_request_id, .. } => {
                    *packet_request_id = request_id;
                },
                _ => {},
            }
        }
        request.transmitted = true;
        match self.data.publish_to_socket(request.request_id) {
            Ok(connection_id) => PublishStep::Send { connection_id, request_id: request.request_id },
            Err(error) => PublishStep::Done(Err(error)),
        }
    }

    /// Publishes `messages` to `topic_id`: starts the call and makes its first
    /// attempt.
    pub fn publish_messages(
        &mut self,
        topic_id: &str,
        messages: Vec<MessageToPublish>,
        do_retries: bool,
    ) -> (started: (PublishRequest, PublishStep))
        requires
            old(self).wf(),
            old(self)@.request_id < i64::MAX,
        ensures
            final(self).wf(),
            started.0.wf(),
            started.0@.request_id == old(self)@.request_id + 1,
            started.0@.topic_id == topic_id@,
            started.0@.messages == messages@,
            started.0@.do_retries == do_retries,
            match old(self)@.connection {
                None => {
                    &&& final(self)@ == old(self)@.issue_request_id()
                    &&& !started.0@.transmitted
                    &&& started.1 == step_after(do_retries, Err(PublishError::NoConnectionToPublish))
                },
                Some(connection) => {
                    &&& final(self)@ == old(self)@.issue_request_id().register(
                        started.0@.request_id,
                    )
                    &&& started.0@.transmitted
                    &&& started.1 == (PublishStep::Send {
                        connection_id: connection.connection_id,
                        request_id: started.0@.request_id,
                    })
                },
            },
    {
        let mut request = self.begin_publish(topic_id, messages, do_retries);
        let step = self.publish_attempt(&mut request);
        (request, step)
    }

    /// Publishes one message to `topic_id`.
    pub fn publish_message(&mut self, topic_id: &str, message: MessageToPublish, do_retries: bool) -> (started:
        (PublishRequest, PublishStep))
        requires
            old(self).wf(),
            old(self)@.request_id < i64::MAX,
        ensures
            final(self).wf(),
            started.0.wf(),
            started.0@.request_id == old(self)@.request_id + 1,
            started.0@.topic_id == topic_id@,
            started.0@.messages == seq![message],
            started.0@.do_retries == do_retries,
            match old(self)@.connection {
                None => {
                    &&& final(self)@ == old(self)@.issue_request_id()
                    &&& !started.0@.transmitted
                    &&& started.1 == step_after(do_retries, Err(PublishError::NoConnectionToPublish))
                },
                Some(connection) => {
                    &&& final(self)@ == old(self)@.issue_request_id().register(
                        started.0@.request_id,
                    )
                    &&& started.0@.transmitted
                    &&& started.1 == (PublishStep::Send {
                        connection_id: connection.connection_id,
                        request_id: started.0@.request_id,
                    })
                },
            },
    {
        let mut messages: Vec<MessageToPublish> = Vec::new();
        messages.push(message);
        assert(messages@ == seq![message]);
        self.publish_messages(topic_id, messages, do_retries)
    }
}

/// Decides what a publish call does after an attempt ended with `result`:
/// the answer of the broker, the loss of the connection, or an error of the
/// write or of the codec.
pub fn publish_result(do_retries: bool, result: Result<(), PublishError>) -> (step: PublishStep)
    ensures
        step == step_after(do_retries, result),
{
    let retry = match &result {
        Ok(_) => false,
        Err(error) => do_retries && error.can_retry(),
    };
    if retry {
        PublishStep::WaitForConnection
    } else {
        PublishStep::Done(result)
    }
}

/// Tells the error that a publish call ends with when its packet could not
/// be written.
pub fn write_failed(error: SocketError) -> (publish_error: PublishError)
    ensures
        publish_error == error_of_write(error),
{
    match error {
        SocketError::Disconnected { socket_id: _ } => PublishError::Disconnected,
        SocketError::WriteFailed { socket_id: _, reason } => PublishError::Other(reason),
    }
}

/// Tells how an attempt ended whose packet was written, from what the waiter
/// of the request was told.
pub fn waited(outcome: Result<(), TaskError<PublishError>>) -> (result: Result<(), PublishError>)
    ensures
        result == result_of_waiting(outcome),
{
    match outcome {
        Ok(_) => Ok(()),
        Err(TaskError::Error(error)) => Err(error),
        Err(TaskError::FatalError(_)) => Err(PublishError::Disconnected),
    }
}

/// Builds the declaration packets for `topics`, one for each, in order.
pub fn declare_topics(topics: Vec<String>) -> (packets: Vec<TcpContract>)
    ensures
        contract_views(packets@) == topic_declarations(text_views(topics@)),
{
    let mut packets: Vec<TcpContract> = Vec::new();
    let mut i: usize = 0;
    while i < topics.len()
        invariant
            i <= topics@.len(),
            contract_views(packets@) == topic_declarations(text_views(topics@)).take(i as int),
        decreases topics@.len() - i,
    {
        let ghost before = packets@;
        let packet = TcpContract::CreateTopicIfNotExists { topic_id: topics[i].clone() };
        packets.push(packet);
        assert(contract_views(packets@) == contract_views(before).push(packet@));
        assert(topic_declarations(text_views(topics@)).take(i as int + 1) == topic_declarations(
            text_views(topics@),
        ).take(i as int).push(packet@));
        i += 1;
    }
    assert(topic_declarations(text_views(topics@)).take(topics@.len() as int)
        == topic_declarations(text_views(topics@)));
    packets
}

/// Every connection is told of each declared topic once: the declarations
/// are as many as the topics, the declaration at each place is that of the
/// topic at that place, and no two of them name the same topic.
pub proof fn lemma_one_declaration_per_topic(topics: Seq<Seq<char>>)
    requires
        topics.no_duplicates(),
    ensures
        topic_declarations(topics).len() == topics.len(),
        forall|i: int|
            0 <= i < topics.len() ==> #[trigger] topic_declarations(topics)[i] == (
            TcpContractView::CreateTopicIfNotExists { topic_id: topics[i] }),
        topic_declarations(topics).no_duplicates(),
{
    assert forall|i: int, j: int|
        0 <= i < topic_declarations(topics).len() && 0 <= j < topic_declarations(topics).len() && i
            != j implies topic_declarations(topics)[i] != topic_declarations(topics)[j] by {
        assert(topics[i] != topics[j]);
    }
}

/// A publish call that finds no connection and may retry waits, and is not
/// told of the missing connection. Once a connection is there, its next
/// attempt hands out one publish packet, for its topic and with its
/// messages, to that connection, and the request waits on it. When the
/// broker answers that request, the request waits no more, its waiter is
/// told of the success, and the call ends with it. The same call without
/// retries ends at once with `NoConnectionToPublish`, and nothing waits.
pub proof fn lemma_publish_waits_for_connection(
    engine: PublisherState,
    topic_id: Seq<char>,
    messages: Seq<MessageToPublish>,
    connection_id: ConnectionId,
)
    requires
        engine.connection is None,
    ensures
        ({
            let started = engine.issue_request_id();
            let request = PublishRequestState::begun(engine, topic_id, messages, true);
            let single = PublishRequestState::begun(engine, topic_id, messages, false);
            let connected = started.connect(connection_id);
            let sent = request.after_attempt(connected);
            let waiting = request.engine_after_attempt(connected);
            &&& request.attempt_step(started) == PublishStep::WaitForConnection
            &&& request.after_attempt(started) == request
            &&& request.engine_after_attempt(started) == started
            &&& started.pending() == Set::<i64>::empty()
            &&& single.attempt_step(started) == PublishStep::Done(
                Err(PublishError::NoConnectionToPublish),
            )
            &&& single.engine_after_attempt(started) == started
            &&& request.attempt_step(connected) == (PublishStep::Send {
                connection_id,
                request_id: request.request_id,
            })
            &&& sent.packet() == (TcpContractView::Publish {
                topic_id,
                request_id: request.request_id,
                persist_immediately: false,
                data_to_publish: messages,
            })
            &&& waiting.pending() == Set::<i64>::empty().insert(request.request_id)
            &&& waiting.confirm(request.request_id).pending() == Set::<i64>::empty()
            &&& step_after(true, result_of_attempt(Ok(()), Ok(()))) == PublishStep::Done(Ok(()))
        }),
{
    let started = engine.issue_request_id();
    let request = PublishRequestState::begun(engine, topic_id, messages, true);
    let connected = started.connect(connection_id);
    let waiting = request.engine_after_attempt(connected);
    assert(waiting.pending() =~= Set::<i64>::empty().insert(request.request_id));
    assert(waiting.confirm(request.request_id).pending() =~= Set::<i64>::empty());
}

/// A request whose connection is lost, whether before its packet is
/// written or while it waits for the answer, ends as `Disconnected`, which
/// the retry policy covers. A write that the transport fails ends the call
/// with the reason, retries or not.
pub proof fn lemma_lost_connection_is_retried(
    do_retries: bool,
    socket_id: ConnectionId,
    reason: String,
    outcome: Result<(), TaskError<PublishError>>,
)
    ensures
        result_of_attempt(Err(SocketError::Disconnected { socket_id }), outcome) == Err::<
            (),
            PublishError,
        >(PublishError::Disconnected),
        result_of_attempt(Ok(()), Err(TaskError::Error(PublishError::Disconnected))) == Err::<
            (),
            PublishError,
        >(PublishError::Disconnected),
        step_after(true, Err(PublishError::Disconnected)) == PublishStep::WaitForConnection,
        step_after(
            do_retries,
            result_of_attempt(Err(SocketError::WriteFailed { socket_id, reason }), outcome),
        ) == PublishStep::Done(Err(PublishError::Other(reason))),
{
}

/// A publish call without a connection ends at once with
/// `NoConnectionToPublish` when no retries were asked for, and waits for a
/// connection when they were. After an attempt, only the loss of the
/// connection leads to another one, and only if retries were asked for.
pub proof fn lemma_retry_policy(do_retries: bool, detail: String)
    ensures
        step_after(false, Err(PublishError::NoConnectionToPublish)) == PublishStep::Done(
            Err(PublishError::NoConnectionToPublish),
        ),
        step_after(true, Err(PublishError::NoConnectionToPublish)) == PublishStep::WaitForConnection,
        step_after(true, Err(PublishError::Disconnected)) == PublishStep::WaitForConnection,
        step_after(false, Err(PublishError::Disconnected)) == PublishStep::Done(
            Err(PublishError::Disconnected),
        ),
        step_after(do_retries, Ok(())) == PublishStep::Done(Ok(())),
        step_after(do_retries, Err(PublishError::Other(detail))) == PublishStep::Done(
            Err(PublishError::Other(detail)),
        ),
        step_after(do_retries, Err(PublishError::SerializationError(detail))) == PublishStep::Done(
            Err(PublishError::SerializationError(detail)),
        ),
{
}

} // verus!
