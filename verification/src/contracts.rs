use std::collections::HashMap;
use vstd::prelude::*;

verus! {

/// Version of the wire protocol that this client announces in its greeting.
pub const PROTOCOL_VERSION: i32 = 3;

/// Version of the new-messages packet that this client asks the broker to use.
pub const NEW_MESSAGES_PACKET_VERSION: i32 = 1;

/// Identifier that the broker gives to a message.
pub type MessageId = i64;

/// Identifier of one transport session. Each successful connect gets the next
/// one; none is used twice.
pub type ConnectionId = i64;

/// The kinds of protocol message whose encoding is versioned per connection.
#[derive(Clone, Copy, Debug, PartialEq, Eq, Structural)]
pub enum TcpMessageType {
    Ping,
    Greeting,
    PacketVersions,
    CreateTopicIfNotExists,
    Subscribe,
    Publish,
    PublishResponse,
    NewMessages,
    NewMessagesConfirmation,
    AllMessagesConfirmedAsFail,
    ConfirmSomeMessagesAsOk,
    ConfirmMessagesByNotDelivery,
}

/// How the broker is to treat a queue; the client only carries the choice.
#[derive(Clone, Copy, Debug, PartialEq, Eq, Structural)]
pub enum TopicQueueType {
    Permanent,
    DeleteOnDisconnect,
    PermanentWithSingleConnection,
}

/// A closed range of message ids, `from_id..=to_id`.
#[derive(Clone, Copy, Debug, PartialEq, Eq, Structural)]
pub struct QueueIndexRange {
    pub from_id: i64,
    pub to_id: i64,
}

/// One message handed to the publisher.
#[derive(Clone, Debug, PartialEq, Eq)]
pub struct MessageToPublish {
    pub headers: Option<HashMap<String, String>>,
    pub content: Vec<u8>,
}

impl MessageToPublish {
    /// A message without headers.
    pub fn new(content: Vec<u8>) -> (message: Self)
        ensures
            message.headers is None,
            message.content == content,
    {
        Self { headers: None, content }
    }

    /// A message that carries the given headers.
    pub fn new_with_headers(content: Vec<u8>, headers: HashMap<String, String>) -> (message: Self)
        ensures
            message.headers == Some(headers),
            message.content == content,
    {
        Self { headers: Some(headers), content }
    }
}

/// One message of an inbound delivery.
#[derive(Clone, Debug, PartialEq, Eq)]
pub struct MySbDeliveredMessage {
    pub id: MessageId,
    pub attempt_no: i32,
    pub headers: Option<HashMap<String, String>>,
    pub content: Vec<u8>,
}

/// The protocol messages that the session engine produces and consumes. How
/// each is laid out in bytes is the codec's business.
#[derive(Clone, Debug, PartialEq, Eq)]
pub enum TcpContract {
    Ping,
    Greeting { name: String, protocol_version: i32 },
    PacketVersions { packet_versions: Vec<(TcpMessageType, i32)> },
    CreateTopicIfNotExists { topic_id: String },
    Subscribe { topic_id: String, queue_id: String, queue_type: TopicQueueType },
    Publish {
        topic_id: String,
        request_id: i64,
        persist_immediately: bool,
        data_to_publish: Vec<MessageToPublish>,
    },
    PublishResponse { request_id: i64 },
    NewMessages {
        topic_id: String,
        queue_id: String,
        confirmation_id: i64,
        messages: Vec<MySbDeliveredMessage>,
    },
    NewMessagesConfirmation { topic_id: String, queue_id: String, confirmation_id: i64 },
    AllMessagesConfirmedAsFail { topic_id: String, queue_id: String, confirmation_id: i64 },
    ConfirmSomeMessagesAsOk {
        packet_version: u8,
        topic_id: String,
        queue_id: String,
        confirmation_id: i64,
        delivered: Vec<QueueIndexRange>,
    },
    ConfirmMessagesByNotDelivery {
        packet_version: u8,
        topic_id: String,
        queue_id: String,
        confirmation_id: i64,
        not_delivered: Vec<QueueIndexRange>,
    },
}

/// The mathematical value of a [`TcpContract`]: texts are sequences of
/// characters, lists are sequences, messages stay as they are.
pub enum TcpContractView {
    Ping,
    Greeting { name: Seq<char>, protocol_version: i32 },
    PacketVersions { packet_versions: Seq<(TcpMessageType, i32)> },
    CreateTopicIfNotExists { topic_id: Seq<char> },
    Subscribe { topic_id: Seq<char>, queue_id: Seq<char>, queue_type: TopicQueueType },
    Publish {
        topic_id: Seq<char>,
        request_id: i64,
        persist_immediately: bool,
        data_to_publish: Seq<MessageToPublish>,
    },
    PublishResponse { request_id: i64 },
    NewMessages {
        topic_id: Seq<char>,
        queue_id: Seq<char>,
        confirmation_id: i64,
        messages: Seq<MySbDeliveredMessage>,
    },
    NewMessagesConfirmation { topic_id: Seq<char>, queue_id: Seq<char>, confirmation_id: i64 },
    AllMessagesConfirmedAsFail { topic_id: Seq<char>, queue_id: Seq<char>, confirmation_id: i64 },
    ConfirmSomeMessagesAsOk {
        packet_version: u8,
        topic_id: Seq<char>,
        queue_id: Seq<char>,
        confirmation_id: i64,
        delivered: Seq<QueueIndexRange>,
    },
    ConfirmMessagesByNotDelivery {
        packet_version: u8,
        topic_id: Seq<char>,
        queue_id: Seq<char>,
        confirmation_id: i64,
        not_delivered: Seq<QueueIndexRange>,
    },
}

impl View for TcpContract {
    type V = TcpContractView;

    open spec fn view(&self) -> TcpContractView {
        match self {
            TcpContract::Ping => TcpContractView::Ping,
            TcpContract::Greeting { name, protocol_version } => TcpContractView::Greeting {
                name: name@,
                protocol_version: *protocol_version,
            },
            TcpContract::PacketVersions { packet_versions } => TcpContractView::PacketVersions {
                packet_versions: packet_versions@,
            },
            TcpContract::CreateTopicIfNotExists { topic_id } => {
                TcpContractView::CreateTopicIfNotExists { topic_id: topic_id@ }
            },
            TcpContract::Subscribe { topic_id, queue_id, queue_type } => TcpContractView::Subscribe {
                topic_id: topic_id@,
                queue_id: queue_id@,
                queue_type: *queue_type,
            },
            TcpContract::Publish { topic_id, request_id, persist_immediately, data_to_publish } => {
                TcpContractView::Publish {
                    topic_id: topic_id@,
                    request_id: *request_id,
                    persist_immediately: *persist_immediately,
                    data_to_publish: data_to_publish@,
                }
            },
            TcpContract::PublishResponse { request_id } => TcpContractView::PublishResponse {
                request_id: *request_id,
            },
            TcpContract::NewMessages { topic_id, queue_id, confirmation_id, messages } => {
                TcpContractView::NewMessages {
                    topic_id: topic_id@,
                    queue_id: queue_id@,
                    confirmation_id: *confirmation_id,
                    messages: messages@,
                }
            },
            TcpContract::NewMessagesConfirmation { topic_id, queue_id, confirmation_id } => {
                TcpContractView::NewMessagesConfirmation {
                    topic_id: topic_id@,
                    queue_id: queue_id@,
                    confirmation_id: *confirmation_id,
                }
            },
            TcpContract::AllMessagesConfirmedAsFail { topic_id, queue_id, confirmation_id } => {
                TcpContractView::AllMessagesConfirmedAsFail {
                    topic_id: topic_id@,
                    queue_id: queue_id@,
                    confirmation_id: *confirmation_id,
                }
            },
            TcpContract::ConfirmSomeMessagesAsOk {
                packet_version,
                topic_id,
                queue_id,
                confirmation_id,
                delivered,
            } => TcpContractView::ConfirmSomeMessagesAsOk {
                packet_version: *packet_version,
                topic_id: topic_id@,
                queue_id: queue_id@,
                confirmation_id: *confirmation_id,
                delivered: delivered@,
            },
            TcpContract::ConfirmMessagesByNotDelivery {
                packet_version,
                topic_id,
                queue_id,
                confirmation_id,
                not_delivered,
            } => TcpContractView::ConfirmMessagesByNotDelivery {
                packet_version: *packet_version,
                topic_id: topic_id@,
                queue_id: queue_id@,
                confirmation_id: *confirmation_id,
                not_delivered: not_delivered@,
            },
        }
    }
}

/// The values of a list of protocol messages, in order.
pub open spec fn contract_views(packets: Seq<TcpContract>) -> Seq<TcpContractView> {
    packets.map_values(|packet: TcpContract| packet@)
}

/// The packet-version table of a connection: the protocol version and, per
/// kind of message, the version of its encoding. It is fixed when the
/// connection starts.
#[derive(Clone, Debug)]
pub struct ConnectionAttributes {
    protocol_version: i32,
    versions: Vec<(TcpMessageType, i32)>,
}

/// The table that a list of records stands for: a later record for a kind
/// replaces an earlier one.
pub open spec fn versions_of(records: Seq<(TcpMessageType, i32)>) -> Map<TcpMessageType, i32>
    decreases records.len(),
{
    if records.len() == 0 {
        Map::empty()
    } else {
        versions_of(records.drop_last()).insert(records.last().0, records.last().1)
    }
}

impl ConnectionAttributes {
    /// The protocol version that the table was made for.
    pub closed spec fn spec_protocol_version(self) -> i32 {
        self.protocol_version
    }

    /// The version of each kind of packet that has one.
    pub closed spec fn versions(self) -> Map<TcpMessageType, i32> {
        versions_of(self.versions@)
    }

    /// A table for `protocol_version` in which no packet has a version yet.
    pub fn new(protocol_version: i32) -> (attr: Self)
        ensures
            attr.spec_protocol_version() == protocol_version,
            attr.versions() == Map::<TcpMessageType, i32>::empty(),
    {
        Self { protocol_version, versions: Vec::new() }
    }

    /// The protocol version that the table was made for.
    pub fn protocol_version(&self) -> (version: i32)
        ensures
            version == self.spec_protocol_version(),
    {
        self.protocol_version
    }

    /// Records `version` for `kind`, replacing an earlier record for it.
    pub fn set_packet_version(&mut self, kind: TcpMessageType, version: i32)
        ensures
            final(self).spec_protocol_version() == old(self).spec_protocol_version(),
            final(self).versions() == old(self).versions().insert(kind, version),
    {
        self.versions.push((kind, version));
        assert(self.versions@.drop_last() == old(self).versions@);
    }

    /// Looks up the version recorded for `kind`.
    pub fn get_packet_version(&self, kind: TcpMessageType) -> (version: Option<i32>)
        ensures
            version == (if self.versions().contains_key(kind) {
                Some(self.versions()[kind])
            } else {
                None
            }),
    {
        let mut i: usize = self.versions.len();
        assert(self.versions@.take(i as int) == self.versions@);
        while i > 0
            invariant
                i <= self.versions@.len(),
                versions_of(self.versions@).contains_key(kind) == versions_of(
                    self.versions@.take(i as int),
                ).contains_key(kind),
                versions_of(self.versions@).contains_key(kind) ==> versions_of(
                    self.versions@,
                )[kind] == versions_of(self.versions@.take(i as int))[kind],
            decreases i,
        {
            let ghost prefix = self.versions@.take(i as int);
            assert(prefix.drop_last() == self.versions@.take(i as int - 1));
            assert(prefix.last() == self.versions@[i as int - 1]);
            i -= 1;
            if self.versions[i].0 == kind {
                return Some(self.versions[i].1);
            }
        }
        assert(self.versions@.take(0).len() == 0);
        None
    }
}

/// The table that every connection of this client is opened with.
pub fn get_connection_attrs() -> (attr: ConnectionAttributes)
    ensures
        attr.spec_protocol_version() == PROTOCOL_VERSION,
        attr.versions() == Map::<TcpMessageType, i32>::empty().insert(
            TcpMessageType::NewMessages,
            NEW_MESSAGES_PACKET_VERSION,
        ),
{
    let mut attr = ConnectionAttributes::new(PROTOCOL_VERSION);
    attr.set_packet_version(TcpMessageType::NewMessages, NEW_MESSAGES_PACKET_VERSION);
    attr
}

} // verus!
