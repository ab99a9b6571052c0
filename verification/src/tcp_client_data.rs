use crate::contracts::{contract_views, ConnectionId, TcpContract, TcpContractView};
use crate::publishers::my_sb_publisher::{topic_declarations, MySbPublishers};
use crate::publishers::my_sb_publisher_data::PublisherState;
use crate::publishers::publish_error::PublishError;
use crate::publishers::publish_process_by_connection::{fails_all_pending, ResolvedPublish};
use crate::subscribers::messages_delivery::DeliveryBatch;
use crate::subscribers::my_sb_subscribers::{MySbSubscribers, NewDelivery};
use crate::subscribers::my_sb_subscribers_data::{subscribe_packets, SubscribersState};
use crate::task_completion::{CompletionState, TaskEvent};
use crate::tcp::new_connection_handler::{handshake, send_init};
use crate::tcp_client::my_sb_client::TcpEvent;
use vstd::prelude::*;

verus! {

/// What a packet from the broker leads to.
pub enum IncomingData<'a, C> {
    /// The broker answered a publish request. The request that waited for
    /// the answer is handed over, completed; `None` if none waited.
    PublishConfirmed(Option<ResolvedPublish>),
    /// The broker delivered messages. With a subscription the delivery is
    /// handed over for its callback; `None` if there is none.
    Delivery(Option<NewDelivery<'a, C>>),
    /// The packet asks nothing of the client.
    Ignored,
}

/// What happens on the transport, as the client's side of the session takes
/// it in: each event names the connection that it is about.
#[derive(Debug, PartialEq, Eq)]
pub enum ConnectionEvent {
    /// This connection was made.
    Connected(ConnectionId),
    /// This connection is gone.
    Disconnected(ConnectionId),
    /// This connection brought a packet.
    Payload { connection_id: ConnectionId, payload: TcpContract },
}

impl ConnectionEvent {
    /// The event that a report of the transport stands for, when the packets
    /// that it reports come over `connection_id`.
    pub open spec fn of(connection_id: ConnectionId, event: TcpEvent<TcpContract>) -> Self {
        match event {
            TcpEvent::Connect(id) => ConnectionEvent::Connected(id),
            TcpEvent::Disconnect(id) => ConnectionEvent::Disconnected(id),
            TcpEvent::Packet(payload) => ConnectionEvent::Payload { connection_id, payload },
        }
    }

    /// Turns a report of the transport into an event: a packet is tagged
    /// with `connection_id`, the connection that brought it.
    pub fn from_tcp_event(connection_id: ConnectionId, event: TcpEvent<TcpContract>) -> (connection_event:
        Self)
        ensures
            connection_event == Self::of(connection_id, event),
    {
        match event {
            TcpEvent::Connect(id) => ConnectionEvent::Connected(id),
            TcpEvent::Disconnect(id) => ConnectionEvent::Disconnected(id),
            TcpEvent::Packet(payload) => ConnectionEvent::Payload { connection_id, payload },
        }
    }
}

/// What an event of the transport leads to.
pub enum Handled<'a, C> {
    /// A connection was made. It is told `to_send`, in this order, and the
    /// requests that waited on the connection before it have failed.
    Connected { to_send: Vec<TcpContract>, failed: Vec<ResolvedPublish> },
    /// The connection is gone, and the requests that waited on it have failed.
    Disconnected { failed: Vec<ResolvedPublish> },
    /// A packet came.
    Incoming(IncomingData<'a, C>),
}

/// The mathematical value of a [`TcpClientData`].
pub struct ClientState<C> {
    pub app_name: Seq<char>,
    pub app_version: Seq<char>,
    pub client_version: Seq<char>,
    pub publishers: PublisherState,
    pub subscribers: SubscribersState<C>,
    pub has_connection: bool,
}

impl<C> ClientState<C> {
    /// What a new connection is told: the greeting, the packet versions, one
    /// declaration for each declared topic and one subscribe packet for
    /// each subscription. It depends on what is registered, not on what
    /// happened to earlier connections.
    pub open spec fn handshake(self) -> Seq<TcpContractView> {
        handshake(
            self.app_name,
            self.app_version,
            self.client_version,
            topic_declarations(self.publishers.topics),
            subscribe_packets(self.subscribers.subscribers),
        )
    }

    /// The client after the connection `connection_id` was made.
    pub open spec fn connected(self, connection_id: ConnectionId) -> Self {
        ClientState {
            publishers: self.publishers.connect(connection_id),
            subscribers: SubscribersState {
                connection: Some(connection_id),
                ..self.subscribers
            },
            has_connection: true,
            ..self
        }
    }

    /// The client after its connection was lost.
    pub open spec fn disconnected(self) -> Self {
        ClientState {
            publishers: self.publishers.disconnect(),
            subscribers: SubscribersState { connection: None, ..self.subscribers },
            has_connection: false,
            ..self
        }
    }

    /// The client after the broker answered the request `request_id`.
    pub open spec fn confirmed(self, request_id: i64) -> Self {
        ClientState { publishers: self.publishers.confirm(request_id), ..self }
    }

    /// The client after it took the packet `contract`: only an answer to a
    /// publish request changes it.
    pub open spec fn after_packet(self, contract: TcpContract) -> Self {
        match contract {
            TcpContract::PublishResponse { request_id } => self.confirmed(request_id),
            _ => self,
        }
    }

    /// Whether `incoming` is what the packet `contract`, which came over
    /// `connection_id`, leads to for this client. An answer to a publish
    /// request hands over the request that waited for it, completed with
    /// success, if one waited. A delivery is handed over whenever its queue
    /// has a subscription: in a fresh reader that remembers the connection
    /// that brought it, with the callback of the queue. Every other packet
    /// is passed over.
    pub open spec fn leads_to(
        self,
        connection_id: ConnectionId,
        contract: TcpContract,
        incoming: IncomingData<'_, C>,
    ) -> bool {
        match contract {
            TcpContract::PublishResponse { request_id } => {
                &&& incoming matches IncomingData::PublishConfirmed(resolved)
                &&& self.publishers.pending().contains(request_id) <==> resolved is Some
                &&& resolved matches Some(r) ==> r.request_id == request_id && r.completion@
                    == CompletionState::Completed(TaskEvent::<(), PublishError>::Success(()))
            },
            TcpContract::NewMessages { topic_id, queue_id, confirmation_id, messages } => {
                &&& incoming matches IncomingData::Delivery(delivery)
                &&& delivery is Some <==> self.subscribers.is_registered(topic_id@, queue_id@)
                &&& delivery matches Some(d) ==> {
                    &&& *d.callback == self.subscribers.subscribers[self.subscribers.position(
                        topic_id@,
                        queue_id@,
                    )].callback
                    &&& d.reader.wf()
                    &&& d.reader@ == (DeliveryBatch {
                        topic_id: topic_id@,
                        queue_id: queue_id@,
                        confirmation_id,
                        connection_id,
                        total: messages@.len(),
                        delivered: Set::empty(),
                        unread: Some(messages@),
                        on_delivery: None,
                    })
                }
            },
            _ => incoming is Ignored,
        }
    }
}

/// The client's side of a session: who the client is, its two engines, and
/// whether it has a connection.
pub struct TcpClientData<C> {
    pub app_name: String,
    pub app_version: String,
    pub client_version: String,
    pub publishers: MySbPublishers,
    pub subscribers: MySbSubscribers<C>,
    pub has_connection: bool,
}

impl<C> View for TcpClientData<C> {
    type V = ClientState<C>;

    open spec fn view(&self) -> ClientState<C> {
        ClientState {
            app_name: self.app_name@,
            app_version: self.app_version@,
            client_version: self.client_version@,
            publishers: self.publishers@,
            subscribers: self.subscribers@,
            has_connection: self.has_connection,
        }
    }
}

impl<C> TcpClientData<C> {
    /// Both engines are well formed.
    pub open spec fn wf(self) -> bool {
        self.publishers.wf() && self.subscribers.wf()
    }

    /// A client without a connection, a topic, a subscription or a request.
    pub fn new(app_name: String, app_version: String, client_version: String) -> (data: Self)
        ensures
            data.wf(),
            data@ == (ClientState::<C> {
                app_name: app_name@,
                app_version: app_version@,
                client_version: client_version@,
                publishers: PublisherState::initial(),
                subscribers: SubscribersState { subscribers: Seq::empty(), connection: None },
                has_connection: false,
            }),
    {
        Self {
            app_name,
            app_version,
            client_version,
            publishers: MySbPublishers::new(),
            subscribers: MySbSubscribers::new(),
            has_connection: false,
        }
    }

    /// Whether the client has a connection: yes from the moment a connection
    /// is made and its handshake handed out, until the connection is lost.
    pub fn has_connection(&self) -> (connected: bool)
        ensures
            connected == self@.has_connection,
    {
        self.has_connection
    }

    /// Takes a packet that the connection `connection_id` brought. An answer
    /// to a publish request completes the request, a delivery goes to the
    /// subscriber engine, tagged with the connection that brought it, and
    /// every other packet is passed over.
    pub fn new_incoming_data(&mut self, connection_id: ConnectionId, contract: TcpContract) -> (incoming:
        IncomingData<'_, C>)
        requires
            old(self).wf(),
        ensures
            final(self).wf(),
            final(self)@ == old(self)@.after_packet(contract),
            old(self)@.leads_to(connection_id, contract, incoming),
    {
        match contract {
            TcpContract::PublishResponse { request_id } => {
                IncomingData::PublishConfirmed(self.publishers.set_confirmed(request_id))
            },
            TcpContract::NewMessages { topic_id, queue_id, confirmation_id, messages } => {
                IncomingData::Delivery(
                    self.subscribers.new_messages(
                        topic_id,
                        queue_id,
                        confirmation_id,
                        connection_id,
                        messages,
                    ),
                )
            },
            _ => IncomingData::Ignored,
        }
    }

    /// Takes an event of the transport.
    ///
    /// A new connection becomes the current one of both engines and is told
    /// the handshake of the client. A lost connection leaves both engines
    /// without one. Either way the publish requests that waited are failed
    /// as disconnected. A packet is taken as `new_incoming_data` says.
    pub fn handle(&mut self, connection_event: ConnectionEvent) -> (handled: Handled<'_, C>)
        requires
            old(self).wf(),
        ensures
            final(self).wf(),
            match connection_event {
                ConnectionEvent::Connected(connection_id) => {
                    &&& final(self)@ == old(self)@.connected(connection_id)
                    &&& handled matches Handled::Connected { to_send, failed }
                    &&& contract_views(to_send@) == old(self)@.handshake()
                    &&& fails_all_pending(failed@, old(self)@.publishers.pending())
                },
                ConnectionEvent::Disconnected(_) => {
                    &&& final(self)@ == old(self)@.disconnected()
                    &&& handled matches Handled::Disconnected { failed }
                    &&& fails_all_pending(failed@, old(self)@.publishers.pending())
                },
                ConnectionEvent::Payload { connection_id, payload } => {
                    &&& final(self)@ == old(self)@.after_packet(payload)
                    &&& handled matches Handled::Incoming(incoming)
                    &&& old(self)@.leads_to(connection_id, payload, incoming)
                },
            },
    {
        match connection_event {
            ConnectionEvent::Connected(connection_id) => {
                let started = self.publishers.new_connection(connection_id);
                let subscriptions = self.subscribers.new_connection(connection_id);
                let to_send = send_init(
                    self.app_name.as_str(),
                    self.app_version.as_str(),
                    self.client_version.as_str(),
                    started.declarations,
                    subscriptions,
                );
                self.has_connection = true;
                Handled::Connected { to_send, failed: started.failed }
            },
            ConnectionEvent::Disconnected(_) => {
                self.has_connection = false;
                let failed = self.publishers.disconnect();
                self.subscribers.disconnect();
                Handled::Disconnected { failed }
            },
            ConnectionEvent::Payload { connection_id, payload } => {
                Handled::Incoming(self.new_incoming_data(connection_id, payload))
            },
        }
    }
}

/// A delivery reaches the callback of its queue whether or not the client
/// has a connection at that moment, and whichever connection is the current
/// one: what decides is the subscription alone. Its confirmation can only go
/// out on the connection that brought it.
pub proof fn lemma_delivery_needs_subscription_only<C>(
    client: ClientState<C>,
    connection_id: ConnectionId,
    contract: TcpContract,
    incoming: IncomingData<'_, C>,
)
    requires
        contract is NewMessages,
        client.leads_to(connection_id, contract, incoming),
    ensures
        incoming matches IncomingData::Delivery(delivery) && (delivery is Some
            <==> client.subscribers.is_registered(
            contract->NewMessages_topic_id@,
            contract->NewMessages_queue_id@,
        )),
        incoming matches IncomingData::Delivery(Some(d)) ==> d.reader@.connection_id
            == connection_id && (client.subscribers.accepts_confirmation(d.reader@.connection_id)
            <==> client.subscribers.connection == Some(connection_id)),
{
}

/// The handshake of a client holds, after the greeting and the packet
/// versions, one declaration for each declared topic and one subscribe
/// packet for each subscription, in the order of registration, and nothing
/// else. A connection gets the same handshake whether it is the first or
/// comes after others.
pub proof fn lemma_handshake_replays_registries<C>(
    client: ClientState<C>,
    earlier: ConnectionId,
    connection_id: ConnectionId,
)
    ensures
        client.handshake().len() == 2 + client.publishers.topics.len()
            + client.subscribers.subscribers.len(),
        client.handshake()[0] is Greeting,
        client.handshake()[1] is PacketVersions,
        forall|i: int|
            0 <= i < client.publishers.topics.len() ==> #[trigger] client.handshake()[2 + i] == (
            TcpContractView::CreateTopicIfNotExists { topic_id: client.publishers.topics[i] }),
        forall|i: int|
            0 <= i < client.subscribers.subscribers.len() ==> #[trigger] client.handshake()[2
                + client.publishers.topics.len() + i]
                == client.subscribers.subscribers[i].subscribe_packet(),
        client.connected(earlier).disconnected().handshake() == client.handshake(),
        client.connected(earlier).connected(connection_id).handshake() == client.handshake(),
{
}

} // verus!
