use crate::contracts::{
    contract_views,
    ConnectionId,
    MySbDeliveredMessage,
    QueueIndexRange,
    TcpContract,
    TcpContractView,
    TopicQueueType,
};
use crate::subscribers::messages_delivery::{DeliveryBatch, MessagesReader};
use crate::subscribers::my_sb_subscribers_data::{
    subscribe_packets,
    subscription_keys,
    MySbSubscribersData,
    SubscribersState,
};
use crate::subscribers::subscriber::Subscriber;
use vstd::prelude::*;

verus! {

/// A delivery on its way to its consumer: the callback to run and the reader
/// to run it on.
pub struct NewDelivery<'a, C> {
    pub callback: &'a C,
    pub reader: MessagesReader,
}

/// The confirmation of a whole delivery: as handled when `delivered`, else
/// as failed.
pub open spec fn whole_confirmation(
    topic_id: Seq<char>,
    queue_id: Seq<char>,
    confirmation_id: i64,
    delivered: bool,
) -> TcpContractView {
    if delivered {
        TcpContractView::NewMessagesConfirmation { topic_id, queue_id, confirmation_id }
    } else {
        TcpContractView::AllMessagesConfirmedAsFail { topic_id, queue_id, confirmation_id }
    }
}

/// The subscriber engine: the registry of subscriptions, the dispatch of
/// deliveries to callbacks, and the confirmations that go back to the broker.
pub struct MySbSubscribers<C> {
    subscribers: MySbSubscribersData<C>,
}

impl<C> View for MySbSubscribers<C> {
    type V = SubscribersState<C>;

    closed spec fn view(&self) -> SubscribersState<C> {
        self.subscribers@
    }
}

impl<C> MySbSubscribers<C> {
    /// No queue of a topic has two subscriptions.
    pub closed spec fn wf(self) -> bool {
        self.subscribers.wf()
    }

    /// What well-formedness says of the state.
    pub proof fn lemma_wf_state(self)
        requires
            self.wf(),
        ensures
            subscription_keys(self@.subscribers).no_duplicates(),
    {
        self.subscribers.lemma_wf_state();
    }

    /// An engine without subscriptions and without a connection.
    pub fn new() -> (subscribers: Self)
        ensures
            subscribers.wf(),
            subscribers@ == (SubscribersState::<C> { subscribers: Seq::empty(), connection: None }),
    {
        Self { subscribers: MySbSubscribersData::new() }
    }

    /// Whether a subscription to the queue of the topic is registered.
    pub fn has_subscriber(&self, topic_id: &str, queue_id: &str) -> (registered: bool)
        ensures
            registered == self@.is_registered(topic_id@, queue_id@),
    {
        self.subscribers.has_subscriber(topic_id, queue_id)
    }

    /// Registers a subscription. Nothing is sent: the next connection, like
    /// every connection, is told of all subscriptions. A queue of a topic
    /// takes one subscription only: registering a second one is a mistake of
    /// the caller.
    pub fn add(&mut self, topic_id: String, queue_id: String, queue_type: TopicQueueType, callback: C)
        requires
            old(self).wf(),
            !old(self)@.is_registered(topic_id@, queue_id@),
        ensures
            final(self).wf(),
            final(self)@ == (SubscribersState {
                subscribers: old(self)@.subscribers.push(
                    Subscriber { topic_id, queue_id, queue_type, callback },
                ),
                ..old(self)@
            }),
    {
        self.subscribers.add(topic_id, queue_id, queue_type, callback)
    }

    /// Takes a delivery that `connection_id` brought. With a subscription to
    /// the queue of the topic, the delivery goes to its callback, in a fresh
    /// reader. Without one the delivery is dropped, and nothing is done.
    pub fn new_messages(
        &self,
        topic_id: String,
        queue_id: String,
        confirmation_id: i64,
        connection_id: ConnectionId,
        messages: Vec<MySbDeliveredMessage>,
    ) -> (delivery: Option<NewDelivery<'_, C>>)
        requires
            self.wf(),
        ensures
            delivery is Some <==> self@.is_registered(topic_id@, queue_id@),
            delivery matches Some(d) ==> {
                &&& *d.callback == self@.subscribers[self@.position(topic_id@, queue_id@)].callback
                &&& d.reader.wf()
                &&& d.reader@ == (DeliveryBatch {
                    topic_id: topic_id@,
                    queue_id: queue_id@,
                    confirmation_id,
                    connection_id,
                    total: messages@.len(),
                    delivered: Set::empty(),
                    unread: Some(messages@),
                    on_delivery: None,
                })
            },
    {
        match self.subscribers.get_callback(topic_id.as_str(), queue_id.as_str()) {
            Some(callback) => {
                let reader = MessagesReader::new(
                    topic_id,
                    queue_id,
                    messages,
                    confirmation_id,
                    connection_id,
                );
                Some(NewDelivery { callback, reader })
            },
            None => None,
        }
    }

    /// The packets that ask the broker for the subscriptions: one for each
    /// registered subscription, in the order of registration.
    pub fn get_subscribers(&self) -> (packets: Vec<TcpContract>)
        ensures
            contract_views(packets@) == subscribe_packets(self@.subscribers),
    {
        self.subscribers.get_subscribers()
    }

    /// Makes `connection_id` the connection on which confirmations go out,
    /// and gives what it has to be told: one subscribe packet for each
    /// registered subscription, whatever earlier connections were told.
    pub fn new_connection(&mut self, connection_id: ConnectionId) -> (packets: Vec<TcpContract>)
        requires
            old(self).wf(),
        ensures
            final(self).wf(),
            final(self)@ == (SubscribersState {
                connection: Some(connection_id),
                ..old(self)@
            }),
            contract_views(packets@) == subscribe_packets(old(self)@.subscribers),
    {
        self.subscribers.connect(connection_id);
        self.subscribers.get_subscribers()
    }

    /// The connection on which confirmations can go out, if there is one.
    pub fn connection(&self) -> (connection: Option<ConnectionId>)
        ensures
            connection == self@.connection,
    {
        self.subscribers.connection()
    }

    /// Forgets the connection: until there is a new one no confirmation goes out.
    pub fn disconnect(&mut self)
        requires
            old(self).wf(),
        ensures
            final(self).wf(),
            final(self)@ == (SubscribersState { connection: None, ..old(self)@ }),
    {
        self.subscribers.disconnect()
    }

    /// Decides whether `tcp_contract`, which answers a delivery that
    /// `connection_id` brought, goes out: it does on that same connection,
    /// while it is the current one, and else is dropped.
    pub fn send_packet(&self, tcp_contract: TcpContract, connection_id: ConnectionId) -> (to_send:
        Option<TcpContract>)
        ensures
            to_send == (if self@.accepts_confirmation(connection_id) {
                Some(tcp_contract)
            } else {
                None
            }),
    {
        match self.subscribers.connection() {
            Some(current) => {
                if current == connection_id {
                    Some(tcp_contract)
                } else {
                    None
                }
            },
            None => None,
        }
    }

    /// Confirms a whole delivery, as handled or as failed.
    pub fn confirm_delivery(
        &self,
        topic_id: &str,
        queue_id: &str,
        confirmation_id: i64,
        connection_id: ConnectionId,
        delivered: bool,
    ) -> (to_send: Option<TcpContract>)
        ensures
            to_send is Some <==> self@.accepts_confirmation(connection_id),
            to_send matches Some(packet) ==> packet@ == whole_confirmation(
                topic_id@,
                queue_id@,
                confirmation_id,
                delivered,
            ),
    {
        let tcp_contract = if delivered {
            TcpContract::NewMessagesConfirmation {
                topic_id: topic_id.to_owned(),
                queue_id: queue_id.to_owned(),
                confirmation_id,
            }
        } else {
            TcpContract::AllMessagesConfirmedAsFail {
                topic_id: topic_id.to_owned(),
                queue_id: queue_id.to_owned(),
                confirmation_id,
            }
        };
        self.send_packet(tcp_contract, connection_id)
    }

    /// Confirms the messages of a delivery whose ids lie in `delivered`.
    pub fn confirm_some_messages_ok(
        &self,
        topic_id: &str,
        queue_id: &str,
        confirmation_id: i64,
        connection_id: ConnectionId,
        delivered: Vec<QueueIndexRange>,
    ) -> (to_send: Option<TcpContract>)
        ensures
            to_send is Some <==> self@.accepts_confirmation(connection_id),
            to_send matches Some(packet) ==> packet@ == (TcpContractView::ConfirmSomeMessagesAsOk {
                packet_version: 0,
                topic_id: topic_id@,
                queue_id: queue_id@,
                confirmation_id,
                delivered: delivered@,
            }),
    {
        let tcp_contract = TcpContract::ConfirmSomeMessagesAsOk {
            packet_version: 0,
            topic_id: topic_id.to_owned(),
            queue_id: queue_id.to_owned(),
            confirmation_id,
            delivered,
        };
        self.send_packet(tcp_contract, connection_id)
    }

    /// Ends a delivery whose callback is done, however it ended. The
    /// confirmation that the reader asks for goes out if the connection that
    /// brought the delivery is still the current one.
    pub fn finish_delivery(&self, reader: MessagesReader) -> (to_send: Option<TcpContract>)
        requires
            reader.wf(),
        ensures
            to_send is Some <==> self@.accepts_confirmation(reader@.connection_id),
            to_send matches Some(packet) ==> packet@ == reader@.confirmation(),
    {
        let connection_id = reader.connection_id();
        let packet = reader.close();
        self.send_packet(packet, connection_id)
    }
}

/// Every connection is told of each subscription once: the subscribe packets
/// are as many as the subscriptions, the packet at each place is that of the
/// subscription at that place, and no two of them name the same queue of
/// the same topic.
pub proof fn lemma_one_subscribe_per_subscription<C>(state: SubscribersState<C>)
    requires
        subscription_keys(state.subscribers).no_duplicates(),
    ensures
        subscribe_packets(state.subscribers).len() == state.subscribers.len(),
        forall|i: int|
            0 <= i < state.subscribers.len() ==> #[trigger] subscribe_packets(
                state.subscribers,
            )[i] == state.subscribers[i].subscribe_packet(),
        forall|i: int, j: int|
            0 <= i < j < state.subscribers.len() ==> {
                let first = #[trigger] subscribe_packets(state.subscribers)[i];
                let second = #[trigger] subscribe_packets(state.subscribers)[j];
                first->Subscribe_topic_id != second->Subscribe_topic_id
                    || first->Subscribe_queue_id != second->Subscribe_queue_id
            },
{
    assert forall|i: int, j: int| 0 <= i < j < state.subscribers.len() implies {
        let first = #[trigger] subscribe_packets(state.subscribers)[i];
        let second = #[trigger] subscribe_packets(state.subscribers)[j];
        first->Subscribe_topic_id != second->Subscribe_topic_id || first->Subscribe_queue_id
            != second->Subscribe_queue_id
    } by {
        let keys = subscription_keys(state.subscribers);
        assert(keys[i] != keys[j]);
    }
}

} // verus!
