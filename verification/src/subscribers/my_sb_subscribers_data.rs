use crate::contracts::{contract_views, ConnectionId, TcpContract, TcpContractView, TopicQueueType};
use crate::subscribers::subscriber::Subscriber;
use crate::text::same_text;
use vstd::prelude::*;

verus! {

/// The topic and queue of each subscription, in order.
pub open spec fn subscription_keys<C>(subscribers: Seq<Subscriber<C>>) -> Seq<
    (Seq<char>, Seq<char>),
> {
    subscribers.map_values(|subscriber: Subscriber<C>| subscriber.key())
}

/// The packets that ask the broker for the subscriptions, one for each, in order.
pub open spec fn subscribe_packets<C>(subscribers: Seq<Subscriber<C>>) -> Seq<TcpContractView> {
    subscribers.map_values(|subscriber: Subscriber<C>| subscriber.subscribe_packet())
}

/// The mathematical value of a [`MySbSubscribersData`].
pub struct SubscribersState<C> {
    /// The subscriptions, in the order of registration.
    pub subscribers: Seq<Subscriber<C>>,
    /// The connection on which confirmations can go out, if there is one.
    pub connection: Option<ConnectionId>,
}

impl<C> SubscribersState<C> {
    /// Whether a subscription to the queue of the topic is registered.
    pub open spec fn is_registered(self, topic_id: Seq<char>, queue_id: Seq<char>) -> bool {
        subscription_keys(self.subscribers).contains((topic_id, queue_id))
    }

    /// Where the subscription to the queue of the topic stands.
    pub open spec fn position(self, topic_id: Seq<char>, queue_id: Seq<char>) -> int {
        subscription_keys(self.subscribers).index_of((topic_id, queue_id))
    }

    /// Whether a confirmation for a delivery that `connection_id` brought can
    /// go out: only on that same connection, while it is the current one.
    pub open spec fn accepts_confirmation(self, connection_id: ConnectionId) -> bool {
        self.connection == Some(connection_id)
    }
}

/// The registry of subscriptions, and the connection on which confirmations
/// go out.
pub struct MySbSubscribersData<C> {
    subscribers: Vec<Subscriber<C>>,
    connection: Option<ConnectionId>,
}

impl<C> View for MySbSubscribersData<C> {
    type V = SubscribersState<C>;

    closed spec fn view(&self) -> SubscribersState<C> {
        SubscribersState { subscribers: self.subscribers@, connection: self.connection }
    }
}

impl<C> MySbSubscribersData<C> {
    /// No queue of a topic has two subscriptions.
    pub closed spec fn wf(self) -> bool {
        subscription_keys(self.subscribers@).no_duplicates()
    }

    /// What well-formedness says of the state.
    pub proof fn lemma_wf_state(self)
        requires
            self.wf(),
        ensures
            subscription_keys(self@.subscribers).no_duplicates(),
    {
    }

    /// A registry without subscriptions and without a connection.
    pub fn new() -> (data: Self)
        ensures
            data.wf(),
            data@ == (SubscribersState::<C> { subscribers: Seq::empty(), connection: None }),
    {
        Self { subscribers: Vec::new(), connection: None }
    }

    /// Finds the subscription to the queue of the topic.
    fn find(&self, topic_id: &str, queue_id: &str) -> (found: Option<usize>)
        ensures
            match found {
                Some(i) => i < self.subscribers@.len() && self.subscribers@[i as int].key() == (
                    topic_id@,
                    queue_id@,
                ) && (self.wf() ==> i == self@.position(topic_id@, queue_id@)),
                None => !self@.is_registered(topic_id@, queue_id@),
            },
            found is Some <==> self@.is_registered(topic_id@, queue_id@),
    {
        let ghost keys = subscription_keys(self.subscribers@);
        let mut i: usize = 0;
        while i < self.subscribers.len()
            invariant
                i <= self.subscribers@.len(),
                keys == subscription_keys(self.subscribers@),
                forall|j: int| 0 <= j < i ==> keys[j] != (topic_id@, queue_id@),
            decreases self.subscribers@.len() - i,
        {
            let subscriber = &self.subscribers[i];
            if same_text(subscriber.topic_id.as_str(), topic_id) && same_text(
                subscriber.queue_id.as_str(),
                queue_id,
            ) {
                assert(keys[i as int] == (topic_id@, queue_id@));
                assert(keys.contains((topic_id@, queue_id@)));
                proof {
                    if self.wf() {
                        let at = keys.index_of((topic_id@, queue_id@));
                        assert(keys[at] == keys[i as int]);
                    }
                }
                return Some(i);
            }
            i += 1;
        }
        None
    }

    /// Whether a subscription to the queue of the topic is registered.
    pub fn has_subscriber(&self, topic_id: &str, queue_id: &str) -> (registered: bool)
        ensures
            registered == self@.is_registered(topic_id@, queue_id@),
    {
        self.find(topic_id, queue_id).is_some()
    }

    /// Registers a subscription. A queue of a topic takes one subscription
    /// only: registering a second one is a mistake of the caller.
    pub fn add(&mut self, topic_id: String, queue_id: String, queue_type: TopicQueueType, callback: C)
        requires
            old(self).wf(),
            !old(self)@.is_registered(topic_id@, queue_id@),
        ensures
            final(self).wf(),
            final(self)@ == (SubscribersState {
                subscribers: old(self)@.subscribers.push(
                    Subscriber { topic_id, queue_id, queue_type, callback },
                ),
                ..old(self)@
            }),
    {
        let subscriber = Subscriber::new(topic_id, queue_id, queue_type, callback);
        let ghost before = self.subscribers@;
        self.subscribers.push(subscriber);
        assert(subscription_keys(self.subscribers@) == subscription_keys(before).push(
            subscriber.key(),
        ));
    }

    /// The callback that is registered for the queue of the topic: `None`
    /// when there is no such subscription.
    pub fn get_callback(&self, topic_id: &str, queue_id: &str) -> (callback: Option<&C>)
        requires
            self.wf(),
        ensures
            callback is Some <==> self@.is_registered(topic_id@, queue_id@),
            callback matches Some(c) ==> *c == self@.subscribers[self@.position(
                topic_id@,
                queue_id@,
            )].callback,
    {
        match self.find(topic_id, queue_id) {
            Some(i) => Some(&self.subscribers[i].callback),
            None => None,
        }
    }

    /// How many subscriptions are registered.
    pub fn len(&self) -> (count: usize)
        ensures
            count == self@.subscribers.len(),
    {
        self.subscribers.len()
    }

    /// The packets that ask the broker for the subscriptions: one for each
    /// registered subscription, in the order of registration.
    pub fn get_subscribers(&self) -> (packets: Vec<TcpContract>)
        ensures
            contract_views(packets@) == subscribe_packets(self@.subscribers),
    {
        let mut packets: Vec<TcpContract> = Vec::new();
        let mut i: usize = 0;
        while i < self.subscribers.len()
            invariant
                i <= self.subscribers@.len(),
                contract_views(packets@) == subscribe_packets(self.subscribers@).take(i as int),
            decreases self.subscribers@.len() - i,
        {
            let ghost before = packets@;
            let packet = self.subscribers[i].to_packet();
            packets.push(packet);
            assert(contract_views(packets@) == contract_views(before).push(packet@));
            assert(subscribe_packets(self.subscribers@).take(i as int + 1) == subscribe_packets(
                self.subscribers@,
            ).take(i as int).push(packet@));
            i += 1;
        }
        assert(subscribe_packets(self.subscribers@).take(self.subscribers@.len() as int)
            == subscribe_packets(self.subscribers@));
        packets
    }

    /// The connection on which confirmations can go out, if there is one.
    pub fn connection(&self) -> (connection: Option<ConnectionId>)
        ensures
            connection == self@.connection,
    {
        self.connection
    }

    /// Makes `connection_id` the connection on which confirmations go out.
    pub fn connect(&mut self, connection_id: ConnectionId)
        requires
            old(self).wf(),
        ensures
            final(self).wf(),
            final(self)@ == (SubscribersState {
                connection: Some(connection_id),
                ..old(self)@
            }),
    {
        self.connection = Some(connection_id);
    }

    /// Forgets the connection: until there is a new one no confirmation goes out.
    pub fn disconnect(&mut self)
        requires
            old(self).wf(),
        ensures
            final(self).wf(),
            final(self)@ == (SubscribersState { connection: None, ..old(self)@ }),
    {
        self.connection = None;
    }
}

} // verus!
