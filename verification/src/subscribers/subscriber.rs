use crate::contracts::{TcpContract, TcpContractView, TopicQueueType};
use vstd::prelude::*;

verus! {

/// One subscription: a queue of a topic, how the broker is to treat the
/// queue, and the callback that gets the deliveries. What a callback is, is
/// for the program around the engine to say.
pub struct Subscriber<C> {
    pub topic_id: String,
    pub queue_id: String,
    pub queue_type: TopicQueueType,
    pub callback: C,
}

impl<C> Subscriber<C> {
    /// The topic and the queue of the subscription.
    pub open spec fn key(self) -> (Seq<char>, Seq<char>) {
        (self.topic_id@, self.queue_id@)
    }

    /// The packet that asks the broker for the subscription.
    pub open spec fn subscribe_packet(self) -> TcpContractView {
        TcpContractView::Subscribe {
            topic_id: self.topic_id@,
            queue_id: self.queue_id@,
            queue_type: self.queue_type,
        }
    }

    /// A subscription of `callback` to the queue `queue_id` of `topic_id`.
    pub fn new(topic_id: String, queue_id: String, queue_type: TopicQueueType, callback: C) -> (subscriber:
        Self)
        ensures
            subscriber == (Subscriber { topic_id, queue_id, queue_type, callback }),
    {
        Self { topic_id, queue_id, queue_type, callback }
    }

    /// Builds the packet that asks the broker for the subscription.
    pub fn to_packet(&self) -> (packet: TcpContract)
        ensures
            packet@ == self.subscribe_packet(),
    {
        TcpContract::Subscribe {
            topic_id: self.topic_id.clone(),
            queue_id: self.queue_id.clone(),
            queue_type: self.queue_type,
        }
    }
}

} // verus!
