use crate::contracts::{ConnectionId, MySbDeliveredMessage};
use crate::subscribers::messages_delivery::{DeliveryBatch, MessagesReader};
use vstd::prelude::*;

verus! {

/// A delivery as it waits for its consumer. The messages can be read out of
/// it once.
pub struct MySbDeliveryPackage {
    pub topic_id: String,
    pub queue_id: String,
    pub messages: Option<Vec<MySbDeliveredMessage>>,
    pub confirmation_id: i64,
    pub connection_id: ConnectionId,
}

impl MySbDeliveryPackage {
    /// Whether the messages are still there to be read.
    pub fn can_read(&self) -> (possible: bool)
        ensures
            possible == self.messages is Some,
    {
        self.messages.is_some()
    }

    /// Takes the messages out, in a reader of their own. This can be done
    /// one time only.
    pub fn read(&mut self) -> (reader: MessagesReader)
        requires
            old(self).messages is Some,
        ensures
            *final(self) == (MySbDeliveryPackage { messages: None, ..*old(self) }),
            reader.wf(),
            reader@ == (DeliveryBatch {
                topic_id: old(self).topic_id@,
                queue_id: old(self).queue_id@,
                confirmation_id: old(self).confirmation_id,
                connection_id: old(self).connection_id,
                total: old(self).messages->0@.len(),
                delivered: Set::empty(),
                unread: Some(old(self).messages->0@),
                on_delivery: None,
            }),
    {
        let messages = self.messages.take();
        MessagesReader::new(
            self.topic_id.clone(),
            self.queue_id.clone(),
            messages.unwrap(),
            self.confirmation_id,
            self.connection_id,
        )
    }
}

} // verus!
