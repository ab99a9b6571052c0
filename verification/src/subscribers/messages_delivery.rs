use crate::contracts::{
    ConnectionId,
    MessageId,
    MySbDeliveredMessage,
    QueueIndexRange,
    TcpContract,
    TcpContractView,
};
use crate::interval_set::{compressed_form, ids_of, is_compressed, IntervalSet};
use vstd::prelude::*;

verus! {

/// The mathematical value of a [`MessagesReader`]: one inbound delivery and
/// what its consumer has done with it so far.
pub struct DeliveryBatch {
    pub topic_id: Seq<char>,
    pub queue_id: Seq<char>,
    /// The id under which the broker wants the delivery confirmed.
    pub confirmation_id: i64,
    /// The connection that brought the delivery.
    pub connection_id: ConnectionId,
    /// How many messages the delivery brought.
    pub total: nat,
    /// The ids of the messages that the consumer marked as handled.
    pub delivered: Set<int>,
    /// The messages that were not handed out yet; `None` once the consumer
    /// took them all at once.
    pub unread: Option<Seq<MySbDeliveredMessage>>,
    /// The message that was handed out last, one by one, and is not marked yet.
    pub on_delivery: Option<MessageId>,
}

impl DeliveryBatch {
    /// The confirmation that the batch asks for. All messages handled: the
    /// whole delivery is confirmed. None handled: the whole delivery is
    /// reported as failed. Else the handled ids are reported, as ranges in
    /// compressed form.
    pub open spec fn confirmation(self) -> TcpContractView {
        if self.delivered.len() == self.total {
            TcpContractView::NewMessagesConfirmation {
                topic_id: self.topic_id,
                queue_id: self.queue_id,
                confirmation_id: self.confirmation_id,
            }
        } else if self.delivered.len() == 0 {
            TcpContractView::AllMessagesConfirmedAsFail {
                topic_id: self.topic_id,
                queue_id: self.queue_id,
                confirmation_id: self.confirmation_id,
            }
        } else {
            TcpContractView::ConfirmSomeMessagesAsOk {
                packet_version: 0,
                topic_id: self.topic_id,
                queue_id: self.queue_id,
                confirmation_id: self.confirmation_id,
                delivered: compressed_form(self.delivered),
            }
        }
    }

    /// The batch after the message `id` was marked as handled.
    pub open spec fn mark(self, id: MessageId) -> Self {
        DeliveryBatch { delivered: self.delivered.insert(id as int), ..self }
    }
}

/// One inbound delivery in the hands of its consumer. The consumer reads the
/// messages, marks those it has handled, and closes the reader; closing gives
/// the confirmation for the broker. A reader is closed once: closing uses it
/// up.
#[derive(Debug)]
pub struct MessagesReader {
    topic_id: String,
    queue_id: String,
    confirmation_id: i64,
    connection_id: ConnectionId,
    total_messages_amount: usize,
    messages: Option<Vec<MySbDeliveredMessage>>,
    delivered: IntervalSet,
    on_delivery: Option<MessageId>,
}

impl View for MessagesReader {
    type V = DeliveryBatch;

    closed spec fn view(&self) -> DeliveryBatch {
        DeliveryBatch {
            topic_id: self.topic_id@,
            queue_id: self.queue_id@,
            confirmation_id: self.confirmation_id,
            connection_id: self.connection_id,
            total: self.total_messages_amount as nat,
            delivered: self.delivered@,
            unread: match self.messages {
                Some(messages) => Some(messages@),
                None => None,
            },
            on_delivery: self.on_delivery,
        }
    }
}

impl MessagesReader {
    /// The handled ids are kept in compressed form.
    pub closed spec fn wf(self) -> bool {
        self.delivered.wf()
    }

    /// What well-formedness says of the reader: finitely many messages are
    /// marked as handled, and the ranges that a confirmation reports them in
    /// are compressed and hold exactly the marked ids.
    pub proof fn lemma_wf_state(self)
        requires
            self.wf(),
        ensures
            self@.delivered.finite(),
            is_compressed(compressed_form(self@.delivered)),
            ids_of(compressed_form(self@.delivered)) == self@.delivered,
    {
        self.delivered.lemma_ranges();
    }

    /// A reader for a delivery that just came in: nothing is read or marked.
    pub fn new(
        topic_id: String,
        queue_id: String,
        messages: Vec<MySbDeliveredMessage>,
        confirmation_id: i64,
        connection_id: ConnectionId,
    ) -> (reader: Self)
        ensures
            reader.wf(),
            reader@ == (DeliveryBatch {
                topic_id: topic_id@,
                queue_id: queue_id@,
                confirmation_id,
                connection_id,
                total: messages@.len(),
                delivered: Set::empty(),
                unread: Some(messages@),
                on_delivery: None,
            }),
    {
        let total_messages_amount = messages.len();
        Self {
            topic_id,
            queue_id,
            confirmation_id,
            connection_id,
            total_messages_amount,
            messages: Some(messages),
            delivered: IntervalSet::new(),
            on_delivery: None,
        }
    }

    /// The topic of the delivery.
    pub fn topic_id(&self) -> (topic_id: &String)
        ensures
            topic_id@ == self@.topic_id,
    {
        &self.topic_id
    }

    /// The queue of the delivery.
    pub fn queue_id(&self) -> (queue_id: &String)
        ensures
            queue_id@ == self@.queue_id,
    {
        &self.queue_id
    }

    /// The id under which the broker wants the delivery confirmed.
    pub fn confirmation_id(&self) -> (confirmation_id: i64)
        ensures
            confirmation_id == self@.confirmation_id,
    {
        self.confirmation_id
    }

    /// The connection that brought the delivery.
    pub fn connection_id(&self) -> (connection_id: ConnectionId)
        ensures
            connection_id == self@.connection_id,
    {
        self.connection_id
    }

    /// How many messages the delivery brought.
    pub fn total_messages_amount(&self) -> (total: usize)
        ensures
            total == self@.total,
    {
        self.total_messages_amount
    }

    /// How many messages are marked as handled.
    pub fn delivered_amount(&self) -> (delivered: u128)
        requires
            self.wf(),
        ensures
            delivered == self@.delivered.len(),
    {
        self.delivered.len()
    }

    /// Marks `msg` as handled. Marking a message again changes nothing.
    pub fn handled_ok(&mut self, msg: &MySbDeliveredMessage)
        requires
            old(self).wf(),
        ensures
            final(self).wf(),
            final(self)@ == old(self)@.mark(msg.id),
    {
        self.delivered.enqueue(msg.id);
    }

    /// Whether the messages can still be taken all at once.
    pub fn can_get_messages(&self) -> (possible: bool)
        ensures
            possible == self@.unread is Some,
    {
        self.messages.is_some()
    }

    /// Hands out all messages that were not read yet, to be walked through
    /// once. This can be done one time only.
    pub fn get_messages(&mut self) -> (iterator: MessagesReaderIterator)
        requires
            old(self).wf(),
            old(self)@.unread is Some,
        ensures
            final(self).wf(),
            final(self)@ == (DeliveryBatch { unread: None, ..old(self)@ }),
            Some(iterator@) == old(self)@.unread,
    {
        let messages = self.messages.take();
        MessagesReaderIterator { messages: messages.unwrap() }
    }

    /// Hands out the next unread message and remembers it as the one that is
    /// being handled. `None` when no unread message is left.
    pub fn next(&mut self) -> (message: Option<MySbDeliveredMessage>)
        requires
            old(self).wf(),
        ensures
            final(self).wf(),
            match old(self)@.unread {
                Some(unread) if unread.len() > 0 => {
                    &&& message == Some(unread[0])
                    &&& final(self)@ == (DeliveryBatch {
                        unread: Some(unread.drop_first()),
                        on_delivery: Some(unread[0].id),
                        ..old(self)@
                    })
                },
                _ => message is None && final(self)@ == old(self)@,
            },
    {
        match &mut self.messages {
            Some(messages) => {
                if messages.len() == 0 {
                    return None;
                }
                let message = messages.remove(0);
                assert(messages@ == old(self).messages->0@.drop_first());
                self.on_delivery = Some(message.id);
                Some(message)
            },
            None => None,
        }
    }

    /// Marks as handled the message that `next` handed out last. Without
    /// such a message, or when it is marked already, nothing changes.
    pub fn confirm_delivery(&mut self)
        requires
            old(self).wf(),
        ensures
            final(self).wf(),
            final(self)@ == (match old(self)@.on_delivery {
                Some(id) => DeliveryBatch { on_delivery: None, ..old(self)@.mark(id) },
                None => old(self)@,
            }),
    {
        if let Some(id) = self.on_delivery {
            self.delivered.enqueue(id);
            self.on_delivery = None;
        }
    }

    /// The ranges of the handled ids, as the confirmation would report them.
    pub fn delivered_snapshot(&self) -> (snapshot: Vec<QueueIndexRange>)
        requires
            self.wf(),
        ensures
            snapshot@ == compressed_form(self@.delivered),
    {
        self.delivered.get_snapshot()
    }

    /// Ends the delivery and gives the confirmation for the broker. Messages
    /// that were not marked count as not handled.
    pub fn close(self) -> (packet: TcpContract)
        requires
            self.wf(),
        ensures
            packet@ == self@.confirmation(),
    {
        let delivered = self.delivered.len();
        if delivered == self.total_messages_amount as u128 {
            TcpContract::NewMessagesConfirmation {
                topic_id: self.topic_id,
                queue_id: self.queue_id,
                confirmation_id: self.confirmation_id,
            }
        } else if delivered == 0 {
            TcpContract::AllMessagesConfirmedAsFail {
                topic_id: self.topic_id,
                queue_id: self.queue_id,
                confirmation_id: self.confirmation_id,
            }
        } else {
            let snapshot = self.delivered.get_snapshot();
            TcpContract::ConfirmSomeMessagesAsOk {
                packet_version: 0,
                topic_id: self.topic_id,
                queue_id: self.queue_id,
                confirmation_id: self.confirmation_id,
                delivered: snapshot,
            }
        }
    }
}

/// The messages of a delivery, to be walked through once.
pub struct MessagesReaderIterator {
    messages: Vec<MySbDeliveredMessage>,
}

impl View for MessagesReaderIterator {
    type V = Seq<MySbDeliveredMessage>;

    closed spec fn view(&self) -> Seq<MySbDeliveredMessage> {
        self.messages@
    }
}

impl MessagesReaderIterator {
    /// How many messages are left.
    pub fn len(&self) -> (left: usize)
        ensures
            left == self@.len(),
    {
        self.messages.len()
    }

    /// Hands out the first message that is left; `None` when none is.
    pub fn next(&mut self) -> (message: Option<MySbDeliveredMessage>)
        ensures
            old(self)@.len() == 0 ==> message is None && final(self)@ == old(self)@,
            old(self)@.len() > 0 ==> message == Some(old(self)@[0]) && final(self)@ == old(
                self,
            )@.drop_first(),
    {
        if self.messages.len() == 0 {
            return None;
        }
        let next_message = self.messages.remove(0);
        assert(self.messages@ == old(self).messages@.drop_first());
        Some(next_message)
    }
}

/// What a delivery is confirmed with depends on how many of its messages were
/// handled, and on nothing else: all of them, none of them, or some.
pub proof fn lemma_confirmation_selection(batch: DeliveryBatch)
    ensures
        batch.delivered.len() == batch.total ==> batch.confirmation()
            is NewMessagesConfirmation,
        batch.delivered.len() != batch.total && batch.delivered.len() == 0
            ==> batch.confirmation() is AllMessagesConfirmedAsFail,
        batch.delivered.len() != batch.total && batch.delivered.len() != 0
            ==> batch.confirmation() is ConfirmSomeMessagesAsOk,
{
}

} // verus!
