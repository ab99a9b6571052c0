use crate::contracts::{ConnectionId, TcpContract, TcpContractView};
use crate::interval_set::{compressed_form, IntervalSet};
use vstd::prelude::*;

verus! {

/// What a consumer reports of a delivery that it is done with: which
/// delivery it was, and the ids of the messages that it could not handle,
/// if there are any.
pub struct MySbDeliveryConfirmation {
    pub topic_id: String,
    pub queue_id: String,
    pub confirmation_id: i64,
    pub connection_id: ConnectionId,
    pub not_delivered: Option<IntervalSet>,
}

/// What comes in on the way of the confirmations.
pub enum MySbDeliveryConfirmationEvent {
    /// This connection is the current one now.
    Connected(ConnectionId),
    /// This connection is gone.
    Disconnected(ConnectionId),
    /// A consumer is done with a delivery.
    Confirmation(MySbDeliveryConfirmation),
}

impl MySbDeliveryConfirmation {
    /// The ids that were not handled are kept in compressed form.
    pub open spec fn wf(self) -> bool {
        self.not_delivered matches Some(not_delivered) ==> not_delivered.wf()
    }

    /// The packet that reports the confirmation to the broker: the whole
    /// delivery as handled, or the ids that were not.
    pub open spec fn packet(self) -> TcpContractView {
        match self.not_delivered {
            Some(not_delivered) => TcpContractView::ConfirmMessagesByNotDelivery {
                packet_version: 0,
                topic_id: self.topic_id@,
                queue_id: self.queue_id@,
                confirmation_id: self.confirmation_id,
                not_delivered: compressed_form(not_delivered@),
            },
            None => TcpContractView::NewMessagesConfirmation {
                topic_id: self.topic_id@,
                queue_id: self.queue_id@,
                confirmation_id: self.confirmation_id,
            },
        }
    }
}

impl MySbDeliveryConfirmationEvent {
    /// The confirmation in the event, if it holds one, is well formed.
    pub open spec fn wf(self) -> bool {
        self matches MySbDeliveryConfirmationEvent::Confirmation(confirmation)
            ==> confirmation.wf()
    }
}

/// Builds the packet that reports `confirmation` to the broker.
pub fn send_confirmation(confirmation: MySbDeliveryConfirmation) -> (packet: TcpContract)
    requires
        confirmation.wf(),
    ensures
        packet@ == confirmation.packet(),
{
    match confirmation.not_delivered {
        Some(not_delivered) => TcpContract::ConfirmMessagesByNotDelivery {
            packet_version: 0,
            topic_id: confirmation.topic_id,
            queue_id: confirmation.queue_id,
            confirmation_id: confirmation.confirmation_id,
            not_delivered: not_delivered.get_snapshot(),
        },
        None => TcpContract::NewMessagesConfirmation {
            topic_id: confirmation.topic_id,
            queue_id: confirmation.queue_id,
            confirmation_id: confirmation.confirmation_id,
        },
    }
}

/// The way of the confirmations to the broker. It follows which connection
/// is the current one, and lets a confirmation through only to the
/// connection that brought the delivery.
pub struct ConfirmationLoop {
    current_connection: Option<ConnectionId>,
}

impl View for ConfirmationLoop {
    type V = Option<ConnectionId>;

    closed spec fn view(&self) -> Option<ConnectionId> {
        self.current_connection
    }
}

impl ConfirmationLoop {
    /// A loop that knows of no connection.
    pub fn new() -> (confirmations: Self)
        ensures
            confirmations@ is None,
    {
        Self { current_connection: None }
    }

    /// Takes one event. A new connection becomes the current one; a
    /// connection that is gone leaves the loop without one, whichever it
    /// was; a confirmation gives the packet to send, if its delivery came
    /// over the current connection, and else is dropped.
    pub fn start(&mut self, confirmation_event: MySbDeliveryConfirmationEvent) -> (to_send: Option<
        TcpContract,
    >)
        requires
            confirmation_event.wf(),
        ensures
            match confirmation_event {
                MySbDeliveryConfirmationEvent::Connected(connection_id) => {
                    final(self)@ == Some(connection_id) && to_send is None
                },
                MySbDeliveryConfirmationEvent::Disconnected(_) => {
                    final(self)@ is None && to_send is None
                },
                MySbDeliveryConfirmationEvent::Confirmation(confirmation) => {
                    &&& final(self)@ == old(self)@
                    &&& to_send is Some <==> old(self)@ == Some(confirmation.connection_id)
                    &&& to_send matches Some(packet) ==> packet@ == confirmation.packet()
                },
            },
    {
        match confirmation_event {
            MySbDeliveryConfirmationEvent::Connected(connection_id) => {
                self.current_connection = Some(connection_id);
                None
            },
            MySbDeliveryConfirmationEvent::Disconnected(_) => {
                self.current_connection = None;
                None
            },
            MySbDeliveryConfirmationEvent::Confirmation(confirmation) => {
                match self.current_connection {
                    Some(connection_id) => {
                        if confirmation.connection_id == connection_id {
                            Some(send_confirmation(confirmation))
                        } else {
                            None
                        }
                    },
                    None => None,
                }
            },
        }
    }
}

} // verus!
