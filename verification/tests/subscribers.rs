use my_service_bus_tcp_client::contracts::{
    MySbDeliveredMessage, QueueIndexRange, TcpContract, TopicQueueType,
};
use my_service_bus_tcp_client::interval_set::IntervalSet;
use my_service_bus_tcp_client::subscribers::my_sb_subscribers_loop::{
    send_confirmation, ConfirmationLoop, MySbDeliveryConfirmation, MySbDeliveryConfirmationEvent,
};
use my_service_bus_tcp_client::subscribers::{
    MessagesReader, MySbDeliveryPackage, MySbSubscribers, MySbSubscribersData, Subscriber,
};

fn delivered(id: i64) -> MySbDeliveredMessage {
    MySbDeliveredMessage { id, attempt_no: 1, headers: None, content: vec![id as u8] }
}

fn batch(ids: &[i64]) -> MessagesReader {
    MessagesReader::new(
        "orders".to_string(),
        "billing".to_string(),
        ids.iter().map(|id| delivered(*id)).collect(),
        42,
        1,
    )
}

fn full_ack() -> TcpContract {
    TcpContract::NewMessagesConfirmation {
        topic_id: "orders".to_string(),
        queue_id: "billing".to_string(),
        confirmation_id: 42,
    }
}

fn full_fail() -> TcpContract {
    TcpContract::AllMessagesConfirmedAsFail {
        topic_id: "orders".to_string(),
        queue_id: "billing".to_string(),
        confirmation_id: 42,
    }
}

fn partial_ack(ranges: &[(i64, i64)]) -> TcpContract {
    TcpContract::ConfirmSomeMessagesAsOk {
        packet_version: 0,
        topic_id: "orders".to_string(),
        queue_id: "billing".to_string(),
        confirmation_id: 42,
        delivered: ranges
            .iter()
            .map(|(from_id, to_id)| QueueIndexRange { from_id: *from_id, to_id: *to_id })
            .collect(),
    }
}

#[test]
fn batch_with_all_messages_handled_is_confirmed() {
    let mut reader = batch(&[1, 2, 3, 4, 5]);
    let mut messages = reader.get_messages();
    assert_eq!(messages.len(), 5);
    while let Some(message) = messages.next() {
        reader.handled_ok(&message);
    }
    assert_eq!(reader.close(), full_ack());
}

#[test]
fn batch_with_no_message_handled_is_failed() {
    let mut reader = batch(&[1, 2, 3, 4, 5]);
    let mut messages = reader.get_messages();
    while messages.next().is_some() {}
    assert_eq!(reader.close(), full_fail());
}

#[test]
fn batch_that_was_never_read_is_failed() {
    assert_eq!(batch(&[1, 2, 3, 4, 5]).close(), full_fail());
}

#[test]
fn batch_with_some_messages_handled_reports_them() {
    let mut reader = batch(&[1, 2, 3, 4, 5]);
    reader.handled_ok(&delivered(2));
    reader.handled_ok(&delivered(4));
    assert_eq!(reader.delivered_snapshot(), vec![
        QueueIndexRange { from_id: 2, to_id: 2 },
        QueueIndexRange { from_id: 4, to_id: 4 },
    ]);
    assert_eq!(reader.close(), partial_ack(&[(2, 2), (4, 4)]));
}

#[test]
fn neighbouring_handled_messages_are_reported_as_one_range() {
    let mut reader = batch(&[10, 11, 12, 13, 14]);
    for id in [12, 10, 11, 14] {
        reader.handled_ok(&delivered(id));
    }
    assert_eq!(reader.close(), partial_ack(&[(10, 12), (14, 14)]));
}

#[test]
fn message_marked_twice_counts_once() {
    let mut reader = batch(&[1, 2]);
    reader.handled_ok(&delivered(1));
    reader.handled_ok(&delivered(1));
    assert_eq!(reader.close(), partial_ack(&[(1, 1)]));
}

#[test]
fn empty_batch_is_confirmed() {
    assert_eq!(batch(&[]).close(), full_ack());
}

#[test]
fn messages_are_handed_out_once() {
    let mut reader = batch(&[1, 2]);
    assert!(reader.can_get_messages());
    let mut messages = reader.get_messages();
    assert!(!reader.can_get_messages());
    assert_eq!(messages.next(), Some(delivered(1)));
    assert_eq!(messages.next(), Some(delivered(2)));
    assert_eq!(messages.next(), None);
    assert_eq!(messages.next(), None);
    assert_eq!(messages.len(), 0);
}

#[test]
fn messages_read_one_by_one_are_confirmed_one_by_one() {
    let mut reader = batch(&[7, 8, 9]);
    assert_eq!(reader.next(), Some(delivered(7)));
    reader.confirm_delivery();
    reader.confirm_delivery();
    assert_eq!(reader.next(), Some(delivered(8)));
    assert_eq!(reader.next(), Some(delivered(9)));
    reader.confirm_delivery();
    assert_eq!(reader.next(), None);
    reader.confirm_delivery();
    assert_eq!(reader.close(), partial_ack(&[(7, 7), (9, 9)]));
}

#[test]
fn reader_counts_what_is_handled() {
    let mut reader = batch(&[1, 2, 3]);
    assert_eq!(reader.total_messages_amount(), 3);
    assert_eq!(reader.delivered_amount(), 0);
    reader.handled_ok(&delivered(2));
    assert_eq!(reader.delivered_amount(), 1);
    reader.handled_ok(&delivered(2));
    assert_eq!(reader.delivered_amount(), 1);
    reader.handled_ok(&delivered(3));
    assert_eq!(reader.delivered_amount(), 2);
    assert_eq!(reader.total_messages_amount(), 3);
}

#[test]
fn reader_keeps_what_the_delivery_came_with() {
    let reader = batch(&[1]);
    assert_eq!(reader.topic_id(), "orders");
    assert_eq!(reader.queue_id(), "billing");
    assert_eq!(reader.confirmation_id(), 42);
    assert_eq!(reader.connection_id(), 1);
}

#[test]
fn package_is_read_once() {
    let mut package = MySbDeliveryPackage {
        topic_id: "orders".to_string(),
        queue_id: "billing".to_string(),
        messages: Some(vec![delivered(1), delivered(2)]),
        confirmation_id: 42,
        connection_id: 1,
    };
    assert!(package.can_read());
    let mut reader = package.read();
    assert!(!package.can_read());
    assert_eq!(package.messages, None);
    reader.handled_ok(&delivered(1));
    reader.handled_ok(&delivered(2));
    assert_eq!(reader.close(), full_ack());
}

#[test]
fn subscription_is_found_by_topic_and_queue() {
    let mut data: MySbSubscribersData<&'static str> = MySbSubscribersData::new();
    assert!(!data.has_subscriber("orders", "billing"));
    data.add("orders".to_string(), "billing".to_string(), TopicQueueType::Permanent, "first");
    data.add("orders".to_string(), "audit".to_string(), TopicQueueType::DeleteOnDisconnect, "second");
    data.add("trades".to_string(), "billing".to_string(), TopicQueueType::Permanent, "third");
    assert_eq!(data.len(), 3);
    assert!(data.has_subscriber("orders", "billing"));
    assert!(!data.has_subscriber("billing", "orders"));
    assert!(!data.has_subscriber("orders", "billin"));
    assert_eq!(data.get_callback("orders", "billing"), Some(&"first"));
    assert_eq!(data.get_callback("orders", "audit"), Some(&"second"));
    assert_eq!(data.get_callback("trades", "billing"), Some(&"third"));
    assert_eq!(data.get_callback("trades", "audit"), None);
}

#[test]
fn subscriber_gives_its_subscribe_packet() {
    let subscriber = Subscriber::new(
        "orders".to_string(),
        "billing".to_string(),
        TopicQueueType::PermanentWithSingleConnection,
        7u8,
    );
    assert_eq!(subscriber.callback, 7);
    assert_eq!(
        subscriber.to_packet(),
        TcpContract::Subscribe {
            topic_id: "orders".to_string(),
            queue_id: "billing".to_string(),
            queue_type: TopicQueueType::PermanentWithSingleConnection,
        }
    );
}

#[test]
fn every_connection_gets_every_subscription_once() {
    let mut subscribers: MySbSubscribers<u8> = MySbSubscribers::new();
    subscribers.add("T1".to_string(), "Q1".to_string(), TopicQueueType::Permanent, 1);
    let expected = vec![TcpContract::Subscribe {
        topic_id: "T1".to_string(),
        queue_id: "Q1".to_string(),
        queue_type: TopicQueueType::Permanent,
    }];
    for connection_id in 1..=3 {
        assert_eq!(subscribers.new_connection(connection_id), expected);
        assert_eq!(subscribers.connection(), Some(connection_id));
        subscribers.disconnect();
        assert_eq!(subscribers.connection(), None);
    }
    assert_eq!(subscribers.get_subscribers(), expected);
}

#[test]
fn delivery_goes_to_the_callback_of_its_queue() {
    let mut subscribers: MySbSubscribers<&'static str> = MySbSubscribers::new();
    subscribers.add("orders".to_string(), "billing".to_string(), TopicQueueType::Permanent, "billing");
    subscribers.add("orders".to_string(), "audit".to_string(), TopicQueueType::Permanent, "audit");
    subscribers.new_connection(3);
    let delivery = subscribers
        .new_messages(
            "orders".to_string(),
            "audit".to_string(),
            42,
            3,
            vec![delivered(1), delivered(2)],
        )
        .expect("the queue has a subscription");
    assert_eq!(*delivery.callback, "audit");
    let mut reader = delivery.reader;
    assert_eq!(reader.connection_id(), 3);
    let mut messages = reader.get_messages();
    while let Some(message) = messages.next() {
        reader.handled_ok(&message);
    }
    assert_eq!(
        subscribers.finish_delivery(reader),
        Some(TcpContract::NewMessagesConfirmation {
            topic_id: "orders".to_string(),
            queue_id: "audit".to_string(),
            confirmation_id: 42,
        })
    );
}

#[test]
fn delivery_without_subscription_is_dropped() {
    let mut subscribers: MySbSubscribers<u8> = MySbSubscribers::new();
    subscribers.add("orders".to_string(), "billing".to_string(), TopicQueueType::Permanent, 1);
    subscribers.new_connection(1);
    assert!(subscribers
        .new_messages("orders".to_string(), "audit".to_string(), 42, 1, vec![delivered(1)])
        .is_none());
}

#[test]
fn confirmation_goes_out_on_the_connection_of_the_delivery_only() {
    let mut subscribers: MySbSubscribers<u8> = MySbSubscribers::new();
    assert_eq!(subscribers.finish_delivery(batch(&[1])), None);
    subscribers.new_connection(1);
    assert_eq!(subscribers.finish_delivery(batch(&[1])), Some(full_fail()));
    subscribers.disconnect();
    assert_eq!(subscribers.finish_delivery(batch(&[1])), None);
    subscribers.new_connection(2);
    assert_eq!(subscribers.finish_delivery(batch(&[1])), None);
    assert_eq!(subscribers.send_packet(TcpContract::Ping, 2), Some(TcpContract::Ping));
    assert_eq!(subscribers.send_packet(TcpContract::Ping, 1), None);
}

#[test]
fn whole_delivery_is_confirmed_as_handled_or_failed() {
    let mut subscribers: MySbSubscribers<u8> = MySbSubscribers::new();
    subscribers.new_connection(1);
    assert_eq!(subscribers.confirm_delivery("orders", "billing", 42, 1, true), Some(full_ack()));
    assert_eq!(subscribers.confirm_delivery("orders", "billing", 42, 1, false), Some(full_fail()));
    assert_eq!(subscribers.confirm_delivery("orders", "billing", 42, 2, true), None);
    assert_eq!(
        subscribers.confirm_some_messages_ok(
            "orders",
            "billing",
            42,
            1,
            vec![QueueIndexRange { from_id: 2, to_id: 2 }, QueueIndexRange { from_id: 4, to_id: 4 }],
        ),
        Some(partial_ack(&[(2, 2), (4, 4)]))
    );
    assert_eq!(
        subscribers.confirm_some_messages_ok("orders", "billing", 42, 5, Vec::new()),
        None
    );
}

fn confirmation(connection_id: i64, not_delivered: Option<&[i64]>) -> MySbDeliveryConfirmation {
    MySbDeliveryConfirmation {
        topic_id: "orders".to_string(),
        queue_id: "billing".to_string(),
        confirmation_id: 42,
        connection_id,
        not_delivered: not_delivered.map(|ids| {
            let mut set = IntervalSet::new();
            for id in ids {
                set.enqueue(*id);
            }
            set
        }),
    }
}

#[test]
fn confirmation_reports_what_was_not_handled() {
    assert_eq!(send_confirmation(confirmation(1, None)), full_ack());
    assert_eq!(
        send_confirmation(confirmation(1, Some(&[3, 4, 9]))),
        TcpContract::ConfirmMessagesByNotDelivery {
            packet_version: 0,
            topic_id: "orders".to_string(),
            queue_id: "billing".to_string(),
            confirmation_id: 42,
            not_delivered: vec![
                QueueIndexRange { from_id: 3, to_id: 4 },
                QueueIndexRange { from_id: 9, to_id: 9 },
            ],
        }
    );
}

#[test]
fn confirmations_follow_the_current_connection() {
    let mut confirmations = ConfirmationLoop::new();
    let event = |connection_id| {
        MySbDeliveryConfirmationEvent::Confirmation(confirmation(connection_id, None))
    };
    assert_eq!(confirmations.start(event(1)), None);
    assert_eq!(confirmations.start(MySbDeliveryConfirmationEvent::Connected(1)), None);
    assert_eq!(confirmations.start(event(1)), Some(full_ack()));
    assert_eq!(confirmations.start(event(2)), None);
    assert_eq!(confirmations.start(MySbDeliveryConfirmationEvent::Disconnected(1)), None);
    assert_eq!(confirmations.start(event(1)), None);
    assert_eq!(confirmations.start(MySbDeliveryConfirmationEvent::Connected(2)), None);
    assert_eq!(confirmations.start(MySbDeliveryConfirmationEvent::Disconnected(7)), None);
    assert_eq!(confirmations.start(event(2)), None);
}
