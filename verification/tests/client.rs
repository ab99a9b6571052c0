use my_service_bus_tcp_client::contracts::{
    MessageToPublish, MySbDeliveredMessage, QueueIndexRange, TcpContract, TcpMessageType,
    TopicQueueType,
};
use my_service_bus_tcp_client::logger::{LogType, MySbClientLogEvent};
use my_service_bus_tcp_client::my_sb_client::{get_client_version, TcpConnectionSettings};
use my_service_bus_tcp_client::publishers::my_sb_publisher::{publish_result, PublishStep};
use my_service_bus_tcp_client::publishers::PublishError;
use my_service_bus_tcp_client::task_completion::TaskError;
use my_service_bus_tcp_client::tcp_client::TcpEvent;
use my_service_bus_tcp_client::tcp_client_data::{
    ConnectionEvent, Handled, IncomingData, TcpClientData,
};
use my_service_bus_tcp_client::text::same_text;

fn client() -> TcpClientData<&'static str> {
    let mut client = TcpClientData::new(
        "billing".to_string(),
        "1.2.3".to_string(),
        get_client_version(),
    );
    client.publishers.create_topic_if_not_exists("T1".to_string());
    client.publishers.create_topic_if_not_exists("T2".to_string());
    client.subscribers.add("T1".to_string(), "Q1".to_string(), TopicQueueType::Permanent, "on T1");
    client
}

fn handshake() -> Vec<TcpContract> {
    vec![
        TcpContract::Greeting { name: "billing:1.2.3;0.1.0".to_string(), protocol_version: 3 },
        TcpContract::PacketVersions { packet_versions: vec![(TcpMessageType::NewMessages, 1)] },
        TcpContract::CreateTopicIfNotExists { topic_id: "T1".to_string() },
        TcpContract::CreateTopicIfNotExists { topic_id: "T2".to_string() },
        TcpContract::Subscribe {
            topic_id: "T1".to_string(),
            queue_id: "Q1".to_string(),
            queue_type: TopicQueueType::Permanent,
        },
    ]
}

fn delivered(id: i64) -> MySbDeliveredMessage {
    MySbDeliveredMessage { id, attempt_no: 0, headers: None, content: Vec::new() }
}

#[test]
fn fresh_connection_replays_topics_and_subscriptions() {
    let mut client = client();
    assert!(!client.has_connection());
    for connection_id in 1..=3 {
        match client.handle(ConnectionEvent::Connected(connection_id)) {
            Handled::Connected { to_send, failed } => {
                assert_eq!(to_send, handshake());
                assert!(failed.is_empty());
            }
            _ => panic!("a connection was made"),
        }
        assert!(client.has_connection());
        assert!(client.publishers.has_connection());
        assert_eq!(client.subscribers.connection(), Some(connection_id));
        match client.handle(ConnectionEvent::Disconnected(connection_id)) {
            Handled::Disconnected { failed } => assert!(failed.is_empty()),
            _ => panic!("the connection was lost"),
        }
        assert!(!client.has_connection());
        assert!(!client.publishers.has_connection());
        assert_eq!(client.subscribers.connection(), None);
    }
}

#[test]
fn lost_connection_fails_the_publish_that_waits() {
    let mut client = client();
    client.handle(ConnectionEvent::Connected(1));
    let (_, step) =
        client.publishers.publish_message("T1", MessageToPublish::new(vec![1]), false);
    assert_eq!(step, PublishStep::Send { connection_id: 1, request_id: 1 });
    let failed = match client.handle(ConnectionEvent::Disconnected(1)) {
        Handled::Disconnected { failed } => failed,
        _ => panic!("the connection was lost"),
    };
    assert_eq!(failed.len(), 1);
    let mut failed = failed;
    let mut resolved = failed.remove(0);
    assert_eq!(resolved.request_id, 1);
    assert_eq!(
        resolved.completion.get_result(),
        Some(Err(TaskError::Error(PublishError::Disconnected)))
    );
    assert_eq!(
        publish_result(false, Err(PublishError::Disconnected)),
        PublishStep::Done(Err(PublishError::Disconnected))
    );
}

#[test]
fn connection_that_replaces_another_fails_what_waited() {
    let mut client = client();
    client.handle(ConnectionEvent::Connected(1));
    client.publishers.publish_message("T1", MessageToPublish::new(vec![1]), false);
    match client.handle(ConnectionEvent::Connected(2)) {
        Handled::Connected { to_send, failed } => {
            assert_eq!(to_send, handshake());
            assert_eq!(failed.len(), 1);
            assert_eq!(failed[0].request_id, 1);
        }
        _ => panic!("a connection was made"),
    }
    assert_eq!(client.publishers.pending_count(), 0);
}

#[test]
fn publish_response_completes_the_request() {
    let mut client = client();
    client.handle(ConnectionEvent::Connected(1));
    client.publishers.publish_message("T1", MessageToPublish::new(vec![1]), true);
    let incoming = client.new_incoming_data(1, TcpContract::PublishResponse { request_id: 1 });
    match incoming {
        IncomingData::PublishConfirmed(Some(mut resolved)) => {
            assert_eq!(resolved.request_id, 1);
            assert_eq!(resolved.completion.get_result(), Some(Ok(())));
        }
        _ => panic!("the request waited for the answer"),
    }
    assert!(matches!(
        client.new_incoming_data(1, TcpContract::PublishResponse { request_id: 1 }),
        IncomingData::PublishConfirmed(None)
    ));
    assert!(matches!(
        client.handle(ConnectionEvent::Payload {
            connection_id: 1,
            payload: TcpContract::PublishResponse { request_id: 9 }
        }),
        Handled::Incoming(IncomingData::PublishConfirmed(None))
    ));
}

#[test]
fn new_messages_go_to_the_subscriber() {
    let mut client = client();
    client.handle(ConnectionEvent::Connected(5));
    let packet = TcpContract::NewMessages {
        topic_id: "T1".to_string(),
        queue_id: "Q1".to_string(),
        confirmation_id: 11,
        messages: vec![delivered(1), delivered(2), delivered(3), delivered(4), delivered(5)],
    };
    let event = ConnectionEvent::Payload { connection_id: 5, payload: packet };
    let reader = match client.handle(event) {
        Handled::Incoming(IncomingData::Delivery(Some(delivery))) => {
            assert_eq!(*delivery.callback, "on T1");
            delivery.reader
        }
        _ => panic!("the queue has a subscription"),
    };
    assert_eq!(reader.connection_id(), 5);
    let mut reader = reader;
    reader.handled_ok(&delivered(2));
    reader.handled_ok(&delivered(4));
    assert_eq!(
        client.subscribers.finish_delivery(reader),
        Some(TcpContract::ConfirmSomeMessagesAsOk {
            packet_version: 0,
            topic_id: "T1".to_string(),
            queue_id: "Q1".to_string(),
            confirmation_id: 11,
            delivered: vec![
                QueueIndexRange { from_id: 2, to_id: 2 },
                QueueIndexRange { from_id: 4, to_id: 4 },
            ],
        })
    );
}

#[test]
fn new_messages_without_subscriber_are_dropped() {
    let mut client = client();
    client.handle(ConnectionEvent::Connected(1));
    let for_q2 = TcpContract::NewMessages {
        topic_id: "T1".to_string(),
        queue_id: "Q2".to_string(),
        confirmation_id: 12,
        messages: vec![delivered(1)],
    };
    assert!(matches!(client.new_incoming_data(1, for_q2), IncomingData::Delivery(None)));
}

#[test]
fn new_messages_reach_the_subscriber_without_a_current_connection() {
    let mut client = client();
    let for_q1 = TcpContract::NewMessages {
        topic_id: "T1".to_string(),
        queue_id: "Q1".to_string(),
        confirmation_id: 11,
        messages: vec![delivered(1)],
    };
    let reader = match client.new_incoming_data(4, for_q1) {
        IncomingData::Delivery(Some(delivery)) => {
            assert_eq!(*delivery.callback, "on T1");
            delivery.reader
        }
        _ => panic!("the queue has a subscription"),
    };
    assert_eq!(reader.connection_id(), 4);
    assert_eq!(reader.total_messages_amount(), 1);
    assert_eq!(client.subscribers.finish_delivery(reader), None);
}

#[test]
fn delivery_is_tagged_with_the_connection_that_brought_it() {
    let mut client = client();
    client.handle(ConnectionEvent::Connected(1));
    client.handle(ConnectionEvent::Connected(2));
    let packet = |confirmation_id| TcpContract::NewMessages {
        topic_id: "T1".to_string(),
        queue_id: "Q1".to_string(),
        confirmation_id,
        messages: vec![delivered(1)],
    };
    let late = match client.new_incoming_data(1, packet(11)) {
        IncomingData::Delivery(Some(delivery)) => delivery.reader,
        _ => panic!("the queue has a subscription"),
    };
    assert_eq!(late.connection_id(), 1);
    assert_eq!(client.subscribers.finish_delivery(late), None);
    let current = match client.new_incoming_data(2, packet(12)) {
        IncomingData::Delivery(Some(delivery)) => delivery.reader,
        _ => panic!("the queue has a subscription"),
    };
    assert_eq!(current.connection_id(), 2);
    assert_eq!(
        client.subscribers.finish_delivery(current),
        Some(TcpContract::AllMessagesConfirmedAsFail {
            topic_id: "T1".to_string(),
            queue_id: "Q1".to_string(),
            confirmation_id: 12,
        })
    );
}

#[test]
fn report_of_the_transport_becomes_an_event() {
    assert_eq!(
        ConnectionEvent::from_tcp_event(3, TcpEvent::Connect(7)),
        ConnectionEvent::Connected(7)
    );
    assert_eq!(
        ConnectionEvent::from_tcp_event(3, TcpEvent::Disconnect(7)),
        ConnectionEvent::Disconnected(7)
    );
    assert_eq!(
        ConnectionEvent::from_tcp_event(3, TcpEvent::Packet(TcpContract::Ping)),
        ConnectionEvent::Payload { connection_id: 3, payload: TcpContract::Ping }
    );
}

#[test]
fn other_packets_are_passed_over() {
    let mut client = client();
    client.handle(ConnectionEvent::Connected(1));
    for packet in [
        TcpContract::Ping,
        TcpContract::CreateTopicIfNotExists { topic_id: "T9".to_string() },
        TcpContract::Greeting { name: "x".to_string(), protocol_version: 3 },
    ] {
        assert!(matches!(client.new_incoming_data(1, packet), IncomingData::Ignored));
    }
    assert_eq!(
        client.publishers.get_topics_to_create(),
        vec!["T1".to_string(), "T2".to_string()]
    );
}

#[test]
fn client_names_itself() {
    assert_eq!(get_client_version(), "0.1.0");
    let settings = TcpConnectionSettings::new("localhost:6421".to_string());
    assert_eq!(settings.get_host_port(), "localhost:6421");
}

#[test]
fn texts_are_compared_character_by_character() {
    assert!(same_text("", ""));
    assert!(same_text("orders", "orders"));
    assert!(!same_text("orders", "order"));
    assert!(!same_text("orders", "orderz"));
    assert!(!same_text("Orders", "orders"));
    assert!(same_text("заказы", "заказы"));
    assert!(!same_text("заказы", "заказ"));
}

#[test]
fn log_event_keeps_what_it_is_given() {
    let event = MySbClientLogEvent {
        log_type: LogType::Error,
        process: "Connect loop".to_string(),
        message: "Can not connect".to_string(),
        context: None,
    };
    assert_eq!(event.log_type, LogType::Error);
    assert_ne!(event.log_type, LogType::Info);
    assert_ne!(event.log_type, LogType::FatalError);
    assert_eq!(event.clone(), event);
}
