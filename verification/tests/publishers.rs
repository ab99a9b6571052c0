use std::collections::HashMap;

use my_service_bus_tcp_client::contracts::{MessageToPublish, TcpContract};
use my_service_bus_tcp_client::publishers::my_sb_publisher::{
    publish_result, waited, write_failed, PublishStep,
};
use my_service_bus_tcp_client::publishers::publish_process_by_connection::ResolvedPublish;
use my_service_bus_tcp_client::publishers::{
    MySbPublisherData, MySbPublishers, PublishError, PublishProcessByConnection,
};
use my_service_bus_tcp_client::task_completion::TaskError;
use my_service_bus_tcp_client::tcp::socket_ctx::SocketError;

fn message(content: &[u8]) -> MessageToPublish {
    MessageToPublish::new(content.to_vec())
}

fn outcome_of(mut resolved: ResolvedPublish) -> (i64, Result<(), TaskError<PublishError>>) {
    let outcome = resolved.completion.get_result().expect("a resolved request has an outcome");
    (resolved.request_id, outcome)
}

fn outcomes_of(resolved: Vec<ResolvedPublish>) -> Vec<(i64, Result<(), TaskError<PublishError>>)> {
    let mut outcomes: Vec<_> = resolved.into_iter().map(outcome_of).collect();
    outcomes.sort_by_key(|outcome| outcome.0);
    outcomes
}

#[test]
fn message_without_headers() {
    let message = MessageToPublish::new(vec![1, 2, 3]);
    assert_eq!(message.headers, None);
    assert_eq!(message.content, vec![1, 2, 3]);
}

#[test]
fn message_with_headers() {
    let mut headers = HashMap::new();
    headers.insert("key".to_string(), "value".to_string());
    let message = MessageToPublish::new_with_headers(vec![9], headers.clone());
    assert_eq!(message.headers, Some(headers));
    assert_eq!(message.content, vec![9]);
}

#[test]
fn request_ids_start_at_one_and_ascend() {
    let mut data = MySbPublisherData::new();
    assert_eq!(data.get_next_request_id(), 1);
    assert_eq!(data.get_next_request_id(), 2);
    assert_eq!(data.get_next_request_id(), 3);
    assert!(data.can_issue_request_id());
}

#[test]
fn request_ids_go_on_across_connections() {
    let mut data = MySbPublisherData::new();
    data.connect(1);
    assert_eq!(data.get_next_request_id(), 1);
    data.disconnect();
    data.connect(2);
    assert_eq!(data.get_next_request_id(), 2);
}

#[test]
fn publish_payload_carries_topic_id_and_messages() {
    let mut data = MySbPublisherData::new();
    let (request_id, packet) =
        data.compile_publish_payload("orders", vec![message(b"a"), message(b"b")]);
    assert_eq!(request_id, 1);
    assert_eq!(
        packet,
        TcpContract::Publish {
            topic_id: "orders".to_string(),
            request_id: 1,
            persist_immediately: false,
            data_to_publish: vec![message(b"a"), message(b"b")],
        }
    );
}

#[test]
fn publish_to_socket_without_connection_fails() {
    let mut data = MySbPublisherData::new();
    assert_eq!(data.publish_to_socket(1), Err(PublishError::NoConnectionToPublish));
    assert_eq!(data.pending_count(), 0);
    assert!(!data.is_pending(1));
}

#[test]
fn publish_to_socket_registers_on_the_current_connection() {
    let mut data = MySbPublisherData::new();
    data.connect(4);
    assert_eq!(data.connection_id(), Some(4));
    assert_eq!(data.publish_to_socket(1), Ok(4));
    assert_eq!(data.publish_to_socket(2), Ok(4));
    assert!(data.is_pending(1));
    assert!(data.is_pending(2));
    assert_eq!(data.pending_count(), 2);
}

#[test]
fn confirm_completes_the_request_that_waits() {
    let mut data = MySbPublisherData::new();
    data.connect(1);
    data.publish_to_socket(1).unwrap();
    data.publish_to_socket(2).unwrap();
    let resolved = data.confirm(1).expect("request 1 waits");
    assert_eq!(outcome_of(resolved), (1, Ok(())));
    assert!(!data.is_pending(1));
    assert!(data.is_pending(2));
    assert!(data.confirm(1).is_none());
    assert!(data.confirm(77).is_none());
    assert_eq!(data.pending_count(), 1);
}

#[test]
fn confirm_without_connection_does_nothing() {
    let mut data = MySbPublisherData::new();
    assert!(data.confirm(1).is_none());
    assert!(!data.has_connection());
}

#[test]
fn disconnect_fails_every_pending_request() {
    let mut data = MySbPublisherData::new();
    data.connect(1);
    for request_id in 1..=3 {
        data.publish_to_socket(request_id).unwrap();
    }
    data.confirm(2);
    let failed = outcomes_of(data.disconnect());
    assert_eq!(
        failed,
        vec![
            (1, Err(TaskError::Error(PublishError::Disconnected))),
            (3, Err(TaskError::Error(PublishError::Disconnected))),
        ]
    );
    assert!(!data.has_connection());
    assert_eq!(data.pending_count(), 0);
    assert!(data.disconnect().is_empty());
}

#[test]
fn new_connection_fails_what_waited_on_the_old_one() {
    let mut data = MySbPublisherData::new();
    data.connect(1);
    data.publish_to_socket(1).unwrap();
    let failed = outcomes_of(data.connect(2));
    assert_eq!(failed, vec![(1, Err(TaskError::Error(PublishError::Disconnected)))]);
    assert_eq!(data.connection_id(), Some(2));
    assert_eq!(data.pending_count(), 0);
    assert!(data.confirm(1).is_none());
}

#[test]
fn no_pending_request_survives_connect_and_disconnect_in_turn() {
    let mut publishers = MySbPublishers::new();
    let mut next_request_id = 1;
    for connection_id in 1..=5 {
        let started = publishers.new_connection(connection_id);
        assert!(started.failed.is_empty());
        let mut sent = Vec::new();
        for _ in 0..connection_id {
            let (request, step) = publishers.publish_message("orders", message(b"m"), false);
            assert_eq!(
                step,
                PublishStep::Send { connection_id, request_id: next_request_id }
            );
            sent.push(request.request_id());
            next_request_id += 1;
        }
        let failed = publishers.disconnect();
        let mut failed_ids: Vec<i64> = failed.iter().map(|r| r.request_id).collect();
        failed_ids.sort();
        assert_eq!(failed_ids, sent);
        assert_eq!(publishers.pending_count(), 0);
        for request_id in sent {
            assert!(!publishers.is_pending(request_id));
        }
    }
}

#[test]
fn pending_requests_of_a_connection() {
    let mut process = PublishProcessByConnection::new(9);
    assert_eq!(process.connection_id(), 9);
    process.register(5);
    process.register(6);
    process.register(5);
    assert_eq!(process.pending_count(), 2);
    let mut ids = process.pending_ids();
    ids.sort();
    assert_eq!(ids, vec![5, 6]);
    assert!(process.is_pending(6));
    assert!(process.confirm(6).is_some());
    assert!(process.confirm(6).is_none());
    let failed = outcomes_of(process.close());
    assert_eq!(failed, vec![(5, Err(TaskError::Error(PublishError::Disconnected)))]);
}

#[test]
fn topics_are_declared_once() {
    let mut publishers = MySbPublishers::new();
    publishers.create_topic_if_not_exists("T1".to_string());
    publishers.create_topic_if_not_exists("T2".to_string());
    publishers.create_topic_if_not_exists("T1".to_string());
    assert_eq!(publishers.get_topics_to_create(), vec!["T1".to_string(), "T2".to_string()]);
}

#[test]
fn every_connection_gets_every_topic_once() {
    let mut publishers = MySbPublishers::new();
    publishers.create_topic_if_not_exists("T1".to_string());
    publishers.create_topic_if_not_exists("T2".to_string());
    let expected = vec![
        TcpContract::CreateTopicIfNotExists { topic_id: "T1".to_string() },
        TcpContract::CreateTopicIfNotExists { topic_id: "T2".to_string() },
    ];
    for connection_id in 1..=3 {
        let started = publishers.new_connection(connection_id);
        assert_eq!(started.declarations, expected);
        publishers.disconnect();
    }
}

#[test]
fn publish_without_connection_and_without_retry_fails_at_once() {
    let mut publishers = MySbPublishers::new();
    let (request, step) = publishers.publish_message("orders", message(b"M"), false);
    assert_eq!(step, PublishStep::Done(Err(PublishError::NoConnectionToPublish)));
    assert_eq!(request.request_id(), 1);
    assert_eq!(publishers.pending_count(), 0);
}

#[test]
fn publish_with_retry_waits_for_a_connection_and_succeeds() {
    let mut publishers = MySbPublishers::new();
    let (mut request, step) = publishers.publish_message("orders", message(b"M"), true);
    assert_eq!(step, PublishStep::WaitForConnection);
    assert!(!publishers.has_connection());
    assert_eq!(publishers.publish_attempt(&mut request), PublishStep::WaitForConnection);

    publishers.new_connection(1);
    assert!(publishers.has_connection());
    let step = publishers.publish_attempt(&mut request);
    assert_eq!(step, PublishStep::Send { connection_id: 1, request_id: 1 });
    assert_eq!(
        request.packet(),
        &TcpContract::Publish {
            topic_id: "orders".to_string(),
            request_id: 1,
            persist_immediately: false,
            data_to_publish: vec![message(b"M")],
        }
    );
    assert!(publishers.is_pending(1));

    let resolved = publishers.set_confirmed(1).expect("the request waits");
    let (request_id, outcome) = outcome_of(resolved);
    assert_eq!(request_id, 1);
    assert_eq!(outcome, Ok(()));
    assert_eq!(publish_result(request.do_retries(), Ok(())), PublishStep::Done(Ok(())));
    assert!(!publishers.is_pending(1));
}

#[test]
fn retry_after_a_lost_connection_goes_out_under_a_new_id() {
    let mut publishers = MySbPublishers::new();
    publishers.new_connection(1);
    let (mut request, step) =
        publishers.publish_messages("orders", vec![message(b"a"), message(b"b")], true);
    assert_eq!(step, PublishStep::Send { connection_id: 1, request_id: 1 });

    let failed = outcomes_of(publishers.disconnect());
    assert_eq!(failed, vec![(1, Err(TaskError::Error(PublishError::Disconnected)))]);
    assert_eq!(
        publish_result(true, Err(PublishError::Disconnected)),
        PublishStep::WaitForConnection
    );
    assert_eq!(publishers.publish_attempt(&mut request), PublishStep::WaitForConnection);

    publishers.new_connection(2);
    let step = publishers.publish_attempt(&mut request);
    assert_eq!(step, PublishStep::Send { connection_id: 2, request_id: 2 });
    assert_eq!(request.request_id(), 2);
    assert_eq!(
        request.packet(),
        &TcpContract::Publish {
            topic_id: "orders".to_string(),
            request_id: 2,
            persist_immediately: false,
            data_to_publish: vec![message(b"a"), message(b"b")],
        }
    );
    assert!(publishers.is_pending(2));
    assert!(!publishers.is_pending(1));
}

#[test]
fn retry_policy_covers_lost_connections_only() {
    let other = PublishError::Other("write failed".to_string());
    let codec = PublishError::SerializationError("too long".to_string());
    for do_retries in [false, true] {
        assert_eq!(publish_result(do_retries, Ok(())), PublishStep::Done(Ok(())));
        assert_eq!(
            publish_result(do_retries, Err(other.clone())),
            PublishStep::Done(Err(other.clone()))
        );
        assert_eq!(
            publish_result(do_retries, Err(codec.clone())),
            PublishStep::Done(Err(codec.clone()))
        );
    }
    assert_eq!(
        publish_result(false, Err(PublishError::Disconnected)),
        PublishStep::Done(Err(PublishError::Disconnected))
    );
    assert_eq!(
        publish_result(false, Err(PublishError::NoConnectionToPublish)),
        PublishStep::Done(Err(PublishError::NoConnectionToPublish))
    );
    assert_eq!(
        publish_result(true, Err(PublishError::NoConnectionToPublish)),
        PublishStep::WaitForConnection
    );
}

#[test]
fn write_to_a_lost_connection_ends_as_disconnected() {
    assert_eq!(
        write_failed(SocketError::Disconnected { socket_id: 3 }),
        PublishError::Disconnected
    );
    assert_eq!(
        publish_result(true, Err(write_failed(SocketError::Disconnected { socket_id: 3 }))),
        PublishStep::WaitForConnection
    );
    assert_eq!(
        write_failed(SocketError::WriteFailed { socket_id: 3, reason: "broken pipe".to_string() }),
        PublishError::Other("broken pipe".to_string())
    );
    assert_eq!(
        publish_result(
            true,
            Err(write_failed(SocketError::WriteFailed {
                socket_id: 3,
                reason: "broken pipe".to_string()
            }))
        ),
        PublishStep::Done(Err(PublishError::Other("broken pipe".to_string())))
    );
}

#[test]
fn waiter_is_told_how_the_request_ended() {
    assert_eq!(waited(Ok(())), Ok(()));
    assert_eq!(
        waited(Err(TaskError::Error(PublishError::Disconnected))),
        Err(PublishError::Disconnected)
    );
    assert_eq!(
        waited(Err(TaskError::Error(PublishError::Other("rejected".to_string())))),
        Err(PublishError::Other("rejected".to_string()))
    );
    assert_eq!(
        waited(Err(TaskError::FatalError("dropped".to_string()))),
        Err(PublishError::Disconnected)
    );
}

#[test]
fn errors_that_can_be_retried() {
    assert!(PublishError::NoConnectionToPublish.can_retry());
    assert!(PublishError::Disconnected.can_retry());
    assert!(!PublishError::Other("x".to_string()).can_retry());
    assert!(!PublishError::SerializationError("x".to_string()).can_retry());
    assert_eq!(
        PublishError::from_detail("broker said no".to_string()),
        PublishError::Other("broker said no".to_string())
    );
}
