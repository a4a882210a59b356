//! Scenario tests for the connection registry and fan-out engine.

use std::collections::HashSet;

use ws_fanout::channel::{Channel, RecvOutcome};
use ws_fanout::message::WebSocketMessage;
use ws_fanout::websocket_manager::WebSocketManager;
use ws_fanout::{GLOBAL_CHANNEL_CAPACITY, PRIVATE_CHANNEL_CAPACITY};

fn value(text: &str) -> serde_json::Value {
    serde_json::from_str(text).expect("test payload must parse")
}

fn message(tag: &str, payload: &str) -> WebSocketMessage {
    WebSocketMessage {
        message_type: tag.to_string(),
        data: value(payload),
        timestamp_millis: chrono::Utc::now().timestamp_millis(),
    }
}

#[test]
fn test_websocket_manager_creation() {
    let manager = WebSocketManager::new();
    assert_eq!(manager.get_connection_count(), 0);
}

#[test]
fn test_broadcast_message() {
    let mut manager = WebSocketManager::new();
    let message = message("test", "{\"test\": \"data\"}");

    let result = manager.send_to_all(message);
    assert!(result.is_ok());
}

#[test]
fn registration_increments_count_and_removal_decrements_it() {
    let mut manager = WebSocketManager::new();
    let first = manager.add_connection(1);
    assert_eq!(manager.get_connection_count(), 1);
    let second = manager.add_connection(2);
    assert_eq!(manager.get_connection_count(), 2);

    manager.remove_connection(&first.connection_id);
    assert_eq!(manager.get_connection_count(), 1);
    manager.remove_connection(&second.connection_id);
    assert_eq!(manager.get_connection_count(), 0);
}

#[test]
fn connection_ids_have_uuid_length() {
    let mut manager = WebSocketManager::new();
    let handle = manager.add_connection(1);
    assert_eq!(handle.connection_id.chars().count(), 36);
}

#[test]
fn removal_is_idempotent() {
    let mut manager = WebSocketManager::new();
    let keep = manager.add_connection(1);
    let gone = manager.add_connection(2);

    manager.remove_connection(&gone.connection_id);
    let count_after_once = manager.get_connection_count();
    let ids_after_once = manager.get_user_connections(1);

    manager.remove_connection(&gone.connection_id);
    assert_eq!(manager.get_connection_count(), count_after_once);
    assert_eq!(manager.get_user_connections(1), ids_after_once);
    assert_eq!(manager.get_user_connections(1), vec![keep.connection_id.clone()]);

    // removing an id that never existed is equally harmless
    manager.remove_connection(&"no-such-id".to_string());
    assert_eq!(manager.get_connection_count(), 1);
}

#[test]
fn targeted_delivery_reaches_only_the_target_user() {
    let mut manager = WebSocketManager::new();
    let mut handle_a = manager.add_connection(10);
    let mut handle_b = manager.add_connection(20);

    let sent = message("trade_update", "{\"symbol\": \"EURUSD\"}");
    let result = manager.send_to_user(10, sent.clone());
    assert!(result.is_ok());

    match manager.poll_connection(&handle_a.connection_id, &mut handle_a.private_receiver) {
        RecvOutcome::Message(got) => {
            assert_eq!(got.message_type, "trade_update");
            assert_eq!(got.data, sent.data);
            assert_eq!(got.timestamp_millis, sent.timestamp_millis);
        }
        _ => panic!("user A must observe the message"),
    }
    assert!(matches!(
        manager.poll_connection(&handle_a.connection_id, &mut handle_a.private_receiver),
        RecvOutcome::Empty
    ));
    assert!(matches!(
        manager.poll_connection(&handle_b.connection_id, &mut handle_b.private_receiver),
        RecvOutcome::Empty
    ));
}

#[test]
fn broadcast_fans_out_to_every_connection() {
    let mut manager = WebSocketManager::new();
    let mut handles = Vec::new();
    for user in 0..5u128 {
        handles.push(manager.add_connection(user));
    }

    let sent = message("system_notification", "{\"text\": \"maintenance\"}");
    let result = manager.send_to_all(sent.clone());
    assert!(result.is_ok());

    for handle in handles.iter_mut() {
        match manager.poll_global(&mut handle.global_receiver) {
            RecvOutcome::Message(got) => {
                assert_eq!(got.message_type, "system_notification");
                assert_eq!(got.data, sent.data);
            }
            _ => panic!("every connection must observe the broadcast"),
        }
        assert!(matches!(
            manager.poll_global(&mut handle.global_receiver),
            RecvOutcome::Empty
        ));
    }
}

#[test]
fn sending_to_an_offline_user_is_a_silent_noop() {
    let mut manager = WebSocketManager::new();
    let mut handle = manager.add_connection(1);

    let result = manager.send_to_user(999, message("test", "{\"x\": 1}"));
    assert!(result.is_ok());
    assert_eq!(manager.get_connection_count(), 1);
    assert!(matches!(
        manager.poll_connection(&handle.connection_id, &mut handle.private_receiver),
        RecvOutcome::Empty
    ));
}

#[test]
fn sending_to_an_unknown_connection_reports_closed() {
    let manager = WebSocketManager::new();
    let mut receiver = Channel::new(1).subscribe();
    assert!(matches!(
        manager.poll_connection(&"absent".to_string(), &mut receiver),
        RecvOutcome::Closed
    ));
}

#[test]
fn slow_consumer_lags_while_fresh_consumer_sees_everything() {
    // a channel driven directly, with a small capacity for a sharp picture
    let mut channel = Channel::new(3);
    let mut stalled = channel.subscribe();
    let mut steady = channel.subscribe();

    for i in 0..5 {
        channel.publish(message("tick", &format!("{{\"n\": {}}}", i)));
        // the steady consumer drains after every publish and misses nothing
        match channel.try_recv(&mut steady) {
            RecvOutcome::Message(got) => {
                assert_eq!(got.data, value(&format!("{{\"n\": {}}}", i)));
            }
            _ => panic!("a consumer that keeps up observes every message"),
        }
    }

    // the stalled consumer lost the two oldest of the five messages
    match channel.try_recv(&mut stalled) {
        RecvOutcome::Lagged(skipped) => assert_eq!(skipped, 2),
        _ => panic!("a consumer that fell behind must observe the lag"),
    }
    let mut observed = Vec::new();
    loop {
        match channel.try_recv(&mut stalled) {
            RecvOutcome::Message(got) => observed.push(got),
            RecvOutcome::Empty => break,
            _ => panic!("after the lag report the retained tail is readable"),
        }
    }
    assert_eq!(observed.len(), 3);
    assert_eq!(observed[0].data, value("{\"n\": 2}"));
    assert_eq!(observed[2].data, value("{\"n\": 4}"));
}

#[test]
fn global_channel_drops_oldest_for_stalled_subscriber_under_burst() {
    let mut manager = WebSocketManager::new();
    let mut handle = manager.add_connection(1);

    let burst = GLOBAL_CHANNEL_CAPACITY + 7;
    for i in 0..burst {
        let result = manager.send_to_all(message("market_data", &format!("{{\"i\": {}}}", i)));
        assert!(result.is_ok());
    }

    match manager.poll_global(&mut handle.global_receiver) {
        RecvOutcome::Lagged(skipped) => assert_eq!(skipped, 7),
        _ => panic!("the stalled subscriber must observe the lag"),
    }
    let mut observed = 0usize;
    loop {
        match manager.poll_global(&mut handle.global_receiver) {
            RecvOutcome::Message(_) => observed += 1,
            RecvOutcome::Empty => break,
            _ => panic!("draining the retained tail"),
        }
    }
    assert_eq!(observed, GLOBAL_CHANNEL_CAPACITY);
    assert!(observed < burst);
}

#[test]
fn private_queue_is_bounded_at_its_capacity() {
    let mut manager = WebSocketManager::new();
    let mut handle = manager.add_connection(1);

    let burst = PRIVATE_CHANNEL_CAPACITY + 3;
    for i in 0..burst {
        let result = manager.send_to_user(1, message("tick", &format!("{{\"i\": {}}}", i)));
        assert!(result.is_ok());
    }
    match manager.poll_connection(&handle.connection_id, &mut handle.private_receiver) {
        RecvOutcome::Lagged(skipped) => assert_eq!(skipped, 3),
        _ => panic!("the stalled private consumer must observe the lag"),
    }
}

#[test]
fn thousand_registrations_yield_thousand_distinct_connections() {
    let mut manager = WebSocketManager::new();
    let mut ids = HashSet::new();
    for user in 0..1000u128 {
        let handle = manager.add_connection(user);
        ids.insert(handle.connection_id);
    }
    assert_eq!(manager.get_connection_count(), 1000);
    assert_eq!(ids.len(), 1000);
}

#[test]
fn typed_events_carry_their_tags() {
    let mut manager = WebSocketManager::new();
    let mut handle = manager.add_connection(42);

    let trade = value("{\"profit\": 5}");
    assert!(manager.broadcast_trade_update(42, trade.clone()).is_ok());
    match manager.poll_connection(&handle.connection_id, &mut handle.private_receiver) {
        RecvOutcome::Message(got) => {
            assert_eq!(got.message_type, "trade_update");
            assert_eq!(got.data, trade);
        }
        _ => panic!("the trade update must reach its user"),
    }

    let robot = value("{\"status\": \"running\"}");
    assert!(manager.broadcast_robot_status(42, robot.clone()).is_ok());
    match manager.poll_connection(&handle.connection_id, &mut handle.private_receiver) {
        RecvOutcome::Message(got) => {
            assert_eq!(got.message_type, "robot_status");
            assert_eq!(got.data, robot);
        }
        _ => panic!("the robot status must reach its user"),
    }

    let market = value("{\"bid\": 1}");
    assert!(manager.broadcast_market_data(market.clone()).is_ok());
    match manager.poll_global(&mut handle.global_receiver) {
        RecvOutcome::Message(got) => {
            assert_eq!(got.message_type, "market_data");
            assert_eq!(got.data, market);
        }
        _ => panic!("market data goes out on the global channel"),
    }

    let notice = value("{\"text\": \"hello\"}");
    assert!(manager.broadcast_system_notification(notice.clone()).is_ok());
    match manager.poll_global(&mut handle.global_receiver) {
        RecvOutcome::Message(got) => {
            assert_eq!(got.message_type, "system_notification");
            assert_eq!(got.data, notice);
        }
        _ => panic!("system notifications go out on the global channel"),
    }
}

#[test]
fn get_user_connections_lists_only_that_user() {
    let mut manager = WebSocketManager::new();
    let a1 = manager.add_connection(1);
    let _b = manager.add_connection(2);
    let a2 = manager.add_connection(1);

    let ids = manager.get_user_connections(1);
    assert_eq!(ids, vec![a1.connection_id.clone(), a2.connection_id.clone()]);
    assert!(manager.get_user_connections(3).is_empty());
}

#[test]
fn messages_keep_fifo_order_per_source() {
    let mut manager = WebSocketManager::new();
    let mut handle = manager.add_connection(1);
    for i in 0..4 {
        assert!(manager
            .send_to_user(1, message("tick", &format!("{{\"n\": {}}}", i)))
            .is_ok());
    }
    for i in 0..4 {
        match manager.poll_connection(&handle.connection_id, &mut handle.private_receiver) {
            RecvOutcome::Message(got) => {
                assert_eq!(got.data, value(&format!("{{\"n\": {}}}", i)));
            }
            _ => panic!("enqueue order is delivery order on one source"),
        }
    }
}

#[test]
fn removed_connection_queue_reports_closed() {
    let mut manager = WebSocketManager::new();
    let mut handle = manager.add_connection(1);
    assert!(manager.send_to_user(1, message("tick", "{\"n\": 0}")).is_ok());
    manager.remove_connection(&handle.connection_id);
    // the enqueued message is discarded with the record
    assert!(matches!(
        manager.poll_connection(&handle.connection_id, &mut handle.private_receiver),
        RecvOutcome::Closed
    ));
}
