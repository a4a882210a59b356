//! Tests for the surrounding services: brokerage sessions, notifications,
//! the predictor handle, and the lifecycle decisions.

use ws_fanout::ai_trading_service::AiTradingService;
use ws_fanout::errors::AppError;
use ws_fanout::lifecycle::{
    lifecycle_step, reader_decision, writer_decision, writer_forward_result, ConnectionState,
    LifecycleEvent, ReaderDirective, ReaderEvent, WriterDirective,
};
use ws_fanout::channel::RecvOutcome;
use ws_fanout::message::WebSocketMessage;
use ws_fanout::mt5_service::{BrokerConnection, Mt5Service};
use ws_fanout::notification_service::{EmailNotification, NotificationService};

fn create_test_connection() -> BrokerConnection {
    let now = chrono::Utc::now().timestamp_millis();
    BrokerConnection {
        id: uuid::Uuid::new_v4().to_string(),
        user_id: uuid::Uuid::new_v4().to_string(),
        name: "Test MT5".to_string(),
        broker_type: "MT5".to_string(),
        api_key: "test_key".to_string(),
        api_secret: "test_secret".to_string(),
        server: Some("MetaQuotes-Demo".to_string()),
        login: Some("12345678".to_string()),
        is_active: true,
        is_demo: true,
        last_test_at: None,
        last_test_status: None,
        created_at: now,
        updated_at: now,
    }
}

#[test]
fn test_mt5_connection() {
    let mut service = Mt5Service::new();
    let connection = create_test_connection();

    let result = service.connect(&connection);
    assert!(result.is_ok());
    assert!(service.is_connected(&connection.id.to_string()));
}

#[test]
fn mt5_connect_requires_login_and_server() {
    let mut service = Mt5Service::new();

    let mut no_login = create_test_connection();
    no_login.login = None;
    match service.connect(&no_login) {
        Err(AppError::Mt5(msg)) => assert_eq!(msg, "Login required for MT5 connection"),
        _ => panic!("a connection without a login must be refused"),
    }

    let mut no_server = create_test_connection();
    no_server.server = None;
    match service.connect(&no_server) {
        Err(AppError::Mt5(msg)) => assert_eq!(msg, "Server required for MT5 connection"),
        _ => panic!("a connection without a server must be refused"),
    }
}

#[test]
fn mt5_disconnect_marks_session_disconnected() {
    let mut service = Mt5Service::new();
    let connection = create_test_connection();
    service.connect(&connection).unwrap();
    assert!(service.is_connected(&connection.id));

    assert!(service.disconnect(&connection.id).is_ok());
    assert!(!service.is_connected(&connection.id));

    // disconnecting an unknown id is a no-op, not an error
    assert!(service.disconnect(&"unknown".to_string()).is_ok());
    assert!(!service.is_connected(&"unknown".to_string()));
}

#[test]
fn mt5_close_position_guards_its_session() {
    let mut service = Mt5Service::new();
    let connection = create_test_connection();

    match service.close_position(&connection.id, 7) {
        Err(AppError::Mt5(msg)) => assert_eq!(msg, "Connection not found"),
        _ => panic!("closing without a session must be refused"),
    }

    service.connect(&connection).unwrap();
    assert!(service.close_position(&connection.id, 7).is_ok());

    service.disconnect(&connection.id).unwrap();
    match service.close_position(&connection.id, 7) {
        Err(AppError::Mt5(msg)) => assert_eq!(msg, "Not connected to MT5"),
        _ => panic!("closing over a disconnected session must be refused"),
    }
}

#[test]
fn test_notification_creation() {
    let service = NotificationService::new(None, None, None);
    let notification = service.create_trading_notification(
        123i64,
        "trade_executed",
        "New Trade",
        "A new trade has been executed",
        None,
    );

    assert_eq!(notification.notification_type, "trade_executed");
    assert_eq!(notification.title, "New Trade");
}

#[test]
fn trading_notification_carries_all_fields() {
    let service = NotificationService::new(
        Some("smtp.example.com".to_string()),
        Some("mailer".to_string()),
        Some("secret".to_string()),
    );
    let payload: serde_json::Value = serde_json::from_str("{\"k\": 1}").unwrap();
    let notification = service.create_trading_notification(
        7,
        "robot_stopped",
        "Robot stopped",
        "Your robot stopped",
        Some(payload.clone()),
    );
    assert_eq!(notification.user_id, 7);
    assert_eq!(notification.message, "Your robot stopped");
    assert_eq!(notification.data, Some(payload));

    let email = EmailNotification {
        to: "test@example.com".to_string(),
        subject: "Test".to_string(),
        body: "Test body".to_string(),
        is_html: false,
    };
    assert!(!email.is_html);
    assert_eq!(email.to, "test@example.com");
}

#[test]
fn predictor_handle_construction_succeeds() {
    let service = AiTradingService::new("../model/trading_model.onnx");
    assert!(service.is_ok());
}

#[test]
fn lifecycle_moves_forward_and_cleanup_is_terminal() {
    let s = lifecycle_step(ConnectionState::Registering, LifecycleEvent::Registered);
    assert_eq!(s, ConnectionState::Active);
    let s = lifecycle_step(s, LifecycleEvent::FailureObserved);
    assert_eq!(s, ConnectionState::Closing);
    let s = lifecycle_step(s, LifecycleEvent::CleanedUp);
    assert_eq!(s, ConnectionState::Removed);
    // the second racing cleanup finds a terminal state and stays put
    assert_eq!(
        lifecycle_step(ConnectionState::Removed, LifecycleEvent::CleanedUp),
        ConnectionState::Removed
    );
    // unrelated events do not move the machine
    assert_eq!(
        lifecycle_step(ConnectionState::Active, LifecycleEvent::Registered),
        ConnectionState::Active
    );
}

#[test]
fn reader_stops_only_on_close_or_error() {
    assert_eq!(reader_decision(ReaderEvent::TextFrame), ReaderDirective::KeepReading);
    assert_eq!(reader_decision(ReaderEvent::OtherFrame), ReaderDirective::KeepReading);
    assert_eq!(reader_decision(ReaderEvent::CloseFrame), ReaderDirective::StopAndRemove);
    assert_eq!(reader_decision(ReaderEvent::StreamError), ReaderDirective::StopAndRemove);
}

#[test]
fn writer_survives_lag_but_stops_on_closed_source_or_failed_write() {
    let msg = WebSocketMessage {
        message_type: "test".to_string(),
        data: serde_json::Value::Null,
        timestamp_millis: 0,
    };
    match writer_decision(RecvOutcome::Message(msg)) {
        WriterDirective::Forward(m) => assert_eq!(m.message_type, "test"),
        _ => panic!("a received message is forwarded"),
    }
    assert!(matches!(writer_decision(RecvOutcome::Empty), WriterDirective::KeepWaiting));
    assert!(matches!(writer_decision(RecvOutcome::Lagged(3)), WriterDirective::KeepWaiting));
    assert!(matches!(writer_decision(RecvOutcome::Closed), WriterDirective::StopAndRemove));

    // a frame that would not serialize is skipped; a failed write is fatal
    assert!(matches!(writer_forward_result(false, false), WriterDirective::KeepWaiting));
    assert!(matches!(writer_forward_result(true, false), WriterDirective::StopAndRemove));
    assert!(matches!(writer_forward_result(true, true), WriterDirective::KeepWaiting));
}
