use quantum_kapital::ibkr::client::{
    call_result, CallOutcome, ConnectStep, ConnectionState, IbkrClient, OpenOutcome, Phase,
    DROP_TIMEOUT_MS, PROBE_TIMEOUT_MS, RELEASE_GRACE_MS,
};
use quantum_kapital::ibkr::error::IbkrError;
use quantum_kapital::ibkr::types::{ConnectionConfig, ConnectionStatus};

fn connected_client() -> IbkrClient<u32> {
    let mut client = IbkrClient::new(ConnectionConfig::default());
    assert!(matches!(client.connect(), ConnectStep::Open { .. }));
    assert!(matches!(client.open_finished(OpenOutcome::Opened(7)), ConnectStep::Done(Ok(()))));
    client
}

#[test]
fn connecting_opens_a_session() {
    let mut client: IbkrClient<u32> = IbkrClient::new(ConnectionConfig::default());
    assert!(!client.is_connected());

    match client.connect() {
        ConnectStep::Open { address, client_id } => {
            assert_eq!(address, "127.0.0.1:4002");
            assert_eq!(client_id, 100);
        }
        other => panic!("expected an open step, got {:?}", other),
    }
    assert_eq!(client.phase(), Phase::Opening);
    assert!(!client.is_connected());

    let result = client.open_finished(OpenOutcome::Opened(7));
    assert!(matches!(result, ConnectStep::Done(Ok(()))));
    assert!(client.is_connected());
    assert_eq!(client.phase(), Phase::Idle);
    assert_eq!(client.handle().unwrap(), &7);
}

#[test]
fn a_rejected_connect_is_reported() {
    let mut client: IbkrClient<u32> = IbkrClient::new(ConnectionConfig::default());
    assert!(matches!(client.connect(), ConnectStep::Open { .. }));

    let result = client.open_finished(OpenOutcome::Rejected("Test error".to_string()));
    match result {
        ConnectStep::Done(Err(IbkrError::ConnectionFailed(msg))) => assert_eq!(msg, "Test error"),
        other => panic!("expected ConnectionFailed, got {:?}", other),
    }
    assert!(!client.is_connected());
    assert_eq!(client.retry_count(), 1);
    assert_eq!(client.phase(), Phase::Idle);
}

#[test]
fn a_lost_open_is_an_unknown_error() {
    let mut client: IbkrClient<u32> = IbkrClient::new(ConnectionConfig::default());
    assert!(matches!(client.connect(), ConnectStep::Open { .. }));
    match client.open_finished(OpenOutcome::Lost("task panicked".to_string())) {
        ConnectStep::Done(Err(IbkrError::Unknown(msg))) => assert_eq!(msg, "task panicked"),
        other => panic!("expected Unknown, got {:?}", other),
    }
    assert!(!client.is_connected());
    assert_eq!(client.retry_count(), 1);
}

#[test]
fn disconnecting_closes_the_session() {
    let mut client = connected_client();
    assert!(client.is_connected());

    match client.disconnect() {
        ConnectStep::Drop { handle, timeout_ms } => {
            assert_eq!(handle, 7);
            assert_eq!(timeout_ms, DROP_TIMEOUT_MS);
            assert_eq!(timeout_ms, 3000);
        }
        other => panic!("expected a drop step, got {:?}", other),
    }
    assert!(!client.is_connected());
    assert!(matches!(client.handle(), Err(IbkrError::NotConnected)));

    match client.drop_finished() {
        ConnectStep::Sleep { millis } => {
            assert_eq!(millis, RELEASE_GRACE_MS);
            assert_eq!(millis, 1000);
        }
        other => panic!("expected a sleep step, got {:?}", other),
    }
    assert!(matches!(client.grace_elapsed(), ConnectStep::Done(Ok(()))));
    assert!(!client.is_connected());
    assert_eq!(client.phase(), Phase::Idle);
}

#[test]
fn disconnect_without_a_session_is_a_noop() {
    let mut client: IbkrClient<u32> = IbkrClient::new(ConnectionConfig::default());
    assert!(matches!(client.disconnect(), ConnectStep::Done(Ok(()))));
    assert!(matches!(client.disconnect(), ConnectStep::Done(Ok(()))));
    assert_eq!(client.phase(), Phase::Idle);
}

#[test]
fn connect_on_a_live_session_only_probes() {
    let mut client = connected_client();
    for _ in 0..3 {
        match client.connect() {
            ConnectStep::Probe { timeout_ms } => {
                assert_eq!(timeout_ms, PROBE_TIMEOUT_MS);
                assert_eq!(timeout_ms, 2000);
            }
            other => panic!("expected a probe step, got {:?}", other),
        }
        assert_eq!(client.handle().unwrap(), &7);
        assert!(matches!(client.probe_finished(true), ConnectStep::Done(Ok(()))));
        assert_eq!(client.handle().unwrap(), &7);
        assert_eq!(client.phase(), Phase::Idle);
        assert_eq!(client.retry_count(), 0);
    }
}

#[test]
fn a_dead_session_is_replaced() {
    let mut client = connected_client();
    assert!(matches!(client.connect(), ConnectStep::Probe { .. }));

    match client.probe_finished(false) {
        ConnectStep::Drop { handle, timeout_ms } => {
            assert_eq!(handle, 7);
            assert_eq!(timeout_ms, 3000);
        }
        other => panic!("expected a drop step, got {:?}", other),
    }
    assert!(!client.is_connected());
    assert!(matches!(client.handle(), Err(IbkrError::NotConnected)));
    assert!(matches!(client.drop_finished(), ConnectStep::Sleep { millis: 1000 }));
    assert!(matches!(client.handle(), Err(IbkrError::NotConnected)));
    match client.grace_elapsed() {
        ConnectStep::Open { address, client_id } => {
            assert_eq!(address, "127.0.0.1:4002");
            assert_eq!(client_id, 100);
        }
        other => panic!("expected an open step, got {:?}", other),
    }
    assert!(matches!(client.open_finished(OpenOutcome::Opened(8)), ConnectStep::Done(Ok(()))));
    assert!(client.is_connected());
    assert_eq!(client.handle().unwrap(), &8);
}

#[test]
fn calls_out_of_turn_change_nothing() {
    let mut client = connected_client();
    assert!(matches!(client.drop_finished(), ConnectStep::Refused));
    assert!(matches!(client.grace_elapsed(), ConnectStep::Refused));
    assert!(matches!(client.probe_finished(true), ConnectStep::Refused));
    assert!(matches!(
        client.open_finished(OpenOutcome::Opened(9)),
        ConnectStep::Discard { handle: 9 }
    ));
    assert!(matches!(
        client.open_finished(OpenOutcome::Rejected("no".to_string())),
        ConnectStep::Refused
    ));
    assert_eq!(client.handle().unwrap(), &7);
    assert_eq!(client.retry_count(), 0);

    assert!(matches!(client.disconnect(), ConnectStep::Drop { .. }));
    assert!(matches!(client.connect(), ConnectStep::Refused));
    assert!(matches!(client.disconnect(), ConnectStep::Refused));
    assert_eq!(client.phase(), Phase::Dropping { reconnect: false });
}

#[test]
fn reading_without_a_session_fails() {
    let client: IbkrClient<u32> = IbkrClient::new(ConnectionConfig::default());
    let result = client.handle();
    assert!(result.is_err());
    match result.unwrap_err() {
        IbkrError::NotConnected => {}
        _ => panic!("Expected NotConnected error"),
    }
}

#[test]
fn call_failures_are_sorted() {
    let result: Result<Vec<String>, IbkrError> =
        call_result(CallOutcome::Failed("API Error".to_string()));
    assert!(result.is_err());
    match result.unwrap_err() {
        IbkrError::ApiError(msg) => assert_eq!(msg, "API Error"),
        _ => panic!("Expected ApiError"),
    }
    let lost: Result<u8, IbkrError> = call_result(CallOutcome::Lost("join failed".to_string()));
    assert!(matches!(lost, Err(IbkrError::Unknown(m)) if m == "join failed"));
    let fine: Result<u8, IbkrError> = call_result(CallOutcome::Returned(3));
    assert!(matches!(fine, Ok(3)));
}

#[test]
fn status_reports() {
    let client = connected_client();
    assert_eq!(client.status_probe(), Some(2000));
    let status: ConnectionStatus = client.get_connection_status(Some("2024-01-15 10:30:00".to_string()));
    assert!(status.connected);
    assert_eq!(status.server_time, Some("2024-01-15 10:30:00".to_string()));
    assert_eq!(status.client_id, 100);
    let status = client.get_connection_status(None);
    assert!(!status.connected);
    assert_eq!(status.server_time, None);

    let empty: IbkrClient<u32> = IbkrClient::new(ConnectionConfig::default());
    assert_eq!(empty.status_probe(), None);
    let status = empty.get_connection_status(Some("12:00".to_string()));
    assert!(!status.connected);
    assert_eq!(status.server_time, None);
    assert_eq!(status.client_id, 100);
}

#[test]
fn identities_and_retries() {
    let mut client: IbkrClient<u32> = IbkrClient::new(ConnectionConfig {
        host: "gw".to_string(),
        port: 7497,
        client_id: i32::MAX - 1,
    });
    client.increment_client_id();
    assert_eq!(client.config().client_id, i32::MAX);
    client.increment_client_id();
    assert_eq!(client.config().client_id, 0);
    client.increment_retry_count();
    client.increment_retry_count();
    assert_eq!(client.retry_count(), 2);
    client.reset_retry_count();
    assert_eq!(client.retry_count(), 0);
    match client.connect() {
        ConnectStep::Open { address, client_id } => {
            assert_eq!(address, "gw:7497");
            assert_eq!(client_id, 0);
        }
        other => panic!("expected an open step, got {:?}", other),
    }
}

#[test]
fn error_texts() {
    assert_eq!(IbkrError::NotConnected.to_string(), "Not connected");
    assert_eq!(IbkrError::ConnectionFailed("x".to_string()).to_string(), "Connection failed: x");
    assert_eq!(IbkrError::ApiError("x".to_string()).to_string(), "API error: x");
    assert_eq!(IbkrError::RequestFailed("x".to_string()).to_string(), "Request failed: x");
    assert_eq!(IbkrError::SerializationError("x".to_string()).to_string(), "Serialization error: x");
    assert_eq!(IbkrError::Unknown("x".to_string()).to_string(), "Unknown error: x");
    assert!(IbkrError::NotConnected.is_not_connected());
    assert!(!IbkrError::Unknown("x".to_string()).is_not_connected());
}

#[test]
fn the_life_of_a_connection() {
    let mut client: IbkrClient<u32> = IbkrClient::new(ConnectionConfig::default());
    assert_eq!(client.state(), ConnectionState::Disconnected);
    client.connect();
    assert_eq!(client.state(), ConnectionState::Connecting);
    client.open_finished(OpenOutcome::Rejected("no".to_string()));
    assert_eq!(client.state(), ConnectionState::Disconnected);
    client.connect();
    client.open_finished(OpenOutcome::Opened(1));
    assert_eq!(client.state(), ConnectionState::Connected);
    client.connect();
    assert_eq!(client.state(), ConnectionState::Connected);
    client.probe_finished(false);
    assert_eq!(client.state(), ConnectionState::Dead);
    client.drop_finished();
    assert_eq!(client.state(), ConnectionState::Disconnected);
    client.grace_elapsed();
    assert_eq!(client.state(), ConnectionState::Connecting);
    client.open_finished(OpenOutcome::Opened(2));
    assert_eq!(client.state(), ConnectionState::Connected);
    client.disconnect();
    assert_eq!(client.state(), ConnectionState::Disconnected);
    client.drop_finished();
    client.grace_elapsed();
    assert_eq!(client.state(), ConnectionState::Disconnected);
    assert_eq!(client.phase(), Phase::Idle);
}
