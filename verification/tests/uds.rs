use agentos_actor::uds::{
    check_request_frame, check_response_frame, check_response_id, frame_length, map_response,
    negotiated_frame_limit, request_timeout_error, timeout_millis, ActorUdsError, QueryResult,
    ResponsePayload, MAX_FRAME_BYTES,
};

#[test]
fn uds_errors_render_their_messages() {
    assert_eq!(
        ActorUdsError::QueueFull { limit: "writes".into(), capacity: 8 }.message(),
        "actor SQLite UDS queue limit writes reached (capacity 8)"
    );
    assert_eq!(
        ActorUdsError::Sql { code: -1, statement_index: 2, message: "no such table".into() }.message(),
        "actor SQLite error -1 at statement 2: no such table"
    );
    assert_eq!(
        ActorUdsError::Timeout { operation: "connect", timeout_ms: 10000 }.message(),
        "actor SQLite UDS connect timed out after 10000ms"
    );
    assert_eq!(
        ActorUdsError::LeaseExpired { timeout_ms: 5, message: "gone".into() }.message(),
        "actor SQLite UDS transaction lease expired after 5ms: gone"
    );
}

#[test]
fn frames_are_bounded_by_the_negotiated_limit() {
    assert_eq!(negotiated_frame_limit(1024), 1024);
    assert_eq!(negotiated_frame_limit(u32::MAX), MAX_FRAME_BYTES);
    assert!(check_response_frame(1024, 1024).is_ok());
    assert_eq!(
        check_response_frame(1025, 1024).unwrap_err(),
        ActorUdsError::Protocol("response frame is 1025 bytes, limit is 1024 bytes".into())
    );
    assert_eq!(
        check_request_frame(2048, 1024).unwrap_err(),
        ActorUdsError::Protocol("request frame is 2048 bytes, limit is 1024 bytes".into())
    );
    assert_eq!(
        check_response_id(4, 3).unwrap_err(),
        ActorUdsError::Protocol("response id 4 did not match request id 3".into())
    );
    assert!(check_response_id(3, 3).is_ok());
    assert_eq!(frame_length(12).unwrap(), 12);
}

#[test]
fn failure_responses_become_errors() {
    assert!(matches!(
        map_response(ResponsePayload::EndpointClosed),
        Err(ActorUdsError::EndpointClosed)
    ));
    assert!(matches!(
        map_response(ResponsePayload::SqlError { code: 1, statement_index: 0, message: "x".into() }),
        Err(ActorUdsError::Sql { code: 1, statement_index: 0, .. })
    ));
    assert!(matches!(map_response(ResponsePayload::SqliteBeginOk), Ok(ResponsePayload::SqliteBeginOk)));
    let result = QueryResult { columns: vec!["a".into()], rows: Vec::new(), changes: 0, last_insert_row_id: None };
    assert!(matches!(
        map_response(ResponsePayload::SqliteQueryOk(result)),
        Ok(ResponsePayload::SqliteQueryOk(_))
    ));
    assert_eq!(timeout_millis(30_000), 30_000);
    assert_eq!(timeout_millis(u128::MAX), u64::MAX);
    assert_eq!(
        request_timeout_error(30_000).message(),
        "actor SQLite UDS request timed out after 30000ms"
    );
}
