use influx_adapter::commands::{
    connect_to_database, create_database, create_measurement, delete_measurement,
    disconnect_from_database, drop_database, execute_query, find_connection, get_app_version,
    get_database_info, get_databases, get_measurement_info, get_measurements, query_response,
    test_connection, test_connection_request, ConnectionMap,
};
use influx_adapter::error::{AppError, TransportFailure};
use influx_adapter::influxdb::create_influxdb_service;
use influx_adapter::json::decode_json;
use influx_adapter::models::{ApiResponse, ConnectionProfile, InfluxDBVersion, QueryResult};
use influx_adapter::transport::{HttpMethod, HttpOutcome};
use std::sync::Arc;

#[test]
fn second_insert_under_an_id_replaces_the_first() {
    let mut registry: ConnectionMap<&'static str> = ConnectionMap::new();
    assert_eq!(registry.len(), 0);
    registry.insert("id".to_string(), "a");
    assert_eq!(registry.lookup("id"), Some(&"a"));
    registry.insert("id".to_string(), "b");
    assert_eq!(registry.lookup("id"), Some(&"b"));
    assert_eq!(registry.len(), 1);
}

#[test]
fn removed_connection_is_not_found() {
    let mut registry: ConnectionMap<u32> = ConnectionMap::new();
    registry.insert("one".to_string(), 1);
    registry.insert("two".to_string(), 2);
    assert!(registry.remove("one"));
    assert_eq!(registry.lookup("one"), None);
    assert_eq!(registry.lookup("two"), Some(&2));
    assert_eq!(registry.len(), 1);
}

#[test]
fn removing_an_absent_id_answers_false() {
    let mut registry: ConnectionMap<u32> = ConnectionMap::new();
    assert!(!registry.remove("ghost"));
    registry.insert("one".to_string(), 1);
    assert!(!registry.remove("ghost"));
    assert!(!registry.remove("ONE"));
    assert_eq!(registry.len(), 1);
    assert!(registry.remove("one"));
    assert!(!registry.remove("one"));
}

#[test]
fn lookup_lends_the_shared_handle() {
    let mut registry: ConnectionMap<Arc<String>> = ConnectionMap::new();
    let handle = Arc::new("service".to_string());
    registry.insert("id".to_string(), handle.clone());
    let found = registry.lookup("id").unwrap().clone();
    assert!(Arc::ptr_eq(&found, &handle));
    assert!(registry.remove("id"));
    // A handle taken before the removal stays usable.
    assert_eq!(found.as_str(), "service");
    assert!(registry.lookup("id").is_none());
}

#[test]
fn unknown_connection_is_answered_not_found() {
    let mut registry: ConnectionMap<u32> = ConnectionMap::new();
    registry.insert("known".to_string(), 9);
    let missing: Result<&u32, ApiResponse<Vec<String>>> = find_connection("unknown", &registry);
    let response = missing.unwrap_err();
    assert!(!response.success);
    assert!(response.data.is_none());
    assert_eq!(response.error, Some("Connection not found".to_string()));
    let missing: Result<&u32, ApiResponse<QueryResult>> = find_connection("", &registry);
    assert_eq!(missing.unwrap_err().error, Some("Connection not found".to_string()));
    let found: Result<&u32, ApiResponse<bool>> = find_connection("known", &registry);
    assert_eq!(found.unwrap(), &9);
}

fn named(id: &str) -> ConnectionProfile {
    ConnectionProfile {
        id: id.to_string(),
        name: "n".to_string(),
        version: InfluxDBVersion::V2,
        config: decode_json("{}").unwrap(),
        created_at: 0,
        updated_at: 0,
    }
}

#[test]
fn connecting_registers_under_the_id() {
    let mut registry: ConnectionMap<u32> = ConnectionMap::new();
    let response = connect_to_database(&named("host_8086"), Ok(7), &mut registry).unwrap();
    assert!(response.success);
    assert_eq!(response.data, Some("host_8086".to_string()));
    assert!(response.error.is_none());
    assert_eq!(registry.lookup("host_8086"), Some(&7));
    let response = connect_to_database(&named("host_8086"), Ok(8), &mut registry).unwrap();
    assert!(response.success);
    assert_eq!(registry.lookup("host_8086"), Some(&8));
    assert_eq!(registry.len(), 1);
}

#[test]
fn failed_creation_never_reaches_the_registry() {
    let mut registry: ConnectionMap<u32> = ConnectionMap::new();
    registry.insert("kept".to_string(), 1);
    let failed = Err(AppError::Config("Invalid v1 config: missing field `host`".to_string()));
    let response = connect_to_database(&named("new"), failed, &mut registry).unwrap();
    assert!(!response.success);
    assert!(response.data.is_none());
    assert_eq!(
        response.error,
        Some("Configuration error: Invalid v1 config: missing field `host`".to_string())
    );
    assert!(registry.lookup("new").is_none());
    assert_eq!(registry.lookup("kept"), Some(&1));
    assert_eq!(registry.len(), 1);
    let failed = Err(AppError::Network("no client".to_string()));
    let response = connect_to_database(&named("kept"), failed, &mut registry).unwrap();
    assert!(!response.success);
    assert_eq!(registry.lookup("kept"), Some(&1));
}

#[test]
fn disconnecting_reports_whether_the_connection_was_there() {
    let mut registry: ConnectionMap<u32> = ConnectionMap::new();
    registry.insert("id".to_string(), 1);
    let response = disconnect_from_database("id", &mut registry).unwrap();
    assert!(response.success);
    assert_eq!(response.data, Some(true));
    assert!(response.error.is_none());
    assert!(registry.lookup("id").is_none());
    let response = disconnect_from_database("id", &mut registry).unwrap();
    assert!(!response.success);
    assert_eq!(response.data, Some(false));
    assert_eq!(response.error, Some("Connection not found".to_string()));
}

fn profile(config: &str) -> ConnectionProfile {
    ConnectionProfile {
        id: "p".to_string(),
        name: "n".to_string(),
        version: InfluxDBVersion::V1,
        config: decode_json(config).unwrap(),
        created_at: 0,
        updated_at: 0,
    }
}

#[test]
fn connection_test_reports_the_ping() {
    let good = profile(r#"{"host":"h","port":8086,"database":"d","useSsl":false,"timeout":1}"#);
    let (service, request) = test_connection_request(&good).unwrap();
    assert_eq!(request.method, HttpMethod::Get);
    assert_eq!(request.url, "http://h:8086/ping");

    let up = HttpOutcome::Response { status: 204, body: Ok(String::new()) };
    let response = test_connection(&service, up).unwrap();
    assert!(response.success);
    assert_eq!(response.data, Some(true));
    assert!(response.error.is_none());

    let down = HttpOutcome::Response { status: 502, body: Ok("upstream".to_string()) };
    let response = test_connection(&service, down).unwrap();
    assert!(!response.success);
    assert_eq!(response.data, Some(false));
    assert_eq!(
        response.error,
        Some(
            "Ping failed: Network error: Connection failed with status: 502 Bad Gateway. Response: upstream"
                .to_string()
        )
    );

    let refused = TransportFailure { timeout: false, connect: true, message: "refused".to_string() };
    let response = test_connection(&service, HttpOutcome::SendFailed(refused)).unwrap();
    assert_eq!(response.error, Some("Ping failed: Network error: refused".to_string()));
}

#[test]
fn connection_test_reports_a_profile_that_cannot_be_decoded() {
    let bad = profile(r#"{"host":"h"}"#);
    let response = test_connection_request(&bad).unwrap_err();
    assert!(!response.success);
    assert_eq!(response.data, Some(false));
    assert_eq!(
        response.error,
        Some(
            "Failed to create service: Configuration error: Invalid v1 config: missing field `port`"
                .to_string()
        )
    );
    assert!(create_influxdb_service(&bad).is_err());
}

#[test]
fn query_results_are_wrapped_as_they_are() {
    let result = QueryResult { series: vec![], execution_time: 31 };
    let response = query_response(Ok(result)).unwrap();
    assert!(response.success);
    assert_eq!(response.data.unwrap().execution_time, 31);
    assert!(response.error.is_none());
    let response = query_response(Err(AppError::Query("HTTP 400 Bad Request: x".to_string()))).unwrap();
    assert!(!response.success);
    assert!(response.data.is_none());
    assert_eq!(response.error, Some("Query error: HTTP 400 Bad Request: x".to_string()));
    let response = get_app_version("1.2.3".to_string()).unwrap();
    assert!(response.success);
    assert_eq!(response.data, Some("1.2.3".to_string()));
}

#[test]
fn every_operation_answers_an_unknown_connection_the_same_way() {
    let mut registry: ConnectionMap<u32> = ConnectionMap::new();
    registry.insert("known".to_string(), 3);
    let not_found = Some("Connection not found".to_string());

    let r = get_databases("nope", &registry).unwrap_err();
    assert_eq!((r.success, r.data, r.error), (false, None, not_found.clone()));
    let r = get_database_info("nope", &registry).unwrap_err();
    assert_eq!((r.success, r.data.is_none(), r.error), (false, true, not_found.clone()));
    let r = execute_query("nope", &registry).unwrap_err();
    assert_eq!((r.success, r.data.is_none(), r.error), (false, true, not_found.clone()));
    let r = create_database("nope", &registry).unwrap_err();
    assert_eq!((r.success, r.data, r.error), (false, None, not_found.clone()));
    let r = drop_database("nope", &registry).unwrap_err();
    assert_eq!((r.success, r.data, r.error), (false, None, not_found.clone()));
    let r = get_measurements("nope", &registry).unwrap_err();
    assert_eq!((r.success, r.data, r.error), (false, None, not_found.clone()));
    let r = create_measurement("nope", &registry).unwrap_err();
    assert_eq!((r.success, r.data, r.error), (false, None, not_found.clone()));
    let r = get_measurement_info("nope", &registry).unwrap_err();
    assert_eq!((r.success, r.data.is_none(), r.error), (false, true, not_found.clone()));
    let r = delete_measurement("nope", &registry).unwrap_err();
    assert_eq!((r.success, r.data, r.error), (false, None, not_found));

    assert_eq!(get_databases("known", &registry).unwrap(), &3);
    assert_eq!(get_database_info("known", &registry).unwrap(), &3);
    assert_eq!(execute_query("known", &registry).unwrap(), &3);
    assert_eq!(create_database("known", &registry).unwrap(), &3);
    assert_eq!(drop_database("known", &registry).unwrap(), &3);
    assert_eq!(get_measurements("known", &registry).unwrap(), &3);
    assert_eq!(create_measurement("known", &registry).unwrap(), &3);
    assert_eq!(get_measurement_info("known", &registry).unwrap(), &3);
    assert_eq!(delete_measurement("known", &registry).unwrap(), &3);
}

#[test]
fn connection_test_reports_a_timeout() {
    let good = profile(r#"{"host":"h","port":8086,"database":"d","useSsl":false,"timeout":1}"#);
    let (service, _) = test_connection_request(&good).unwrap();
    let late = TransportFailure { timeout: true, connect: false, message: "deadline".to_string() };
    let response = test_connection(&service, HttpOutcome::SendFailed(late)).unwrap();
    assert!(!response.success);
    assert_eq!(response.data, Some(false));
    assert_eq!(response.error, Some("Ping failed: Timeout error: deadline".to_string()));
}
