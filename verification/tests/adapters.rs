use influx_adapter::error::{AppError, ErrorKind, TransportFailure};
use influx_adapter::influxdb::{
    create_influxdb_service, database_info, ping_from_outcome, policies_from_result,
    series_from_decoded, DatabaseInfoNext, DatabaseInfoProgress, InfluxDBService,
    InfluxDBV1Service, InfluxDBV2Service,
};
use influx_adapter::json::{decode_json, JsonNumber, JsonValue};
use influx_adapter::models::{
    ConnectionProfile, InfluxDBV1Config, InfluxDBV2Config, InfluxDBVersion, QueryResult, Series,
};
use influx_adapter::transport::{HttpMethod, HttpOutcome};

fn legacy_config() -> InfluxDBV1Config {
    InfluxDBV1Config {
        host: "localhost".to_string(),
        port: 8086,
        database: "metrics".to_string(),
        username: Some("admin".to_string()),
        password: Some("pw".to_string()),
        use_ssl: false,
        timeout: 5000,
    }
}

fn newer_config() -> InfluxDBV2Config {
    InfluxDBV2Config {
        host: "influx.example".to_string(),
        port: 9999,
        token: "tok".to_string(),
        org: "acme".to_string(),
        bucket: Some("main".to_string()),
        use_ssl: true,
        timeout: 100,
    }
}

fn pair(a: &str, b: &str) -> (String, String) {
    (a.to_string(), b.to_string())
}

fn response(status: u16, body: &str) -> HttpOutcome {
    HttpOutcome::Response { status, body: Ok(body.to_string()) }
}

fn broken(why: &str) -> TransportFailure {
    TransportFailure { timeout: false, connect: false, message: why.to_string() }
}

fn timed_out(why: &str) -> TransportFailure {
    TransportFailure { timeout: true, connect: false, message: why.to_string() }
}

fn unread(status: u16, why: &str) -> HttpOutcome {
    HttpOutcome::Response { status, body: Err(broken(why)) }
}

fn lost(why: &str) -> HttpOutcome {
    HttpOutcome::SendFailed(broken(why))
}

#[test]
fn legacy_ping_asks_the_ping_endpoint() {
    let service = InfluxDBV1Service::new(legacy_config());
    assert_eq!(service.config().database, "metrics");
    let r = service.ping_request();
    assert_eq!(r.method, HttpMethod::Get);
    assert_eq!(r.url, "http://localhost:8086/ping");
    assert!(r.query.is_empty());
    assert!(r.basic_auth.is_none());
    assert!(r.headers.is_empty());
    assert!(r.body.is_none());
}

#[test]
fn newer_ping_carries_the_token() {
    let service = InfluxDBV2Service::new(newer_config());
    assert_eq!(service.base_url(), "https://influx.example:9999");
    assert_eq!(service.config().org, "acme");
    let r = service.ping_request();
    assert_eq!(r.method, HttpMethod::Get);
    assert_eq!(r.url, "https://influx.example:9999/ping");
    assert_eq!(r.headers, vec![pair("Authorization", "Bearer tok")]);
    assert!(r.query.is_empty());
    assert!(r.basic_auth.is_none());
    assert!(r.body.is_none());
}

#[test]
fn ping_succeeds_on_a_success_status_only() {
    assert!(matches!(ping_from_outcome(response(204, "")), Ok(true)));
    assert!(matches!(ping_from_outcome(unread(200, "gone")), Ok(true)));
    match ping_from_outcome(response(503, "busy")) {
        Err(AppError::Network(m)) => {
            assert_eq!(m, "Connection failed with status: 503 Service Unavailable. Response: busy")
        }
        other => panic!("unexpected: {:?}", other),
    }
    match ping_from_outcome(unread(401, "reset")) {
        Err(AppError::Network(m)) => {
            assert_eq!(m, "Connection failed with status: 401 Unauthorized. Response: N/A")
        }
        other => panic!("unexpected: {:?}", other),
    }
    match ping_from_outcome(lost("connection refused")) {
        Err(AppError::Network(m)) => assert_eq!(m, "connection refused"),
        other => panic!("unexpected: {:?}", other),
    }
    let legacy = InfluxDBService::V1(InfluxDBV1Service::new(legacy_config()));
    assert!(matches!(legacy.ping(response(200, "")), Ok(true)));
    let newer = InfluxDBService::V2(InfluxDBV2Service::new(newer_config()));
    assert!(matches!(newer.ping(response(300, "")), Err(AppError::Network(_))));
}

#[test]
fn legacy_read_goes_to_the_query_endpoint() {
    let service = InfluxDBV1Service::new(legacy_config());
    let r = service.query_request("SELECT * FROM cpu").unwrap();
    assert_eq!(r.method, HttpMethod::Get);
    assert_eq!(r.url, "http://localhost:8086/query");
    assert_eq!(r.query, vec![pair("q", "SELECT * FROM cpu"), pair("db", "metrics")]);
    assert_eq!(r.basic_auth, Some(pair("admin", "pw")));
    assert!(r.headers.is_empty());
    assert!(r.body.is_none());
    let other = service.query_with_database_request("SHOW SERIES", "other").unwrap();
    assert_eq!(other.query, vec![pair("q", "SHOW SERIES"), pair("db", "other")]);
}

#[test]
fn legacy_requests_are_signed_only_with_user_and_password() {
    let mut config = legacy_config();
    config.password = None;
    let r = InfluxDBV1Service::new(config).query_request("SELECT 1").unwrap();
    assert!(r.basic_auth.is_none());
    let mut config = legacy_config();
    config.username = None;
    let r = InfluxDBV1Service::new(config).query_request("INSERT cpu,a=b v=1").unwrap();
    assert!(r.basic_auth.is_none());
}

#[test]
fn legacy_insert_goes_to_the_write_endpoint() {
    let service = InfluxDBV1Service::new(legacy_config());
    let r = service.query_with_database_request("insert into \"x\" cpu,host=a value=1", "target").unwrap();
    assert_eq!(r.method, HttpMethod::Post);
    assert_eq!(r.url, "http://localhost:8086/write");
    assert_eq!(r.query, vec![pair("db", "target")]);
    assert_eq!(r.basic_auth, Some(pair("admin", "pw")));
    assert_eq!(r.body, Some("cpu,host=a value=1".to_string()));
    let w = service.write_with_database_request("INSERT cpu,host=a value=2", "w").unwrap();
    assert_eq!(w.body, Some("cpu,host=a value=2".to_string()));
    assert!(matches!(
        service.query_request("INSERT INTO \"x"),
        Err(AppError::Validation(m)) if m == "数据库名引号不匹配"
    ));
    assert!(matches!(
        service.write_with_database_request("SELECT 1", "w"),
        Err(AppError::Validation(m)) if m == "INSERT 语句必须以 'INSERT' 开头"
    ));
}

#[test]
fn legacy_read_outcome_is_decoded() {
    let service = InfluxDBV1Service::new(legacy_config());
    let body = r#"{"results":[{"series":[{"name":"cpu","columns":["v"],"values":[[1]]}]}]}"#;
    let result = service.query("SELECT v FROM cpu", response(200, body), 12).unwrap();
    assert_eq!(result.execution_time, 12);
    assert_eq!(result.series.len(), 1);
    assert_eq!(result.series[0].values, vec![vec![JsonValue::Number(JsonNumber::PosInt(1))]]);

    match service.query("SELECT 1", response(400, "bad query"), 1) {
        Err(AppError::Query(m)) => assert_eq!(m, "HTTP 400 Bad Request: bad query"),
        other => panic!("unexpected: {:?}", other),
    }
    match service.query("SELECT 1", response(200, "not json"), 1) {
        Err(AppError::Parse(m)) => {
            assert_eq!(m, "Failed to parse JSON: expected ident at line 1 column 2")
        }
        other => panic!("unexpected: {:?}", other),
    }
    match service.query("SELECT 1", unread(200, "body cut"), 1) {
        Err(AppError::Network(m)) => assert_eq!(m, "body cut"),
        other => panic!("unexpected: {:?}", other),
    }
    match service.query("SELECT 1", unread(500, "body cut"), 1) {
        Err(AppError::Network(m)) => assert_eq!(m, "body cut"),
        other => panic!("unexpected: {:?}", other),
    }
    match service.query("SELECT 1", lost("timed out"), 1) {
        Err(AppError::Network(m)) => assert_eq!(m, "timed out"),
        other => panic!("unexpected: {:?}", other),
    }
}

#[test]
fn legacy_write_outcome_carries_no_series() {
    let service = InfluxDBV1Service::new(legacy_config());
    let result = service.query("INSERT cpu,a=b v=1", response(204, ""), 9).unwrap();
    assert!(result.series.is_empty());
    assert_eq!(result.execution_time, 9);
    let result = service.write("INSERT cpu,a=b v=1", response(200, "ignored, not json"), 2).unwrap();
    assert!(result.series.is_empty());
    match service.query("INSERT cpu,a=b v=1", response(404, "no db"), 9) {
        Err(AppError::Query(m)) => assert_eq!(m, "HTTP 404 Not Found: no db"),
        other => panic!("unexpected: {:?}", other),
    }
    match service.query("INSERT", response(204, ""), 9) {
        Err(AppError::Validation(m)) => assert_eq!(m, "INSERT 语句缺少数据行"),
        other => panic!("unexpected: {:?}", other),
    }
    match service.write("INSERT cpu v=1", lost("down"), 9) {
        Err(AppError::Network(m)) => assert_eq!(m, "down"),
        other => panic!("unexpected: {:?}", other),
    }
    match service.write("INSERT cpu v=1", unread(204, "cut"), 9) {
        Err(AppError::Network(m)) => assert_eq!(m, "cut"),
        other => panic!("unexpected: {:?}", other),
    }
}

#[test]
fn newer_query_is_posted_with_token_and_content_type() {
    let service = InfluxDBV2Service::new(newer_config());
    assert_eq!(service.default_bucket(), "main");
    let r = service.query_request("SHOW MEASUREMENTS").unwrap();
    assert_eq!(r.method, HttpMethod::Post);
    assert_eq!(r.url, "https://influx.example:9999/query?org=acme");
    assert!(r.query.is_empty());
    assert!(r.basic_auth.is_none());
    assert_eq!(
        r.headers,
        vec![pair("Authorization", "Bearer tok"), pair("Content-Type", "application/vnd.flux")]
    );
    assert_eq!(
        r.body,
        Some("import \"influxdata/influxdb/schema\"\nschema.measurements(bucket: \"main\")".to_string())
    );
    let other = service.query_with_database_request("show measurements", "side").unwrap();
    assert_eq!(
        other.body,
        Some("import \"influxdata/influxdb/schema\"\nschema.measurements(bucket: \"side\")".to_string())
    );
    let raw = service.query_with_database_request("INSERT cpu v=1", "side").unwrap();
    assert_eq!(raw.body, Some("INSERT cpu v=1".to_string()));
    assert_eq!(service.convert_to_flux("x").unwrap(), "x");
    assert_eq!(
        service.convert_to_flux_with_bucket("SHOW DATABASES", "b").unwrap(),
        "buckets() |> rename(columns: {name: \"name\"}) |> keep(columns: [\"name\"])"
    );

    let mut config = newer_config();
    config.bucket = None;
    let service = InfluxDBV2Service::new(config);
    assert_eq!(service.default_bucket(), "mybucket");
    assert_eq!(
        service.convert_to_flux("SHOW MEASUREMENTS").unwrap(),
        "import \"influxdata/influxdb/schema\"\nschema.measurements(bucket: \"mybucket\")"
    );
}

#[test]
fn newer_query_outcome_is_read_as_a_table() {
    let service = InfluxDBV2Service::new(newer_config());
    let result = service.query(response(200, "a,b\n1,2\n"), 4).unwrap();
    assert_eq!(result.execution_time, 4);
    assert_eq!(result.series.len(), 1);
    assert_eq!(result.series[0].columns, vec!["a".to_string(), "b".to_string()]);
    assert!(service.query(response(200, ""), 4).unwrap().series.is_empty());
    match service.query(response(401, "denied"), 4) {
        Err(AppError::Query(m)) => assert_eq!(m, "HTTP 401 Unauthorized: denied"),
        other => panic!("unexpected: {:?}", other),
    }
    match service.query(unread(500, "cut"), 4) {
        Err(AppError::Query(m)) => assert_eq!(m, "HTTP 500 Internal Server Error: Unknown error"),
        other => panic!("unexpected: {:?}", other),
    }
    match service.query(unread(200, "cut"), 4) {
        Err(AppError::Network(m)) => assert_eq!(m, "cut"),
        other => panic!("unexpected: {:?}", other),
    }
    match service.query(lost("dns"), 4) {
        Err(AppError::Network(m)) => assert_eq!(m, "dns"),
        other => panic!("unexpected: {:?}", other),
    }
}

#[test]
fn front_dispatches_by_dialect() {
    let legacy = InfluxDBService::V1(InfluxDBV1Service::new(legacy_config()));
    let newer = InfluxDBService::V2(InfluxDBV2Service::new(newer_config()));
    assert_eq!(legacy.ping_request().url, "http://localhost:8086/ping");
    assert_eq!(newer.ping_request().url, "https://influx.example:9999/ping");
    assert_eq!(legacy.query_request("SELECT 1").unwrap().url, "http://localhost:8086/query");
    assert_eq!(
        newer.query_request("x").unwrap().url,
        "https://influx.example:9999/query?org=acme"
    );
    assert_eq!(
        legacy.query_with_database_request("SELECT 1", "d").unwrap().query,
        vec![pair("q", "SELECT 1"), pair("db", "d")]
    );
    assert_eq!(
        newer.query_with_database_request("SHOW MEASUREMENTS", "d").unwrap().body,
        Some("import \"influxdata/influxdb/schema\"\nschema.measurements(bucket: \"d\")".to_string())
    );
    assert_eq!(legacy.measurements_statement("d"), "SHOW MEASUREMENTS ON d");
    assert_eq!(
        newer.measurements_statement("d"),
        "import \"influxdata/influxdb/schema\"\nschema.measurements(bucket: \"d\")"
    );
    assert_eq!(
        legacy.retention_policies_statement("d"),
        Some("SHOW RETENTION POLICIES ON d".to_string())
    );
    assert_eq!(newer.retention_policies_statement("d"), None);
    // A body that one dialect reads as a table is no document to the other.
    assert!(matches!(legacy.query("q", response(200, "a,b\n1,2"), 0), Err(AppError::Parse(_))));
    assert_eq!(newer.query("q", response(200, "a,b\n1,2"), 0).unwrap().series.len(), 1);
}

fn rows(values: Vec<Vec<JsonValue>>) -> QueryResult {
    QueryResult {
        series: vec![Series { name: "s".to_string(), columns: vec![], values, tags: None }],
        execution_time: 0,
    }
}

fn text(s: &str) -> JsonValue {
    JsonValue::String(s.to_string())
}

#[test]
fn retention_policies_come_from_rows_of_four_cells() {
    let result = rows(vec![
        vec![text("autogen"), text("0s"), JsonValue::Number(JsonNumber::PosInt(1)), JsonValue::Bool(true)],
        vec![text("short"), text("1h")],
        vec![
            JsonValue::Null,
            JsonValue::Number(JsonNumber::PosInt(5)),
            text("3"),
            text("yes"),
            text("more"),
        ],
        vec![
            text("wide"),
            text("7d"),
            JsonValue::Number(JsonNumber::PosInt(4294967298)),
            JsonValue::Bool(false),
        ],
    ]);
    let policies = policies_from_result(&result);
    assert_eq!(policies.len(), 3);
    assert_eq!(policies[0].name, "autogen");
    assert_eq!(policies[0].duration, "0s");
    assert_eq!(policies[0].replication, 1);
    assert!(policies[0].default);
    assert_eq!(policies[1].name, "");
    assert_eq!(policies[1].duration, "");
    assert_eq!(policies[1].replication, 1);
    assert!(!policies[1].default);
    assert_eq!(policies[2].name, "wide");
    assert_eq!(policies[2].replication, 2);
}

#[test]
fn legacy_database_info_asks_for_policies_then_measurements() {
    let service = InfluxDBService::V1(InfluxDBV1Service::new(legacy_config()));
    let request = match service.get_database_info("metrics", DatabaseInfoProgress::Begin) {
        DatabaseInfoNext::ReadPolicies(request) => request,
        other => panic!("unexpected: {:?}", other),
    };
    assert_eq!(request.url, "http://localhost:8086/query");
    assert_eq!(request.query, vec![pair("q", "SHOW RETENTION POLICIES ON metrics"), pair("db", "metrics")]);

    let body = r#"{"results":[{"series":[{"columns":["name","duration","shardGroupDuration","replicaN","default"],
        "values":[["autogen","0s",2,true],["short","1h"]]}]}]}"#;
    let progress = DatabaseInfoProgress::PoliciesRead { outcome: response(200, body), elapsed: 1 };
    let (request, policies) = match service.get_database_info("metrics", progress) {
        DatabaseInfoNext::ReadMeasurements { request, policies } => (request, policies),
        other => panic!("unexpected: {:?}", other),
    };
    assert_eq!(request.query, vec![pair("q", "SHOW MEASUREMENTS ON metrics"), pair("db", "metrics")]);
    assert_eq!(policies.len(), 1);
    assert_eq!(policies[0].name, "autogen");
    assert_eq!(policies[0].duration, "0s");
    assert_eq!(policies[0].replication, 2);
    assert!(policies[0].default);

    let body = r#"{"results":[{"series":[{"name":"measurements","columns":["name"],"values":[["cpu"],["mem"]]}]}]}"#;
    let progress =
        DatabaseInfoProgress::MeasurementsRead { policies, outcome: response(200, body), elapsed: 1 };
    let info = match service.get_database_info("metrics", progress) {
        DatabaseInfoNext::Finish(Ok(info)) => info,
        other => panic!("unexpected: {:?}", other),
    };
    assert_eq!(info.name, "metrics");
    assert_eq!(info.series_count, 0);
    assert_eq!(info.retention_policies.len(), 1);
    assert_eq!(info.measurements.len(), 2);
    assert_eq!(info.measurements[0].name, "cpu");
    assert_eq!(info.measurements[1].name, "mem");
    assert!(info.measurements[0].tag_keys.is_empty());
    assert!(info.measurements[0].field_keys.is_empty());
    assert_eq!(info.measurements[0].series_count, 0);
}

#[test]
fn database_info_ends_with_the_first_failure() {
    let service = InfluxDBService::V1(InfluxDBV1Service::new(legacy_config()));
    let progress = DatabaseInfoProgress::PoliciesRead { outcome: response(500, "boom"), elapsed: 1 };
    match service.get_database_info("metrics", progress) {
        DatabaseInfoNext::Finish(Err(AppError::Query(m))) => {
            assert_eq!(m, "HTTP 500 Internal Server Error: boom")
        }
        other => panic!("unexpected: {:?}", other),
    }
    let progress = DatabaseInfoProgress::MeasurementsRead {
        policies: vec![],
        outcome: HttpOutcome::SendFailed(timed_out("deadline")),
        elapsed: 1,
    };
    match service.get_database_info("metrics", progress) {
        DatabaseInfoNext::Finish(Err(AppError::Timeout(m))) => assert_eq!(m, "deadline"),
        other => panic!("unexpected: {:?}", other),
    }
}

#[test]
fn newer_database_info_asks_for_measurements_at_once() {
    let service = InfluxDBService::V2(InfluxDBV2Service::new(newer_config()));
    let (request, policies) = match service.get_database_info("main", DatabaseInfoProgress::Begin) {
        DatabaseInfoNext::ReadMeasurements { request, policies } => (request, policies),
        other => panic!("unexpected: {:?}", other),
    };
    assert!(policies.is_empty());
    assert_eq!(request.url, "https://influx.example:9999/query?org=acme");
    assert_eq!(
        request.body,
        Some("import \"influxdata/influxdb/schema\"\nschema.measurements(bucket: \"main\")".to_string())
    );
    let progress = DatabaseInfoProgress::MeasurementsRead {
        policies,
        outcome: response(200, "_value\ncpu\n"),
        elapsed: 1,
    };
    let info = match service.get_database_info("main", progress) {
        DatabaseInfoNext::Finish(Ok(info)) => info,
        other => panic!("unexpected: {:?}", other),
    };
    assert_eq!(info.name, "main");
    assert!(info.retention_policies.is_empty());
    assert_eq!(info.measurements.len(), 1);
    assert_eq!(info.measurements[0].name, "cpu");
    let info = database_info("x", vec![], vec![]);
    assert!(info.measurements.is_empty());
}

#[test]
fn listings_go_to_the_default_database() {
    let legacy = InfluxDBService::V1(InfluxDBV1Service::new(legacy_config()));
    let newer = InfluxDBService::V2(InfluxDBV2Service::new(newer_config()));
    assert_eq!(legacy.default_database(), "metrics");
    assert_eq!(newer.default_database(), "main");
    let r = legacy.get_databases_request().unwrap();
    assert_eq!(r.query, vec![pair("q", "SHOW DATABASES"), pair("db", "metrics")]);
    let r = legacy.get_measurements_request("other").unwrap();
    assert_eq!(r.query, vec![pair("q", "SHOW MEASUREMENTS ON other"), pair("db", "metrics")]);
    let r = newer.get_databases_request().unwrap();
    assert_eq!(r.body, Some("buckets()".to_string()));
    let body = r#"{"results":[{"series":[{"values":[["cpu"],["mem"]]}]}]}"#;
    assert_eq!(
        legacy.get_measurements("other", response(200, body), 0).unwrap(),
        vec!["cpu".to_string(), "mem".to_string()]
    );
    assert!(matches!(
        legacy.get_measurements("other", response(404, "x"), 0),
        Err(AppError::Query(_))
    ));
    assert_eq!(newer.get_measurements("b", response(200, "_value\ncpu\n"), 0).unwrap(), vec!["cpu".to_string()]);
}

#[test]
fn a_request_that_ran_out_of_time_is_a_timeout() {
    let legacy = InfluxDBV1Service::new(legacy_config());
    let newer = InfluxDBV2Service::new(newer_config());
    let gone = || HttpOutcome::SendFailed(timed_out("deadline"));
    let cut = |status| HttpOutcome::Response { status, body: Err(timed_out("slow body")) };
    assert!(matches!(ping_from_outcome(gone()), Err(AppError::Timeout(m)) if m == "deadline"));
    assert!(matches!(legacy.query("SELECT 1", gone(), 0), Err(AppError::Timeout(m)) if m == "deadline"));
    assert!(matches!(legacy.query("SELECT 1", cut(200), 0), Err(AppError::Timeout(m)) if m == "slow body"));
    assert!(matches!(legacy.query("INSERT cpu v=1", gone(), 0), Err(AppError::Timeout(_))));
    assert!(matches!(newer.query(gone(), 0), Err(AppError::Timeout(m)) if m == "deadline"));
    assert!(matches!(newer.query(cut(200), 0), Err(AppError::Timeout(m)) if m == "slow body"));
    assert!(matches!(newer.query(cut(500), 0), Err(AppError::Query(_))));
    let refused = TransportFailure { timeout: false, connect: true, message: "refused".to_string() };
    assert!(matches!(
        legacy.query("SELECT 1", HttpOutcome::SendFailed(refused), 0),
        Err(AppError::Network(m)) if m == "refused"
    ));
    assert!(matches!(AppError::unanswered(timed_out("t")), AppError::Timeout(m) if m == "t"));
    assert!(matches!(AppError::unanswered(broken("b")), AppError::Network(m) if m == "b"));
}

fn profile(version: InfluxDBVersion, config: &str) -> ConnectionProfile {
    ConnectionProfile {
        id: "id-1".to_string(),
        name: "n".to_string(),
        version,
        config: decode_json(config).unwrap(),
        created_at: 0,
        updated_at: 0,
    }
}

#[test]
fn service_is_made_by_the_version_of_the_profile() {
    let v1 = r#"{"host":"a","port":1,"database":"d","useSsl":false,"timeout":5}"#;
    let v2 = r#"{"host":"b","port":2,"token":"t","org":"o","useSsl":true,"timeout":5}"#;
    match create_influxdb_service(&profile(InfluxDBVersion::V1, v1)).unwrap() {
        InfluxDBService::V1(s) => assert_eq!(s.base_url(), "http://a:1"),
        other => panic!("unexpected: {:?}", other),
    }
    match create_influxdb_service(&profile(InfluxDBVersion::V2, v2)).unwrap() {
        InfluxDBService::V2(s) => assert_eq!(s.base_url(), "https://b:2"),
        other => panic!("unexpected: {:?}", other),
    }
    match create_influxdb_service(&profile(InfluxDBVersion::V3, v2)).unwrap() {
        InfluxDBService::V2(s) => assert_eq!(s.default_bucket(), "mybucket"),
        other => panic!("unexpected: {:?}", other),
    }
    match create_influxdb_service(&profile(InfluxDBVersion::V1, v2)) {
        Err(AppError::Config(m)) => assert_eq!(m, "Invalid v1 config: missing field `database`"),
        other => panic!("unexpected: {:?}", other),
    }
    match create_influxdb_service(&profile(InfluxDBVersion::V2, v1)) {
        Err(AppError::Config(m)) => assert_eq!(m, "Invalid v2 config: missing field `token`"),
        other => panic!("unexpected: {:?}", other),
    }
    match create_influxdb_service(&profile(InfluxDBVersion::V3, "[]")) {
        Err(AppError::Config(m)) => assert_eq!(m, "Invalid v3 config: invalid type: expected an object"),
        other => panic!("unexpected: {:?}", other),
    }
}

#[test]
fn failures_are_made_by_kind() {
    assert!(matches!(AppError::new(ErrorKind::Auth, "a".to_string()), AppError::Auth(m) if m == "a"));
    assert!(matches!(AppError::new(ErrorKind::NotFound, "a".to_string()), AppError::NotFound(m) if m == "a"));
    assert!(matches!(
        series_from_decoded(Err("why".to_string())),
        Err(AppError::Parse(m)) if m == "Failed to parse JSON: why"
    ));
    assert!(series_from_decoded(Ok(JsonValue::Null)).unwrap().is_empty());
}

#[test]
fn answers_do_not_depend_on_other_calls() {
    let service = InfluxDBService::V1(InfluxDBV1Service::new(legacy_config()));
    let body = r#"{"results":[{"series":[{"name":"cpu","columns":["v"],"values":[[1],[2]]}]}]}"#;
    let other = r#"{"results":[{"series":[{"name":"mem","columns":["v"],"values":[[9]]}]}]}"#;
    let mut answers = Vec::new();
    for round in 0..8u64 {
        let first = service.query("SELECT v FROM cpu", response(200, body), round).unwrap();
        let between = service.query("SELECT v FROM mem", response(200, other), 0).unwrap();
        assert_eq!(between.series[0].name, "mem");
        let failed = service.query("SELECT", response(500, "x"), 0);
        assert!(matches!(failed, Err(AppError::Query(_))));
        answers.push(first);
    }
    for (round, answer) in answers.iter().enumerate() {
        assert_eq!(answer.execution_time, round as u64);
        assert_eq!(answer.series.len(), 1);
        assert_eq!(answer.series[0].name, "cpu");
        assert_eq!(
            answer.series[0].values,
            vec![
                vec![JsonValue::Number(JsonNumber::PosInt(1))],
                vec![JsonValue::Number(JsonNumber::PosInt(2))],
            ]
        );
    }
}
