use influx_adapter::error::AppError;
use influx_adapter::influxdb::InfluxDBV1Service;
use influx_adapter::models::InfluxDBV1Config;
use influx_adapter::statement::{is_insert_statement, parse_insert_statement, to_flux};

fn legacy_service() -> InfluxDBV1Service {
    InfluxDBV1Service::new(InfluxDBV1Config {
        host: "localhost".to_string(),
        port: 8086,
        database: "test".to_string(),
        username: None,
        password: None,
        use_ssl: false,
        timeout: 5000,
    })
}

fn validation_text(r: Result<String, AppError>) -> String {
    match r {
        Err(AppError::Validation(m)) => m,
        other => panic!("expected a validation failure, got {:?}", other),
    }
}

#[test]
fn test_parse_insert_query() {
    let service = legacy_service();
    assert_eq!(service.base_url(), "http://localhost:8086");

    let test_cases = vec![
        (
            r#"INSERT INTO "testdb" cpu,host=server01 value=0.64"#,
            Ok::<String, AppError>("cpu,host=server01 value=0.64".to_string()),
        ),
        (
            r#"INSERT INTO testdb memory,host=server01 value=0.32"#,
            Ok::<String, AppError>("memory,host=server01 value=0.32".to_string()),
        ),
        (
            r#"INSERT INTO "my-db" temperature,location=room1 value=25.5"#,
            Ok::<String, AppError>("temperature,location=room1 value=25.5".to_string()),
        ),
        (
            r#"INSERT "testdb" cpu,host=server01 value=0.64"#,
            Ok::<String, AppError>("cpu,host=server01 value=0.64".to_string()),
        ),
        (
            r#"INSERT testdb memory,host=server01 value=0.32"#,
            Ok::<String, AppError>("memory,host=server01 value=0.32".to_string()),
        ),
        (
            r#"INSERT cpu,host=server01 value=0.64"#,
            Ok::<String, AppError>("cpu,host=server01 value=0.64".to_string()),
        ),
    ];

    for (input, expected) in test_cases {
        let result = service.parse_insert_query(input);
        match (result, expected) {
            (Ok(actual), Ok(expected)) => {
                assert_eq!(actual, expected, "Failed for input: {}", input);
            }
            (Err(actual), Err(expected)) => {
                assert_eq!(actual.to_string(), expected.to_string(), "Failed for input: {}", input);
            }
            (result, expected) => {
                panic!("Mismatch for input: {}, got {:?}, expected {:?}", input, result, expected);
            }
        }
    }
}

#[test]
fn statement_without_keyword_is_refused() {
    assert_eq!(
        validation_text(parse_insert_statement("SELECT * FROM cpu")),
        "INSERT 语句必须以 'INSERT' 开头"
    );
    assert_eq!(validation_text(parse_insert_statement("")), "INSERT 语句必须以 'INSERT' 开头");
    assert_eq!(validation_text(parse_insert_statement("INSER")), "INSERT 语句必须以 'INSERT' 开头");
    assert_eq!(
        validation_text(parse_insert_statement(" INSERT cpu value=1")),
        "INSERT 语句必须以 'INSERT' 开头"
    );
}

#[test]
fn keyword_is_matched_in_any_ascii_case() {
    assert_eq!(parse_insert_statement("insert into \"db\" cpu value=1").unwrap(), "cpu value=1");
    assert_eq!(parse_insert_statement("InSeRt InTo db cpu value=1").unwrap(), "cpu value=1");
    assert_eq!(parse_insert_statement("insert cpu,host=a value=1").unwrap(), "cpu,host=a value=1");
    assert!(is_insert_statement("insert x"));
    assert!(is_insert_statement("INSERTED"));
    assert!(!is_insert_statement("select 1"));
    assert!(!is_insert_statement("ınsert x"));
}

#[test]
fn unbalanced_quotes_are_refused() {
    assert_eq!(
        validation_text(parse_insert_statement("INSERT INTO \"testdb cpu value=1")),
        "数据库名引号不匹配"
    );
    assert_eq!(validation_text(parse_insert_statement("INSERT \"testdb cpu value=1")), "数据库名引号不匹配");
    assert_eq!(validation_text(parse_insert_statement("INSERT \"")), "数据库名引号不匹配");
}

#[test]
fn missing_payload_is_refused() {
    let missing = "INSERT 语句缺少数据行";
    assert_eq!(validation_text(parse_insert_statement("INSERT")), missing);
    assert_eq!(validation_text(parse_insert_statement("INSERT ")), missing);
    assert_eq!(validation_text(parse_insert_statement("INSERT    \t ")), missing);
    assert_eq!(validation_text(parse_insert_statement("INSERT INTO")), missing);
    assert_eq!(validation_text(parse_insert_statement("INSERT INTO ")), missing);
    assert_eq!(validation_text(parse_insert_statement("INSERT INTO testdb")), missing);
    assert_eq!(validation_text(parse_insert_statement("INSERT INTO testdb   ")), missing);
    assert_eq!(validation_text(parse_insert_statement("INSERT INTO \"testdb\"")), missing);
    assert_eq!(validation_text(parse_insert_statement("INSERT INTO \"testdb\"   ")), missing);
    assert_eq!(validation_text(parse_insert_statement("INSERT \"testdb\" ")), missing);
}

#[test]
fn payload_is_returned_unchanged() {
    assert_eq!(
        parse_insert_statement("INSERT INTO \"db\"   cpu,host=a  msg=\"two  spaces\"  ").unwrap(),
        "cpu,host=a  msg=\"two  spaces\""
    );
    assert_eq!(
        parse_insert_statement("INSERT INTO db cpu  value=1,text=\"a  b\"").unwrap(),
        "cpu  value=1,text=\"a  b\""
    );
    assert_eq!(
        parse_insert_statement("INSERT db cpu  value=1,text=\"a  b\"").unwrap(),
        "cpu  value=1,text=\"a  b\""
    );
    assert_eq!(
        parse_insert_statement("INSERT \"db\"\tcpu  value=1").unwrap(),
        "cpu  value=1"
    );
    assert_eq!(
        parse_insert_statement("INSERT cpu,host=a  value=1").unwrap(),
        "cpu,host=a  value=1"
    );
    assert_eq!(parse_insert_statement("INSERT \"数据库\" 温度 value=1").unwrap(), "温度 value=1");
}

#[test]
fn single_word_without_name_is_the_payload() {
    assert_eq!(parse_insert_statement("INSERT cpu").unwrap(), "cpu");
    assert_eq!(parse_insert_statement("INSERT   cpu=1  ").unwrap(), "cpu=1");
    assert_eq!(parse_insert_statement("INSERT cpu value=1").unwrap(), "value=1");
}

#[test]
fn name_ends_at_white_space_or_closing_quote() {
    assert_eq!(parse_insert_statement("INSERT INTO db\tcpu value=1").unwrap(), "cpu value=1");
    assert_eq!(parse_insert_statement("INSERT INTO\tdb\u{a0}cpu value=1").unwrap(), "cpu value=1");
    assert_eq!(parse_insert_statement("INSERT INTO \"a b\" cpu value=1").unwrap(), "cpu value=1");
    assert_eq!(parse_insert_statement("INSERT INTO\"db\"cpu value=1").unwrap(), "cpu value=1");
    assert_eq!(parse_insert_statement("INSERT\"db\"cpu value=1").unwrap(), "cpu value=1");
    assert_eq!(parse_insert_statement("insert\tdb\ncpu value=1").unwrap(), "cpu value=1");
}

#[test]
fn into_counts_only_as_a_whole_word() {
    assert_eq!(parse_insert_statement("INSERT INTOX cpu v=1").unwrap(), "cpu v=1");
    assert_eq!(parse_insert_statement("INSERT INTO=1 v=1").unwrap(), "INTO=1 v=1");
    assert_eq!(parse_insert_statement("INSERT into cpu v=1").unwrap(), "v=1");
    assert_eq!(parse_insert_statement("INSERT INTO").unwrap_err().to_string(),
        "Validation error: INSERT 语句缺少数据行");
    assert_eq!(parse_insert_statement("INSERT INTOX").unwrap(), "INTOX");
}

#[test]
fn listing_statements_are_rewritten() {
    assert_eq!(
        to_flux("SHOW DATABASES", "b"),
        "buckets() |> rename(columns: {name: \"name\"}) |> keep(columns: [\"name\"])"
    );
    assert_eq!(
        to_flux("show databases;", "b"),
        "buckets() |> rename(columns: {name: \"name\"}) |> keep(columns: [\"name\"])"
    );
    assert_eq!(
        to_flux("SHOW MEASUREMENTS", "telegraf"),
        "import \"influxdata/influxdb/schema\"\nschema.measurements(bucket: \"telegraf\")"
    );
    assert_eq!(
        to_flux("show measurements on x", "my bucket"),
        "import \"influxdata/influxdb/schema\"\nschema.measurements(bucket: \"my bucket\")"
    );
    assert_eq!(to_flux("from(bucket: \"x\") |> range(start: -1h)", "b"), "from(bucket: \"x\") |> range(start: -1h)");
    assert_eq!(to_flux("SHOW TAG KEYS", "b"), "SHOW TAG KEYS");
    assert_eq!(to_flux("", "b"), "");
}
