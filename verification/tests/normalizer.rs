use influx_adapter::influxdb::{InfluxDBService, InfluxDBV1Service, InfluxDBV2Service};
use influx_adapter::json::{decode_json, JsonNumber, JsonValue};
use influx_adapter::models::{InfluxDBV1Config, InfluxDBV2Config, QueryResult, Series};
use influx_adapter::normalize::{
    names_from_result, series_from_csv, series_from_document, series_from_json,
};
use influx_adapter::transport::HttpOutcome;

fn legacy() -> InfluxDBV1Service {
    InfluxDBV1Service::new(InfluxDBV1Config {
        host: "localhost".to_string(),
        port: 8086,
        database: "test".to_string(),
        username: None,
        password: None,
        use_ssl: false,
        timeout: 5000,
    })
}

fn newer() -> InfluxDBV2Service {
    InfluxDBV2Service::new(InfluxDBV2Config {
        host: "localhost".to_string(),
        port: 8086,
        token: "secret".to_string(),
        org: "acme".to_string(),
        bucket: None,
        use_ssl: false,
        timeout: 5000,
    })
}

fn ok_response(body: &str) -> HttpOutcome {
    HttpOutcome::Response { status: 200, body: Ok(body.to_string()) }
}

fn text(s: &str) -> JsonValue {
    JsonValue::String(s.to_string())
}

#[test]
fn legacy_listing_of_databases_reads_the_first_column() {
    let body = r#"{"results":[{"series":[{"name":"databases","columns":["name"],"values":[["db1"],["db2"]]}]}]}"#;
    let service = InfluxDBService::V1(legacy());
    assert_eq!(service.databases_statement(), "SHOW DATABASES");
    let result = service.query("SHOW DATABASES", ok_response(body), 7).unwrap();
    assert_eq!(result.execution_time, 7);
    assert_eq!(result.series.len(), 1);
    assert_eq!(result.series[0].name, "databases");
    assert_eq!(result.series[0].columns, vec!["name".to_string()]);
    assert_eq!(names_from_result(&result), vec!["db1".to_string(), "db2".to_string()]);
    assert_eq!(
        service.get_databases(ok_response(body), 7).unwrap(),
        vec!["db1".to_string(), "db2".to_string()]
    );
    let again = service.query_with_database("SHOW DATABASES", "other", ok_response(body), 1).unwrap();
    assert_eq!(names_from_result(&again), vec!["db1".to_string(), "db2".to_string()]);
}

#[test]
fn newer_listing_of_buckets_reads_the_first_column() {
    let body = "name\ndb1\ndb2\n";
    let service = InfluxDBService::V2(newer());
    assert_eq!(service.databases_statement(), "buckets()");
    let result = service.query("buckets()", ok_response(body), 3).unwrap();
    assert_eq!(result.series.len(), 1);
    assert_eq!(result.series[0].name, "flux_result");
    assert_eq!(result.series[0].columns, vec!["name".to_string()]);
    assert!(result.series[0].tags.is_none());
    assert_eq!(names_from_result(&result), vec!["db1".to_string(), "db2".to_string()]);
    assert_eq!(
        service.get_databases(ok_response(body), 3).unwrap(),
        vec!["db1".to_string(), "db2".to_string()]
    );
}

#[test]
fn names_skip_rows_without_a_leading_string() {
    let result = QueryResult {
        series: vec![
            Series {
                name: "a".to_string(),
                columns: vec!["name".to_string()],
                values: vec![
                    vec![text("first"), text("ignored")],
                    vec![],
                    vec![JsonValue::Number(JsonNumber::PosInt(5))],
                    vec![JsonValue::Null, text("x")],
                    vec![text("second")],
                ],
                tags: None,
            },
            Series { name: "b".to_string(), columns: vec![], values: vec![], tags: None },
            Series {
                name: "c".to_string(),
                columns: vec![],
                values: vec![vec![text("third")]],
                tags: None,
            },
        ],
        execution_time: 0,
    };
    assert_eq!(
        names_from_result(&result),
        vec!["first".to_string(), "second".to_string(), "third".to_string()]
    );
}

#[test]
fn json_series_keeps_rows_and_cells_in_order() {
    let body = r#"{"results":[
        {"series":[{"name":"cpu","columns":["time","value","host"],
                    "values":[[1,0.5,"a"],[2,null],[3,true,"c","extra"],[]],
                    "tags":{"region":"eu","zone":"z1","count":3}}]},
        {"statement_id":1},
        {"series":[{"name":"mem","columns":["time"],"values":[[-4]]},{"columns":"none"}]}
    ]}"#;
    let series = legacy().parse_query_response(body).unwrap();
    assert_eq!(series.len(), 3);
    assert_eq!(series[0].name, "cpu");
    assert_eq!(series[0].columns, vec!["time".to_string(), "value".to_string(), "host".to_string()]);
    assert_eq!(series[0].values.len(), 4);
    assert_eq!(
        series[0].values[0],
        vec![
            JsonValue::Number(JsonNumber::PosInt(1)),
            JsonValue::Number(JsonNumber::Float("0.5".to_string())),
            text("a"),
        ]
    );
    assert_eq!(series[0].values[1], vec![JsonValue::Number(JsonNumber::PosInt(2)), JsonValue::Null]);
    assert_eq!(
        series[0].values[2],
        vec![JsonValue::Number(JsonNumber::PosInt(3)), JsonValue::Bool(true), text("c"), text("extra")]
    );
    assert_eq!(series[0].values[3], Vec::<JsonValue>::new());
    assert_eq!(
        series[0].tags,
        Some(vec![
            ("region".to_string(), "eu".to_string()),
            ("zone".to_string(), "z1".to_string()),
        ])
    );
    assert_eq!(series[1].name, "mem");
    assert_eq!(series[1].values, vec![vec![JsonValue::Number(JsonNumber::NegInt(-4))]]);
    assert!(series[1].tags.is_none());
    assert_eq!(series[2].name, "");
    assert!(series[2].columns.is_empty());
    assert!(series[2].values.is_empty());
}

#[test]
fn json_series_passes_over_what_has_the_wrong_type() {
    let data = decode_json(
        r#"{"name":7,"columns":["a",1,"b",null],"values":[[1],"row",{"k":1},[2,3]],"tags":["x"]}"#,
    )
    .unwrap();
    let series = series_from_json(&data);
    assert_eq!(series.name, "");
    assert_eq!(series.columns, vec!["a".to_string(), "b".to_string()]);
    assert_eq!(
        series.values,
        vec![
            vec![JsonValue::Number(JsonNumber::PosInt(1))],
            vec![JsonValue::Number(JsonNumber::PosInt(2)), JsonValue::Number(JsonNumber::PosInt(3))],
        ]
    );
    assert!(series.tags.is_none());
    let parsed = legacy().parse_series(&data).unwrap();
    assert_eq!(parsed.columns, series.columns);
}

#[test]
fn document_without_results_holds_no_series() {
    assert!(series_from_document(&decode_json("{}").unwrap()).is_empty());
    assert!(series_from_document(&decode_json("[1,2]").unwrap()).is_empty());
    assert!(series_from_document(&decode_json(r#"{"results":{}}"#).unwrap()).is_empty());
    assert!(series_from_document(&decode_json(r#"{"results":[{}]}"#).unwrap()).is_empty());
    assert!(series_from_document(&decode_json(r#"{"results":[{"series":5}]}"#).unwrap()).is_empty());
    assert!(series_from_document(&decode_json("null").unwrap()).is_empty());
}

#[test]
fn csv_rows_are_kept_ragged_and_as_strings() {
    let series = series_from_csv("a,b,c\n1,2,3\n4\n5,6,7,8\n,,\n", false);
    assert_eq!(series.len(), 1);
    assert_eq!(series[0].name, "flux_result");
    assert_eq!(series[0].columns, vec!["a".to_string(), "b".to_string(), "c".to_string()]);
    assert_eq!(series[0].values.len(), 4);
    assert_eq!(series[0].values[0], vec![text("1"), text("2"), text("3")]);
    assert_eq!(series[0].values[1], vec![text("4")]);
    assert_eq!(series[0].values[2], vec![text("5"), text("6"), text("7"), text("8")]);
    assert_eq!(series[0].values[3], vec![text(""), text(""), text("")]);
    let cells: usize = series[0].values.iter().map(|row| row.len()).sum();
    assert_eq!(cells, 11);
}

#[test]
fn csv_header_is_the_first_line_that_is_not_blank() {
    let series = series_from_csv("\r\n   \nname,value\r\n\r\ncpu,1\r\n\t\nmem,2", false);
    assert_eq!(series.len(), 1);
    assert_eq!(series[0].columns, vec!["name".to_string(), "value".to_string()]);
    assert_eq!(series[0].values, vec![vec![text("cpu"), text("1")], vec![text("mem"), text("2")]]);
}

#[test]
fn csv_without_a_table_line_holds_no_series() {
    assert!(series_from_csv("", false).is_empty());
    assert!(series_from_csv("\n\n", false).is_empty());
    assert!(series_from_csv("  \r\n\t\n ", false).is_empty());
    assert!(series_from_csv("#only,a,comment\n", true).is_empty());
}

#[test]
fn csv_comment_lines_belong_to_the_table_unless_skipped() {
    let body = "#datatype,string\n,result,name\n#group,false\n,_result,db1\n";
    let kept = series_from_csv(body, false);
    assert_eq!(kept[0].columns, vec!["#datatype".to_string(), "string".to_string()]);
    assert_eq!(kept[0].values.len(), 3);
    assert_eq!(kept[0].values[1], vec![text("#group"), text("false")]);
    let skipped = series_from_csv(body, true);
    assert_eq!(skipped[0].columns, vec!["".to_string(), "result".to_string(), "name".to_string()]);
    assert_eq!(skipped[0].values, vec![vec![text(""), text("_result"), text("db1")]]);

    let service = newer().with_comment_lines_skipped(true);
    let parsed = service.parse_flux_response(body).unwrap();
    assert_eq!(parsed[0].values.len(), 1);
    let plain = newer().parse_flux_response(body).unwrap();
    assert_eq!(plain[0].values.len(), 3);
}

#[test]
fn csv_keeps_a_carriage_return_that_no_line_feed_follows() {
    let series = series_from_csv("a,b\r\nx\ry,z\r", false);
    assert_eq!(series[0].columns, vec!["a".to_string(), "b".to_string()]);
    assert_eq!(series[0].values, vec![vec![text("x\ry"), text("z\r")]]);
}

#[test]
fn tags_hold_each_key_once() {
    let data = JsonValue::Object(vec![(
        "tags".to_string(),
        JsonValue::Object(vec![
            ("host".to_string(), text("a")),
            ("region".to_string(), text("eu")),
            ("host".to_string(), text("b")),
            ("rack".to_string(), JsonValue::Number(JsonNumber::PosInt(4))),
            ("region".to_string(), JsonValue::Null),
            ("zone".to_string(), text("z")),
        ]),
    )]);
    let series = series_from_json(&data);
    assert_eq!(
        series.tags,
        Some(vec![
            ("host".to_string(), "b".to_string()),
            ("region".to_string(), "eu".to_string()),
            ("zone".to_string(), "z".to_string()),
        ])
    );
    let empty = JsonValue::Object(vec![("tags".to_string(), JsonValue::Object(vec![]))]);
    assert_eq!(series_from_json(&empty).tags, Some(vec![]));
}
