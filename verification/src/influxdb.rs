//! The adapters of the two dialects and the one front over them. An adapter says which
//! request an operation needs and what the outcome of that request means; it never sends
//! anything itself.

use vstd::prelude::*;
use vstd::string::StringExecFns;
use crate::config::{base_url, base_url_of, fault_text, v1_config_of, v2_config_of, ConfigFault};
use crate::error::{answers, unanswered, AppError, ErrorKind};
use crate::json::{decode_json, decoded_json, JsonModel, JsonValue};
use crate::models::{
    ConnectionProfile, DatabaseInfo, DatabaseInfoModel, InfluxDBV1Config, InfluxDBV2Config,
    InfluxDBVersion, Measurement, MeasurementModel, QueryResult, QueryResultModel,
    RetentionPolicy, RetentionPolicyModel, Series, SeriesModel, V1ConfigModel, V2ConfigModel,
};
use crate::normalize::{
    flux_series, names_from_result, names_in, response_series, series_from_csv,
    series_from_document, series_from_json, series_of,
};
use crate::statement::{
    flux_for, insert_fault_text, joined, insert_payload, is_insert, is_insert_statement,
    measurements_listing, measurements_listing_text, measurements_statement,
    parse_insert_statement, reports_payload, retention_policies_statement, to_flux,
};
use crate::transport::{
    is_success, status_is_success, status_line, status_text, HttpMethod, HttpOutcome,
    HttpRequest, OutcomeModel, RequestModel,
};

verus! {

/// The request that asks a server of the legacy dialect whether it is there.
pub open spec fn v1_ping_request(config: V1ConfigModel) -> RequestModel {
    RequestModel {
        method: HttpMethod::Get,
        url: base_url_of(config.use_ssl, config.host, config.port) + "/ping"@,
        query: Seq::empty(),
        basic_auth: None,
        headers: Seq::empty(),
        body: None,
    }
}

/// The user and the password that a legacy configuration signs its requests with: both,
/// where both are set.
pub open spec fn v1_credentials(config: V1ConfigModel) -> Option<(Seq<char>, Seq<char>)> {
    match (config.username, config.password) {
        (Some(user), Some(password)) => Some((user, password)),
        _ => None,
    }
}

/// The request that reads with `query` from `database`.
pub open spec fn v1_read_request(
    config: V1ConfigModel,
    query: Seq<char>,
    database: Seq<char>,
) -> RequestModel {
    RequestModel {
        method: HttpMethod::Get,
        url: base_url_of(config.use_ssl, config.host, config.port) + "/query"@,
        query: seq![("q"@, query), ("db"@, database)],
        basic_auth: v1_credentials(config),
        headers: Seq::empty(),
        body: None,
    }
}

/// The request that writes the line-protocol `payload` to `database`.
pub open spec fn v1_write_request(
    config: V1ConfigModel,
    payload: Seq<char>,
    database: Seq<char>,
) -> RequestModel {
    RequestModel {
        method: HttpMethod::Post,
        url: base_url_of(config.use_ssl, config.host, config.port) + "/write"@,
        query: seq![("db"@, database)],
        basic_auth: v1_credentials(config),
        headers: Seq::empty(),
        body: Some(payload),
    }
}

/// The request that `query` against `database` needs: a write of its payload where it is an
/// insert statement, which fails where it carries none, and a read otherwise.
pub open spec fn v1_request(config: V1ConfigModel, query: Seq<char>, database: Seq<char>) -> Result<
    RequestModel,
    (ErrorKind, Seq<char>),
> {
    if is_insert(query) {
        match insert_payload(query) {
            Ok(payload) => Ok(v1_write_request(config, payload, database)),
            Err(fault) => Err((ErrorKind::Validation, insert_fault_text(fault))),
        }
    } else {
        Ok(v1_read_request(config, query, database))
    }
}

/// What the outcome of a ping means: the server is there where it answers with a success
/// status. Any other answer is a network failure with status and body; no answer is a
/// timeout where the request ran out of time, and a network failure otherwise.
pub open spec fn ping_result(outcome: OutcomeModel) -> Result<bool, (ErrorKind, Seq<char>)> {
    match outcome {
        OutcomeModel::SendFailed(failure) => Err(unanswered(failure)),
        OutcomeModel::Response { status, body } => if status_is_success(status) {
            Ok(true)
        } else {
            Err(
                (
                    ErrorKind::Network,
                    "Connection failed with status: "@ + status_line(status) + ". Response: "@
                        + match body {
                        Ok(text) => text,
                        Err(_) => "N/A"@,
                    },
                ),
            )
        },
    }
}

/// The detail of the failure for a response whose status tells of no success.
pub open spec fn rejection_text(status: u16, body: Seq<char>) -> Seq<char> {
    "HTTP "@ + status_line(status) + ": "@ + body
}

/// What the series of a decoded response are, or how the failure to decode reads.
pub open spec fn decoded_series(decoded: Result<JsonModel, Seq<char>>) -> Result<
    Seq<SeriesModel>,
    (ErrorKind, Seq<char>),
> {
    match decoded {
        Ok(document) => Ok(response_series(document)),
        Err(message) => Err((ErrorKind::Parse, "Failed to parse JSON: "@ + message)),
    }
}

/// What the outcome of a read means to the legacy adapter. No answer and an unreadable body
/// are timeouts where the request ran out of time, and network failures otherwise; a
/// status that tells of no success is a query failure with status and body; otherwise the
/// body is decoded and normalized.
pub open spec fn v1_read_result(outcome: OutcomeModel, elapsed: u64) -> Result<
    QueryResultModel,
    (ErrorKind, Seq<char>),
> {
    match outcome {
        OutcomeModel::SendFailed(failure) => Err(unanswered(failure)),
        OutcomeModel::Response { status, body } => match body {
            Err(failure) => Err(unanswered(failure)),
            Ok(text) => if status_is_success(status) {
                match decoded_series(decoded_json(text)) {
                    Ok(series) => Ok(QueryResultModel { series, execution_time: elapsed }),
                    Err(failure) => Err(failure),
                }
            } else {
                Err((ErrorKind::Query, rejection_text(status, text)))
            },
        },
    }
}

/// What the outcome of a write means to the legacy adapter: as for a read, but a success
/// carries no series.
pub open spec fn v1_write_result(outcome: OutcomeModel, elapsed: u64) -> Result<
    QueryResultModel,
    (ErrorKind, Seq<char>),
> {
    match outcome {
        OutcomeModel::SendFailed(failure) => Err(unanswered(failure)),
        OutcomeModel::Response { status, body } => match body {
            Err(failure) => Err(unanswered(failure)),
            Ok(text) => if status_is_success(status) {
                Ok(QueryResultModel { series: Seq::empty(), execution_time: elapsed })
            } else {
                Err((ErrorKind::Query, rejection_text(status, text)))
            },
        },
    }
}

/// What the outcome of the request for `query` means to the legacy adapter.
pub open spec fn v1_query_result(query: Seq<char>, outcome: OutcomeModel, elapsed: u64) -> Result<
    QueryResultModel,
    (ErrorKind, Seq<char>),
> {
    if is_insert(query) {
        match insert_payload(query) {
            Ok(_) => v1_write_result(outcome, elapsed),
            Err(fault) => Err((ErrorKind::Validation, insert_fault_text(fault))),
        }
    } else {
        v1_read_result(outcome, elapsed)
    }
}

/// The retention policy that a row describes: name, duration, replication and default flag
/// in its first four cells. A cell of another type stands for an empty text, one copy, or
/// no default. A replication beyond 32 bits keeps its low 32 bits.
pub open spec fn policy_of(row: Seq<JsonModel>) -> RetentionPolicyModel {
    RetentionPolicyModel {
        name: match row[0].as_str() {
            Some(s) => s,
            None => Seq::empty(),
        },
        duration: match row[1].as_str() {
            Some(s) => s,
            None => Seq::empty(),
        },
        replication: match row[2].as_u64() {
            Some(n) => (n % 0x1_0000_0000) as u32,
            None => 1,
        },
        default: match row[3].as_bool() {
            Some(b) => b,
            None => false,
        },
    }
}

/// The retention policies among `rows`: one for each row of four cells or more.
pub open spec fn policies_among(rows: Seq<Seq<JsonModel>>) -> Seq<RetentionPolicyModel>
    decreases rows.len(),
{
    if rows.len() == 0 {
        Seq::empty()
    } else {
        let before = policies_among(rows.drop_last());
        if rows.last().len() >= 4 {
            before.push(policy_of(rows.last()))
        } else {
            before
        }
    }
}

/// The retention policies that `series` list, series by series and row by row.
pub open spec fn policies_in(series: Seq<SeriesModel>) -> Seq<RetentionPolicyModel>
    decreases series.len(),
{
    if series.len() == 0 {
        Seq::empty()
    } else {
        policies_in(series.drop_last()) + policies_among(series.last().values)
    }
}

/// A measurement of which only the name is known.
pub open spec fn bare_measurement(name: Seq<char>) -> MeasurementModel {
    MeasurementModel { name, tag_keys: Seq::empty(), field_keys: Seq::empty(), series_count: 0 }
}

/// What is known of a database from its retention policies and the names of its
/// measurements. The series are not counted.
pub open spec fn database_info_of(
    name: Seq<char>,
    policies: Seq<RetentionPolicyModel>,
    measurements: Seq<Seq<char>>,
) -> DatabaseInfoModel {
    DatabaseInfoModel {
        name,
        retention_policies: policies,
        measurements: measurements.map_values(|m: Seq<char>| bare_measurement(m)),
        series_count: 0,
    }
}

/// The header by which a configuration of the newer dialect signs its requests.
pub open spec fn v2_authorization(config: V2ConfigModel) -> (Seq<char>, Seq<char>) {
    ("Authorization"@, "Bearer "@ + config.token)
}

/// The request that asks a server of the newer dialect whether it is there.
pub open spec fn v2_ping_request(config: V2ConfigModel) -> RequestModel {
    RequestModel {
        method: HttpMethod::Get,
        url: base_url_of(config.use_ssl, config.host, config.port) + "/ping"@,
        query: Seq::empty(),
        basic_auth: None,
        headers: seq![v2_authorization(config)],
        body: None,
    }
}

/// The bucket that a query goes to where none is named: the configured one, or `mybucket`.
pub open spec fn v2_default_bucket(config: V2ConfigModel) -> Seq<char> {
    match config.bucket {
        Some(bucket) => bucket,
        None => "mybucket"@,
    }
}

/// The request that `query` against `bucket` needs: a post of the rewritten query to the
/// query endpoint of the configured organization.
pub open spec fn v2_query_request(
    config: V2ConfigModel,
    query: Seq<char>,
    bucket: Seq<char>,
) -> RequestModel {
    RequestModel {
        method: HttpMethod::Post,
        url: base_url_of(config.use_ssl, config.host, config.port) + "/query?org="@ + config.org,
        query: Seq::empty(),
        basic_auth: None,
        headers: seq![v2_authorization(config), ("Content-Type"@, "application/vnd.flux"@)],
        body: Some(flux_for(query, bucket)),
    }
}

/// What the outcome of a query means to the adapter of the newer dialect. No answer is a
/// timeout where the request ran out of time, and a network failure otherwise. An answer
/// with a success status carries the table, and is reported like no answer where its body
/// cannot be read. Any other answer is a query failure with status and body.
pub open spec fn v2_query_result(outcome: OutcomeModel, elapsed: u64, skip_comments: bool) -> Result<
    QueryResultModel,
    (ErrorKind, Seq<char>),
> {
    match outcome {
        OutcomeModel::SendFailed(failure) => Err(unanswered(failure)),
        OutcomeModel::Response { status, body } => if status_is_success(status) {
            match body {
                Ok(text) => Ok(
                    QueryResultModel {
                        series: flux_series(text, skip_comments),
                        execution_time: elapsed,
                    },
                ),
                Err(failure) => Err(unanswered(failure)),
            }
        } else {
            Err(
                (
                    ErrorKind::Query,
                    rejection_text(
                        status,
                        match body {
                            Ok(text) => text,
                            Err(_) => "Unknown error"@,
                        },
                    ),
                ),
            )
        },
    }
}

/// The model of an [`InfluxDBService`]: the dialect with its configuration, and for the
/// newer dialect whether comment lines are left out of a table.
pub enum ServiceModel {
    V1(V1ConfigModel),
    V2(V2ConfigModel, bool),
}

/// The adapter that a profile of `version` with the configuration `config` leads to, or the
/// configuration failure that says which version could not be decoded and why. The third
/// version is served by the adapter of the second.
pub open spec fn service_for(version: InfluxDBVersion, config: JsonModel) -> Result<
    ServiceModel,
    (ErrorKind, Seq<char>),
> {
    match version {
        InfluxDBVersion::V1 => match v1_config_of(config) {
            Ok(c) => Ok(ServiceModel::V1(c)),
            Err(fault) => Err((ErrorKind::Config, "Invalid v1 config: "@ + fault_text(fault))),
        },
        InfluxDBVersion::V2 => match v2_config_of(config) {
            Ok(c) => Ok(ServiceModel::V2(c, false)),
            Err(fault) => Err((ErrorKind::Config, "Invalid v2 config: "@ + fault_text(fault))),
        },
        InfluxDBVersion::V3 => match v2_config_of(config) {
            Ok(c) => Ok(ServiceModel::V2(c, false)),
            Err(fault) => Err((ErrorKind::Config, "Invalid v3 config: "@ + fault_text(fault))),
        },
    }
}

impl ServiceModel {
    /// The request that asks the server whether it is there.
    pub open spec fn ping_request(self) -> RequestModel {
        match self {
            ServiceModel::V1(c) => v1_ping_request(c),
            ServiceModel::V2(c, _) => v2_ping_request(c),
        }
    }

    /// The database or bucket that a query goes to where none is named.
    pub open spec fn default_database(self) -> Seq<char> {
        match self {
            ServiceModel::V1(c) => c.database,
            ServiceModel::V2(c, _) => v2_default_bucket(c),
        }
    }

    /// The request that `query` against `database` needs.
    pub open spec fn query_request(self, query: Seq<char>, database: Seq<char>) -> Result<
        RequestModel,
        (ErrorKind, Seq<char>),
    > {
        match self {
            ServiceModel::V1(c) => v1_request(c, query, database),
            ServiceModel::V2(c, _) => Ok(v2_query_request(c, query, database)),
        }
    }

    /// What the outcome of the request for `query` means.
    pub open spec fn query_result(self, query: Seq<char>, outcome: OutcomeModel, elapsed: u64) -> Result<
        QueryResultModel,
        (ErrorKind, Seq<char>),
    > {
        match self {
            ServiceModel::V1(_) => v1_query_result(query, outcome, elapsed),
            ServiceModel::V2(_, skip_comments) => v2_query_result(outcome, elapsed, skip_comments),
        }
    }

    /// The statement that lists the databases or buckets.
    pub open spec fn databases_statement(self) -> Seq<char> {
        match self {
            ServiceModel::V1(_) => "SHOW DATABASES"@,
            ServiceModel::V2(_, _) => "buckets()"@,
        }
    }

    /// The statement that lists the measurements of `database`.
    pub open spec fn measurements_statement(self, database: Seq<char>) -> Seq<char> {
        match self {
            ServiceModel::V1(_) => measurements_statement(database),
            ServiceModel::V2(_, _) => measurements_listing(database),
        }
    }

    /// The statement that lists the retention policies of `database`. The newer dialect
    /// has none.
    pub open spec fn retention_policies_statement(self, database: Seq<char>) -> Option<Seq<char>> {
        match self {
            ServiceModel::V1(_) => Some(retention_policies_statement(database)),
            ServiceModel::V2(_, _) => None,
        }
    }

    /// The request that lists the databases or buckets. It goes to the default database.
    pub open spec fn databases_request(self) -> Result<RequestModel, (ErrorKind, Seq<char>)> {
        self.query_request(self.databases_statement(), self.default_database())
    }

    /// What the outcome of the listing of databases means: their names, read from the
    /// first column.
    pub open spec fn databases_result(self, outcome: OutcomeModel, elapsed: u64) -> Result<
        Seq<Seq<char>>,
        (ErrorKind, Seq<char>),
    > {
        names_found(self.query_result(self.databases_statement(), outcome, elapsed))
    }

    /// The request that lists the measurements of `database`. The statement names the
    /// database; the request itself goes to the default database.
    pub open spec fn measurements_request(self, database: Seq<char>) -> Result<
        RequestModel,
        (ErrorKind, Seq<char>),
    > {
        self.query_request(self.measurements_statement(database), self.default_database())
    }

    /// What the outcome of the listing of the measurements of `database` means: their
    /// names, read from the first column.
    pub open spec fn measurements_result(
        self,
        database: Seq<char>,
        outcome: OutcomeModel,
        elapsed: u64,
    ) -> Result<Seq<Seq<char>>, (ErrorKind, Seq<char>)> {
        names_found(self.query_result(self.measurements_statement(database), outcome, elapsed))
    }
}

/// The names that a query found, or the failure that it ended in.
pub open spec fn names_found(found: Result<QueryResultModel, (ErrorKind, Seq<char>)>) -> Result<
    Seq<Seq<char>>,
    (ErrorKind, Seq<char>),
> {
    match found {
        Ok(result) => Ok(names_in(result.series)),
        Err(failure) => Err(failure),
    }
}

/// How far the gathering of what is known of a database has come, with the outcome of the
/// request that was asked for last.
#[derive(Debug)]
pub enum DatabaseInfoProgress {
    /// Nothing has been asked yet.
    Begin,
    /// The request for the retention policies ended in `outcome`.
    PoliciesRead { outcome: HttpOutcome, elapsed: u64 },
    /// The request for the measurements ended in `outcome`; the retention policies are
    /// known.
    MeasurementsRead { policies: Vec<RetentionPolicy>, outcome: HttpOutcome, elapsed: u64 },
}

/// What to do next in gathering what is known of a database.
#[derive(Debug)]
pub enum DatabaseInfoNext {
    /// Send the request, and come back with `PoliciesRead`.
    ReadPolicies(HttpRequest),
    /// Send the request, and come back with `MeasurementsRead` and the policies.
    ReadMeasurements { request: HttpRequest, policies: Vec<RetentionPolicy> },
    /// The gathering has ended, in what is known or in the first failure.
    Finish(Result<DatabaseInfo, AppError>),
}

/// Whether `next` ends the gathering with the failure of the given kind and detail.
pub open spec fn gives_up(next: DatabaseInfoNext, failure: (ErrorKind, Seq<char>)) -> bool {
    next matches DatabaseInfoNext::Finish(Err(e)) && e.is(failure.0, failure.1)
}

/// Whether `next` asks for the measurements of `database`, with `policies` known; a
/// request that cannot be made ends the gathering.
pub open spec fn asks_for_measurements(
    next: DatabaseInfoNext,
    service: ServiceModel,
    database: Seq<char>,
    policies: Seq<RetentionPolicyModel>,
) -> bool {
    match service.measurements_request(database) {
        Ok(needed) => next matches DatabaseInfoNext::ReadMeasurements { request, policies: known }
            && request.deep_view() == needed && known.deep_view() == policies,
        Err(failure) => gives_up(next, failure),
    }
}

/// Whether `next` is the step that follows `progress` in gathering what is known of
/// `database`.
///
/// The legacy dialect is first asked for the retention policies, then for the
/// measurements; the newer dialect, which has no retention policies, for the measurements
/// at once. A step that failed ends the gathering with its failure, and nothing more is
/// asked. The answer holds the policies and, by name only, the measurements.
pub open spec fn info_follows(
    next: DatabaseInfoNext,
    service: ServiceModel,
    database: Seq<char>,
    progress: DatabaseInfoProgress,
) -> bool {
    match progress {
        DatabaseInfoProgress::Begin => match service.retention_policies_statement(database) {
            Some(statement) => match service.query_request(statement, service.default_database()) {
                Ok(needed) => next matches DatabaseInfoNext::ReadPolicies(request)
                    && request.deep_view() == needed,
                Err(failure) => gives_up(next, failure),
            },
            None => asks_for_measurements(next, service, database, Seq::empty()),
        },
        DatabaseInfoProgress::PoliciesRead { outcome, elapsed } => match service.retention_policies_statement(
            database,
        ) {
            Some(statement) => match service.query_result(statement, outcome.deep_view(), elapsed) {
                Ok(result) => asks_for_measurements(
                    next,
                    service,
                    database,
                    policies_in(result.series),
                ),
                Err(failure) => gives_up(next, failure),
            },
            None => asks_for_measurements(next, service, database, Seq::empty()),
        },
        DatabaseInfoProgress::MeasurementsRead { policies, outcome, elapsed } => match service.measurements_result(
            database,
            outcome.deep_view(),
            elapsed,
        ) {
            Ok(names) => next matches DatabaseInfoNext::Finish(Ok(info)) && info.deep_view()
                == database_info_of(database, policies.deep_view(), names),
            Err(failure) => gives_up(next, failure),
        },
    }
}

/// Says what the outcome of a ping means.
pub fn ping_from_outcome(outcome: HttpOutcome) -> (r: Result<bool, AppError>)
    ensures
        answers(r, ping_result(outcome.deep_view())),
{
    match outcome {
        HttpOutcome::SendFailed(failure) => Err(AppError::unanswered(failure)),
        HttpOutcome::Response { status, body } => {
            if is_success(status) {
                Ok(true)
            } else {
                let mut detail = String::from_str("Connection failed with status: ");
                let line = status_text(status);
                detail.append(line.as_str());
                detail.append(". Response: ");
                match body {
                    Ok(text) => detail.append(text.as_str()),
                    Err(_) => detail.append("N/A"),
                }
                Err(AppError::Network(detail))
            }
        },
    }
}

/// The query failure for a response whose status tells of no success.
fn rejection(status: u16, body: &str) -> (e: AppError)
    ensures
        e.is(ErrorKind::Query, rejection_text(status, body@)),
{
    let mut detail = String::from_str("HTTP ");
    let line = status_text(status);
    detail.append(line.as_str());
    detail.append(": ");
    detail.append(body);
    AppError::Query(detail)
}

/// Normalizes a decoded response of the legacy dialect, or reports why the body could not
/// be decoded.
pub fn series_from_decoded(decoded: Result<JsonValue, String>) -> (r: Result<Vec<Series>, AppError>)
    ensures
        answers(
            r,
            decoded_series(
                match decoded {
                    Ok(document) => Ok(document.deep_view()),
                    Err(message) => Err(message@),
                },
            ),
        ),
{
    match decoded {
        Ok(document) => Ok(series_from_document(&document)),
        Err(message) => {
            let mut detail = String::from_str("Failed to parse JSON: ");
            detail.append(message.as_str());
            Err(AppError::Parse(detail))
        },
    }
}

/// The retention policy that `row` describes.
fn policy_from_row(row: &Vec<JsonValue>) -> (r: RetentionPolicy)
    requires
        row@.len() >= 4,
    ensures
        r.deep_view() == policy_of(row.deep_view()),
{
    proof {
        assert(row.deep_view()[0] == row@[0].deep_view());
        assert(row.deep_view()[1] == row@[1].deep_view());
        assert(row.deep_view()[2] == row@[2].deep_view());
        assert(row.deep_view()[3] == row@[3].deep_view());
    }
    let name = match row[0].as_str() {
        Some(s) => s.to_owned(),
        None => String::new(),
    };
    let duration = match row[1].as_str() {
        Some(s) => s.to_owned(),
        None => String::new(),
    };
    let replication: u32 = match row[2].as_u64() {
        Some(n) => (n % 0x1_0000_0000) as u32,
        None => 1,
    };
    let default = match row[3].as_bool() {
        Some(b) => b,
        None => false,
    };
    RetentionPolicy { name, duration, replication, default }
}

/// Reads the retention policies that a result lists: one for each row of four cells or
/// more, in the order of the rows.
pub fn policies_from_result(result: &QueryResult) -> (r: Vec<RetentionPolicy>)
    ensures
        r.deep_view() == policies_in(result.deep_view().series),
{
    let ghost all = result.series.deep_view();
    let mut r: Vec<RetentionPolicy> = Vec::new();
    let mut i: usize = 0;
    proof {
        assert(r.deep_view() =~= policies_in(all.take(0)));
    }
    while i < result.series.len()
        invariant
            i <= result.series@.len(),
            all == result.series.deep_view(),
            r.deep_view() == policies_in(all.take(i as int)),
        decreases result.series@.len() - i,
    {
        proof {
            assert(all.take(i + 1).drop_last() =~= all.take(i as int));
            assert(all.take(i + 1).last() == result.series@[i as int].deep_view());
        }
        let ghost before = r.deep_view();
        let rows = &result.series[i].values;
        let ghost listed = rows.deep_view();
        let mut j: usize = 0;
        proof {
            assert(r.deep_view() =~= before + policies_among(listed.take(0)));
        }
        while j < rows.len()
            invariant
                j <= rows@.len(),
                listed == rows.deep_view(),
                r.deep_view() == before + policies_among(listed.take(j as int)),
            decreases rows@.len() - j,
        {
            proof {
                assert(listed.take(j + 1).drop_last() =~= listed.take(j as int));
                assert(listed.take(j + 1).last() == rows@[j as int].deep_view());
            }
            let ghost sofar = r.deep_view();
            let row = &rows[j];
            if row.len() >= 4 {
                let policy = policy_from_row(row);
                r.push(policy);
                proof {
                    let p = policy_of(row.deep_view());
                    assert(r.deep_view() =~= sofar.push(p));
                    assert(before + policies_among(listed.take(j as int)).push(p) =~= sofar.push(
                        p,
                    ));
                }
            }
            j = j + 1;
        }
        proof {
            assert(listed.take(j as int) =~= listed);
        }
        i = i + 1;
    }
    proof {
        assert(all.take(i as int) =~= all);
    }
    r
}

/// Puts together what is known of a database.
pub fn database_info(
    name: &str,
    policies: Vec<RetentionPolicy>,
    measurements: Vec<String>,
) -> (r: DatabaseInfo)
    ensures
        r.deep_view() == database_info_of(name@, policies.deep_view(), measurements.deep_view()),
{
    let mut listed: Vec<Measurement> = Vec::new();
    let mut i: usize = 0;
    while i < measurements.len()
        invariant
            i <= measurements@.len(),
            listed@.len() == i,
            forall|j: int|
                0 <= j < i ==> (#[trigger] listed@[j]).deep_view() == bare_measurement(
                    measurements@[j]@,
                ),
        decreases measurements@.len() - i,
    {
        let m = Measurement {
            name: measurements[i].clone(),
            tag_keys: Vec::new(),
            field_keys: Vec::new(),
            series_count: 0,
        };
        proof {
            assert(m.tag_keys.deep_view() =~= Seq::empty());
            assert(m.field_keys.deep_view() =~= Seq::empty());
        }
        listed.push(m);
        i = i + 1;
    }
    proof {
        assert(listed.deep_view() =~= measurements.deep_view().map_values(
            |m: Seq<char>| bare_measurement(m),
        ));
    }
    DatabaseInfo {
        name: name.to_owned(),
        retention_policies: policies,
        measurements: listed,
        series_count: 0,
    }
}

/// The adapter of the legacy dialect, bound to one configuration.
#[derive(Debug)]
pub struct InfluxDBV1Service {
    config: InfluxDBV1Config,
    base_url: String,
}

impl InfluxDBV1Service {
    #[verifier::type_invariant]
    spec fn well_formed(self) -> bool {
        self.base_url@ == base_url_of(self.config.use_ssl, self.config.host@, self.config.port)
    }

    /// The configuration that this adapter is bound to.
    pub closed spec fn settings(&self) -> V1ConfigModel {
        self.config.deep_view()
    }

    /// Binds an adapter to `config`.
    pub fn new(config: InfluxDBV1Config) -> (r: Self)
        ensures
            r.settings() == config.deep_view(),
    {
        let base_url = base_url(config.use_ssl, config.host.as_str(), config.port);
        InfluxDBV1Service { config, base_url }
    }

    /// The configuration that this adapter is bound to.
    pub fn config(&self) -> (r: &InfluxDBV1Config)
        ensures
            r.deep_view() == self.settings(),
    {
        &self.config
    }

    /// The address of the server.
    pub fn base_url(&self) -> (r: &str)
        ensures
            r@ == base_url_of(self.settings().use_ssl, self.settings().host, self.settings().port),
    {
        proof {
            use_type_invariant(self);
        }
        self.base_url.as_str()
    }

    /// The user and the password to sign a request with.
    fn credentials(&self) -> (r: Option<(String, String)>)
        ensures
            r.deep_view() == v1_credentials(self.settings()),
    {
        match (&self.config.username, &self.config.password) {
            (Some(user), Some(password)) => Some((user.clone(), password.clone())),
            _ => None,
        }
    }

    /// The request that asks the server whether it is there.
    pub fn ping_request(&self) -> (r: HttpRequest)
        ensures
            r.deep_view() == v1_ping_request(self.settings()),
    {
        let mut url = self.base_url().to_owned();
        url.append("/ping");
        let r = HttpRequest {
            method: HttpMethod::Get,
            url,
            query: Vec::new(),
            basic_auth: None,
            headers: Vec::new(),
            body: None,
        };
        proof {
            assert(r.query.deep_view() =~= Seq::empty());
            assert(r.headers.deep_view() =~= Seq::empty());
        }
        r
    }

    /// Says what the outcome of a ping means: the server is there where it answered with a
    /// success status.
    pub fn ping(&self, outcome: HttpOutcome) -> (r: Result<bool, AppError>)
        ensures
            answers(r, ping_result(outcome.deep_view())),
    {
        ping_from_outcome(outcome)
    }

    /// The request that reads with `query` from `database`.
    fn read_request(&self, query: &str, database: &str) -> (r: HttpRequest)
        ensures
            r.deep_view() == v1_read_request(self.settings(), query@, database@),
    {
        let mut url = self.base_url().to_owned();
        url.append("/query");
        let mut query_params: Vec<(String, String)> = Vec::new();
        query_params.push((String::from_str("q"), query.to_owned()));
        query_params.push((String::from_str("db"), database.to_owned()));
        let r = HttpRequest {
            method: HttpMethod::Get,
            url,
            query: query_params,
            basic_auth: self.credentials(),
            headers: Vec::new(),
            body: None,
        };
        proof {
            assert(r.query.deep_view() =~= seq![("q"@, query@), ("db"@, database@)]);
            assert(r.headers.deep_view() =~= Seq::empty());
        }
        r
    }

    /// The request that writes `payload` to `database`.
    fn write_request(&self, payload: String, database: &str) -> (r: HttpRequest)
        ensures
            r.deep_view() == v1_write_request(self.settings(), payload@, database@),
    {
        let mut url = self.base_url().to_owned();
        url.append("/write");
        let mut query_params: Vec<(String, String)> = Vec::new();
        query_params.push((String::from_str("db"), database.to_owned()));
        let r = HttpRequest {
            method: HttpMethod::Post,
            url,
            query: query_params,
            basic_auth: self.credentials(),
            headers: Vec::new(),
            body: Some(payload),
        };
        proof {
            assert(r.query.deep_view() =~= seq![("db"@, database@)]);
            assert(r.headers.deep_view() =~= Seq::empty());
        }
        r
    }

    /// The request that `query` needs against the configured database.
    pub fn query_request(&self, query: &str) -> (r: Result<HttpRequest, AppError>)
        ensures
            answers(r, v1_request(self.settings(), query@, self.settings().database)),
    {
        self.query_with_database_request(query, self.config.database.as_str())
    }

    /// The request that `query` needs against `database`, whatever database is configured:
    /// a write of the payload where `query` is an insert statement, a read otherwise. An
    /// insert statement without a payload is a validation failure, and nothing is to be sent.
    pub fn query_with_database_request(&self, query: &str, database: &str) -> (r: Result<
        HttpRequest,
        AppError,
    >)
        ensures
            answers(r, v1_request(self.settings(), query@, database@)),
    {
        if is_insert_statement(query) {
            self.write_with_database_request(query, database)
        } else {
            Ok(self.read_request(query, database))
        }
    }

    /// The request that writes the payload of `insert_query` to `database`.
    pub fn write_with_database_request(&self, insert_query: &str, database: &str) -> (r: Result<
        HttpRequest,
        AppError,
    >)
        ensures
            answers(
                r,
                match insert_payload(insert_query@) {
                    Ok(payload) => Ok(v1_write_request(self.settings(), payload, database@)),
                    Err(fault) => Err((ErrorKind::Validation, insert_fault_text(fault))),
                },
            ),
    {
        match self.parse_insert_query(insert_query) {
            Ok(payload) => Ok(self.write_request(payload, database)),
            Err(e) => Err(e),
        }
    }

    /// Says what the outcome of the request for `query` means, `elapsed` milliseconds after
    /// the request was made.
    ///
    /// For an insert statement the outcome is that of a write, for anything else that of a
    /// read. An insert statement without a payload is the validation failure that its
    /// request already was.
    pub fn query(&self, query: &str, outcome: HttpOutcome, elapsed: u64) -> (r: Result<
        QueryResult,
        AppError,
    >)
        ensures
            answers(r, v1_query_result(query@, outcome.deep_view(), elapsed)),
    {
        if is_insert_statement(query) {
            self.write(query, outcome, elapsed)
        } else {
            match outcome {
                HttpOutcome::SendFailed(failure) => Err(AppError::unanswered(failure)),
                HttpOutcome::Response { status, body } => match body {
                    Err(failure) => Err(AppError::unanswered(failure)),
                    Ok(text) => {
                        if is_success(status) {
                            match self.parse_query_response(text.as_str()) {
                                Ok(series) => Ok(QueryResult { series, execution_time: elapsed }),
                                Err(e) => Err(e),
                            }
                        } else {
                            Err(rejection(status, text.as_str()))
                        }
                    },
                },
            }
        }
    }

    /// Says what the outcome of the write for `insert_query` means: a result without series
    /// where the server accepted the write.
    pub fn write(&self, insert_query: &str, outcome: HttpOutcome, elapsed: u64) -> (r: Result<
        QueryResult,
        AppError,
    >)
        ensures
            answers(
                r,
                match insert_payload(insert_query@) {
                    Ok(_) => v1_write_result(outcome.deep_view(), elapsed),
                    Err(fault) => Err((ErrorKind::Validation, insert_fault_text(fault))),
                },
            ),
    {
        match self.parse_insert_query(insert_query) {
            Err(e) => Err(e),
            Ok(_) => match outcome {
                HttpOutcome::SendFailed(failure) => Err(AppError::unanswered(failure)),
                HttpOutcome::Response { status, body } => match body {
                    Err(failure) => Err(AppError::unanswered(failure)),
                    Ok(text) => {
                        if is_success(status) {
                            let r = QueryResult { series: Vec::new(), execution_time: elapsed };
                            proof {
                                assert(r.series.deep_view() =~= Seq::empty());
                            }
                            Ok(r)
                        } else {
                            Err(rejection(status, text.as_str()))
                        }
                    },
                },
            },
        }
    }

    /// Takes the line-protocol payload out of an insert statement, or says by a validation
    /// failure why it has none.
    pub fn parse_insert_query(&self, insert_query: &str) -> (r: Result<String, AppError>)
        ensures
            reports_payload(r, insert_payload(insert_query@)),
            !is_insert(insert_query@) ==> (r matches Err(e) && e.kind() == ErrorKind::Validation),
    {
        parse_insert_statement(insert_query)
    }

    /// The statement that lists the databases.
    pub fn databases_statement(&self) -> (r: &'static str)
        ensures
            r@ == "SHOW DATABASES"@,
    {
        "SHOW DATABASES"
    }

    /// Reads the names of the databases out of the result of the listing statement.
    pub fn get_databases(&self, result: &QueryResult) -> (r: Vec<String>)
        ensures
            r.deep_view() == names_in(result.deep_view().series),
    {
        names_from_result(result)
    }

    /// The statement that lists the retention policies of `database`.
    pub fn retention_policies_statement(&self, database: &str) -> (r: String)
        ensures
            r@ == retention_policies_statement(database@),
    {
        joined("SHOW RETENTION POLICIES ON ", database)
    }

    /// The statement that lists the measurements of `database`.
    pub fn measurements_statement(&self, database: &str) -> (r: String)
        ensures
            r@ == measurements_statement(database@),
    {
        joined("SHOW MEASUREMENTS ON ", database)
    }

    /// Puts together what is known of `database` from the result of the statement that lists
    /// its retention policies and from the names of its measurements.
    pub fn get_database_info(
        &self,
        database: &str,
        policies: &QueryResult,
        measurements: Vec<String>,
    ) -> (r: DatabaseInfo)
        ensures
            r.deep_view() == database_info_of(
                database@,
                policies_in(policies.deep_view().series),
                measurements.deep_view(),
            ),
    {
        database_info(database, policies_from_result(policies), measurements)
    }

    /// Reads the names of the measurements out of the result of the listing statement.
    pub fn get_measurements(&self, result: &QueryResult) -> (r: Vec<String>)
        ensures
            r.deep_view() == names_in(result.deep_view().series),
    {
        names_from_result(result)
    }

    /// Decodes the body of a response and normalizes it. A body that is no JSON document is a
    /// parse failure.
    pub fn parse_query_response(&self, response_text: &str) -> (r: Result<Vec<Series>, AppError>)
        ensures
            answers(r, decoded_series(decoded_json(response_text@))),
    {
        series_from_decoded(decode_json(response_text))
    }

    /// Reads one series out of its description. Never fails.
    pub fn parse_series(&self, series_data: &JsonValue) -> (r: Result<Series, AppError>)
        ensures
            r matches Ok(series) && series.deep_view() == series_of(series_data.deep_view()),
    {
        Ok(series_from_json(series_data))
    }
}

/// The adapter of the newer dialect, bound to one configuration.
#[derive(Debug)]
pub struct InfluxDBV2Service {
    config: InfluxDBV2Config,
    base_url: String,
    skip_comment_lines: bool,
}

impl InfluxDBV2Service {
    #[verifier::type_invariant]
    spec fn well_formed(self) -> bool {
        self.base_url@ == base_url_of(self.config.use_ssl, self.config.host@, self.config.port)
    }

    /// The configuration that this adapter is bound to.
    pub closed spec fn settings(&self) -> V2ConfigModel {
        self.config.deep_view()
    }

    /// Whether lines that begin with `#` are left out of a table.
    pub closed spec fn skips_comment_lines(&self) -> bool {
        self.skip_comment_lines
    }

    /// Binds an adapter to `config`. Every cell of a table is kept as a string, and lines
    /// that begin with `#` belong to the table like any other.
    pub fn new(config: InfluxDBV2Config) -> (r: Self)
        ensures
            r.settings() == config.deep_view(),
            !r.skips_comment_lines(),
    {
        let base_url = base_url(config.use_ssl, config.host.as_str(), config.port);
        InfluxDBV2Service { config, base_url, skip_comment_lines: false }
    }

    /// The same adapter, which leaves lines that begin with `#` out of a table where `skip`
    /// is set.
    pub fn with_comment_lines_skipped(self, skip: bool) -> (r: Self)
        ensures
            r.settings() == self.settings(),
            r.skips_comment_lines() == skip,
    {
        proof {
            use_type_invariant(&self);
        }
        InfluxDBV2Service { config: self.config, base_url: self.base_url, skip_comment_lines: skip }
    }

    /// The configuration that this adapter is bound to.
    pub fn config(&self) -> (r: &InfluxDBV2Config)
        ensures
            r.deep_view() == self.settings(),
    {
        &self.config
    }

    /// The address of the server.
    pub fn base_url(&self) -> (r: &str)
        ensures
            r@ == base_url_of(self.settings().use_ssl, self.settings().host, self.settings().port),
    {
        proof {
            use_type_invariant(self);
        }
        self.base_url.as_str()
    }

    /// The header that signs a request.
    fn authorization(&self) -> (r: (String, String))
        ensures
            r.deep_view() == v2_authorization(self.settings()),
    {
        (String::from_str("Authorization"), joined("Bearer ", self.config.token.as_str()))
    }

    /// The bucket that a query goes to where none is named.
    pub fn default_bucket(&self) -> (r: &str)
        ensures
            r@ == v2_default_bucket(self.settings()),
    {
        match &self.config.bucket {
            Some(bucket) => bucket.as_str(),
            None => "mybucket",
        }
    }

    /// The request that asks the server whether it is there.
    pub fn ping_request(&self) -> (r: HttpRequest)
        ensures
            r.deep_view() == v2_ping_request(self.settings()),
    {
        let mut url = self.base_url().to_owned();
        url.append("/ping");
        let mut headers: Vec<(String, String)> = Vec::new();
        headers.push(self.authorization());
        let r = HttpRequest {
            method: HttpMethod::Get,
            url,
            query: Vec::new(),
            basic_auth: None,
            headers,
            body: None,
        };
        proof {
            assert(r.query.deep_view() =~= Seq::empty());
            assert(r.headers.deep_view() =~= seq![v2_authorization(self.settings())]);
        }
        r
    }

    /// Says what the outcome of a ping means: the server is there where it answered with a
    /// success status.
    pub fn ping(&self, outcome: HttpOutcome) -> (r: Result<bool, AppError>)
        ensures
            answers(r, ping_result(outcome.deep_view())),
    {
        ping_from_outcome(outcome)
    }

    /// The request that `query` needs against the default bucket.
    pub fn query_request(&self, query: &str) -> (r: Result<HttpRequest, AppError>)
        ensures
            answers(
                r,
                Ok(v2_query_request(self.settings(), query@, v2_default_bucket(self.settings()))),
            ),
    {
        self.query_with_database_request(query, self.default_bucket())
    }

    /// The request that `query` needs against `bucket`. It carries the query as the newer
    /// dialect takes it.
    pub fn query_with_database_request(&self, query: &str, bucket: &str) -> (r: Result<
        HttpRequest,
        AppError,
    >)
        ensures
            answers(r, Ok(v2_query_request(self.settings(), query@, bucket@))),
    {
        let mut url = self.base_url().to_owned();
        url.append("/query?org=");
        url.append(self.config.org.as_str());
        let flux = match self.convert_to_flux_with_bucket(query, bucket) {
            Ok(flux) => flux,
            Err(e) => {
                return Err(e);
            },
        };
        let mut headers: Vec<(String, String)> = Vec::new();
        headers.push(self.authorization());
        headers.push((String::from_str("Content-Type"), String::from_str("application/vnd.flux")));
        let r = HttpRequest {
            method: HttpMethod::Post,
            url,
            query: Vec::new(),
            basic_auth: None,
            headers,
            body: Some(flux),
        };
        proof {
            assert(r.query.deep_view() =~= Seq::empty());
            assert(r.headers.deep_view() =~= seq![
                v2_authorization(self.settings()),
                ("Content-Type"@, "application/vnd.flux"@),
            ]);
        }
        Ok(r)
    }

    /// Says what the outcome of a query means, `elapsed` milliseconds after the request was
    /// made.
    pub fn query(&self, outcome: HttpOutcome, elapsed: u64) -> (r: Result<QueryResult, AppError>)
        ensures
            answers(r, v2_query_result(outcome.deep_view(), elapsed, self.skips_comment_lines())),
    {
        match outcome {
            HttpOutcome::SendFailed(failure) => Err(AppError::unanswered(failure)),
            HttpOutcome::Response { status, body } => {
                if is_success(status) {
                    match body {
                        Ok(text) => match self.parse_flux_response(text.as_str()) {
                            Ok(series) => Ok(QueryResult { series, execution_time: elapsed }),
                            Err(e) => Err(e),
                        },
                        Err(failure) => Err(AppError::unanswered(failure)),
                    }
                } else {
                    match body {
                        Ok(text) => Err(rejection(status, text.as_str())),
                        Err(_) => Err(rejection(status, "Unknown error")),
                    }
                }
            },
        }
    }

    /// The expression that lists the buckets.
    pub fn databases_statement(&self) -> (r: &'static str)
        ensures
            r@ == "buckets()"@,
    {
        "buckets()"
    }

    /// Reads the names of the buckets out of the result of the listing expression.
    pub fn get_databases(&self, result: &QueryResult) -> (r: Vec<String>)
        ensures
            r.deep_view() == names_in(result.deep_view().series),
    {
        names_from_result(result)
    }

    /// Puts together what is known of `bucket` from the names of its measurements. Of
    /// retention policies this dialect knows nothing.
    pub fn get_database_info(&self, bucket: &str, measurements: Vec<String>) -> (r: DatabaseInfo)
        ensures
            r.deep_view() == database_info_of(bucket@, Seq::empty(), measurements.deep_view()),
    {
        let policies: Vec<RetentionPolicy> = Vec::new();
        proof {
            assert(policies.deep_view() =~= Seq::empty());
        }
        database_info(bucket, policies, measurements)
    }

    /// The expression that lists the measurements of `bucket`.
    pub fn measurements_statement(&self, bucket: &str) -> (r: String)
        ensures
            r@ == measurements_listing(bucket@),
    {
        measurements_listing_text(bucket)
    }

    /// Reads the names of the measurements out of the result of the listing expression.
    pub fn get_measurements(&self, result: &QueryResult) -> (r: Vec<String>)
        ensures
            r.deep_view() == names_in(result.deep_view().series),
    {
        names_from_result(result)
    }

    /// Rewrites `query` for the default bucket.
    pub fn convert_to_flux(&self, query: &str) -> (r: Result<String, AppError>)
        ensures
            r matches Ok(flux) && flux@ == flux_for(query@, v2_default_bucket(self.settings())),
    {
        self.convert_to_flux_with_bucket(query, self.default_bucket())
    }

    /// Rewrites `query` for `bucket`: the two listing statements of the legacy dialect
    /// become expressions of this one, anything else passes unchanged. Never fails.
    pub fn convert_to_flux_with_bucket(&self, query: &str, bucket: &str) -> (r: Result<
        String,
        AppError,
    >)
        ensures
            r matches Ok(flux) && flux@ == flux_for(query@, bucket@),
    {
        Ok(to_flux(query, bucket))
    }

    /// Normalizes the CSV body of a response. Never fails.
    pub fn parse_flux_response(&self, response_text: &str) -> (r: Result<Vec<Series>, AppError>)
        ensures
            r matches Ok(series) && series.deep_view() == flux_series(
                response_text@,
                self.skips_comment_lines(),
            ),
    {
        Ok(series_from_csv(response_text, self.skip_comment_lines))
    }
}

/// A live adapter of either dialect.
#[derive(Debug)]
pub enum InfluxDBService {
    V1(InfluxDBV1Service),
    V2(InfluxDBV2Service),
}

impl DeepView for InfluxDBService {
    type V = ServiceModel;

    open spec fn deep_view(&self) -> ServiceModel {
        match self {
            InfluxDBService::V1(service) => ServiceModel::V1(service.settings()),
            InfluxDBService::V2(service) => ServiceModel::V2(
                service.settings(),
                service.skips_comment_lines(),
            ),
        }
    }
}

impl InfluxDBService {
    /// The request that asks the server whether it is there.
    pub fn ping_request(&self) -> (r: HttpRequest)
        ensures
            r.deep_view() == self.deep_view().ping_request(),
    {
        match self {
            InfluxDBService::V1(service) => service.ping_request(),
            InfluxDBService::V2(service) => service.ping_request(),
        }
    }

    /// Says what the outcome of a ping means.
    pub fn ping(&self, outcome: HttpOutcome) -> (r: Result<bool, AppError>)
        ensures
            answers(r, ping_result(outcome.deep_view())),
    {
        match self {
            InfluxDBService::V1(service) => service.ping(outcome),
            InfluxDBService::V2(service) => service.ping(outcome),
        }
    }

    /// The database or bucket that a query goes to where none is named.
    pub fn default_database(&self) -> (r: &str)
        ensures
            r@ == self.deep_view().default_database(),
    {
        match self {
            InfluxDBService::V1(service) => service.config().database.as_str(),
            InfluxDBService::V2(service) => service.default_bucket(),
        }
    }

    /// The request that `query` needs against the default database or bucket.
    pub fn query_request(&self, query: &str) -> (r: Result<HttpRequest, AppError>)
        ensures
            answers(
                r,
                self.deep_view().query_request(query@, self.deep_view().default_database()),
            ),
    {
        match self {
            InfluxDBService::V1(service) => service.query_request(query),
            InfluxDBService::V2(service) => service.query_request(query),
        }
    }

    /// The request that `query` needs against `database`, which stands in for the default:
    /// the legacy dialect takes it as the database, the newer one as the bucket.
    pub fn query_with_database_request(&self, query: &str, database: &str) -> (r: Result<
        HttpRequest,
        AppError,
    >)
        ensures
            answers(r, self.deep_view().query_request(query@, database@)),
    {
        match self {
            InfluxDBService::V1(service) => service.query_with_database_request(query, database),
            InfluxDBService::V2(service) => service.query_with_database_request(query, database),
        }
    }

    /// Says what the outcome of the request for `query` means, `elapsed` milliseconds after
    /// the request was made.
    pub fn query(&self, query: &str, outcome: HttpOutcome, elapsed: u64) -> (r: Result<
        QueryResult,
        AppError,
    >)
        ensures
            answers(r, self.deep_view().query_result(query@, outcome.deep_view(), elapsed)),
    {
        match self {
            InfluxDBService::V1(service) => service.query(query, outcome, elapsed),
            InfluxDBService::V2(service) => service.query(outcome, elapsed),
        }
    }

    /// Says what the outcome of the request for `query` against `database` means. The
    /// database decided where the request went; what the outcome means does not depend on
    /// it.
    pub fn query_with_database(
        &self,
        query: &str,
        database: &str,
        outcome: HttpOutcome,
        elapsed: u64,
    ) -> (r: Result<QueryResult, AppError>)
        ensures
            answers(r, self.deep_view().query_result(query@, outcome.deep_view(), elapsed)),
    {
        self.query(query, outcome, elapsed)
    }

    /// The statement that lists the databases or buckets.
    pub fn databases_statement(&self) -> (r: &'static str)
        ensures
            r@ == self.deep_view().databases_statement(),
    {
        match self {
            InfluxDBService::V1(service) => service.databases_statement(),
            InfluxDBService::V2(service) => service.databases_statement(),
        }
    }

    /// The request that lists the databases or buckets.
    pub fn get_databases_request(&self) -> (r: Result<HttpRequest, AppError>)
        ensures
            answers(r, self.deep_view().databases_request()),
    {
        self.query_request(self.databases_statement())
    }

    /// Says what the outcome of the listing of databases means: their names.
    pub fn get_databases(&self, outcome: HttpOutcome, elapsed: u64) -> (r: Result<
        Vec<String>,
        AppError,
    >)
        ensures
            answers(r, self.deep_view().databases_result(outcome.deep_view(), elapsed)),
    {
        match self.query(self.databases_statement(), outcome, elapsed) {
            Ok(result) => Ok(names_from_result(&result)),
            Err(e) => Err(e),
        }
    }

    /// The statement that lists the retention policies of `database`, where the dialect
    /// has one.
    pub fn retention_policies_statement(&self, database: &str) -> (r: Option<String>)
        ensures
            r.deep_view() == self.deep_view().retention_policies_statement(database@),
    {
        match self {
            InfluxDBService::V1(service) => Some(service.retention_policies_statement(database)),
            InfluxDBService::V2(_) => None,
        }
    }

    /// The statement that lists the measurements of `database`.
    pub fn measurements_statement(&self, database: &str) -> (r: String)
        ensures
            r@ == self.deep_view().measurements_statement(database@),
    {
        match self {
            InfluxDBService::V1(service) => service.measurements_statement(database),
            InfluxDBService::V2(service) => service.measurements_statement(database),
        }
    }

    /// The request that lists the measurements of `database`.
    pub fn get_measurements_request(&self, database: &str) -> (r: Result<HttpRequest, AppError>)
        ensures
            answers(r, self.deep_view().measurements_request(database@)),
    {
        let statement = self.measurements_statement(database);
        self.query_request(statement.as_str())
    }

    /// Says what the outcome of the listing of the measurements of `database` means: their
    /// names.
    pub fn get_measurements(&self, database: &str, outcome: HttpOutcome, elapsed: u64) -> (r:
        Result<Vec<String>, AppError>)
        ensures
            answers(r, self.deep_view().measurements_result(database@, outcome.deep_view(), elapsed)),
    {
        let statement = self.measurements_statement(database);
        match self.query(statement.as_str(), outcome, elapsed) {
            Ok(result) => Ok(names_from_result(&result)),
            Err(e) => Err(e),
        }
    }

    /// The step that asks for the measurements of `database`, with `policies` known.
    fn ask_for_measurements(&self, database: &str, policies: Vec<RetentionPolicy>) -> (next:
        DatabaseInfoNext)
        ensures
            asks_for_measurements(next, self.deep_view(), database@, policies.deep_view()),
    {
        match self.get_measurements_request(database) {
            Ok(request) => DatabaseInfoNext::ReadMeasurements { request, policies },
            Err(e) => DatabaseInfoNext::Finish(Err(e)),
        }
    }

    /// Decides the next step in gathering what is known of `database`.
    ///
    /// The caller begins with `Begin`, sends the request that the answer holds, and comes
    /// back with its outcome, until the answer is `Finish`.
    pub fn get_database_info(&self, database: &str, progress: DatabaseInfoProgress) -> (next:
        DatabaseInfoNext)
        ensures
            info_follows(next, self.deep_view(), database@, progress),
    {
        match progress {
            DatabaseInfoProgress::Begin => match self.retention_policies_statement(database) {
                Some(statement) => match self.query_request(statement.as_str()) {
                    Ok(request) => DatabaseInfoNext::ReadPolicies(request),
                    Err(e) => DatabaseInfoNext::Finish(Err(e)),
                },
                None => self.ask_for_none(database),
            },
            DatabaseInfoProgress::PoliciesRead { outcome, elapsed } => match self.retention_policies_statement(
                database,
            ) {
                Some(statement) => match self.query(statement.as_str(), outcome, elapsed) {
                    Ok(result) => {
                        let policies = policies_from_result(&result);
                        self.ask_for_measurements(database, policies)
                    },
                    Err(e) => DatabaseInfoNext::Finish(Err(e)),
                },
                None => self.ask_for_none(database),
            },
            DatabaseInfoProgress::MeasurementsRead { policies, outcome, elapsed } => match self.get_measurements(
                database,
                outcome,
                elapsed,
            ) {
                Ok(names) => DatabaseInfoNext::Finish(Ok(database_info(database, policies, names))),
                Err(e) => DatabaseInfoNext::Finish(Err(e)),
            },
        }
    }

    /// The step that asks for the measurements of `database`, with no policies known.
    fn ask_for_none(&self, database: &str) -> (next: DatabaseInfoNext)
        ensures
            asks_for_measurements(next, self.deep_view(), database@, Seq::empty()),
    {
        let none: Vec<RetentionPolicy> = Vec::new();
        proof {
            assert(none.deep_view() =~= Seq::<RetentionPolicyModel>::empty());
        }
        self.ask_for_measurements(database, none)
    }
}

/// The configuration failure for a profile whose configuration cannot be decoded.
fn invalid_config(label: &str, fault: ConfigFault) -> (e: AppError)
    ensures
        e.is(ErrorKind::Config, label@ + fault_text(fault)),
{
    let text = fault.to_string();
    AppError::Config(joined(label, text.as_str()))
}

/// Makes the adapter that `profile` asks for.
///
/// The configuration is decoded by the profile's version, the third version as the second.
/// Where it cannot be decoded, the result is a configuration failure that names the version
/// and the fault, and no adapter is made.
pub fn create_influxdb_service(profile: &ConnectionProfile) -> (r: Result<InfluxDBService, AppError>)
    ensures
        answers(r, service_for(profile.version, profile.config.deep_view())),
{
    match profile.version {
        InfluxDBVersion::V1 => match profile.get_v1_config() {
            Ok(config) => Ok(InfluxDBService::V1(InfluxDBV1Service::new(config))),
            Err(fault) => Err(invalid_config("Invalid v1 config: ", fault)),
        },
        InfluxDBVersion::V2 => match profile.get_v2_config() {
            Ok(config) => Ok(InfluxDBService::V2(InfluxDBV2Service::new(config))),
            Err(fault) => Err(invalid_config("Invalid v2 config: ", fault)),
        },
        InfluxDBVersion::V3 => match profile.get_v2_config() {
            Ok(config) => Ok(InfluxDBService::V2(InfluxDBV2Service::new(config))),
            Err(fault) => Err(invalid_config("Invalid v3 config: ", fault)),
        },
    }
}

/// What an adapter makes of the outcome of a query depends on the query, the outcome and
/// the elapsed time alone: two answers to the same three agree, whichever call gave them
/// and whatever other calls were answered in between.
pub proof fn law_query_depends_on_its_inputs_alone(
    service: ServiceModel,
    query: Seq<char>,
    outcome: OutcomeModel,
    elapsed: u64,
    one: Result<QueryResult, AppError>,
    other: Result<QueryResult, AppError>,
)
    requires
        answers(one, service.query_result(query, outcome, elapsed)),
        answers(other, service.query_result(query, outcome, elapsed)),
    ensures
        one is Ok <==> other is Ok,
        one is Ok ==> one->Ok_0.deep_view() == other->Ok_0.deep_view(),
        one is Err ==> one->Err_0.kind() == other->Err_0.kind() && one->Err_0.detail()
            == other->Err_0.detail(),
{
}

} // verus!
