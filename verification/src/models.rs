//! The data that the adapter takes and gives: connection profiles, the tabular result of a
//! query, what is known of a database, and the envelope every operation answers with.

use vstd::prelude::*;
use crate::error::AppError;
use crate::json::{JsonModel, JsonValue};

verus! {

/// The protocol generation of a backend.
#[derive(Debug, Clone, Copy, PartialEq, Eq, Structural)]
pub enum InfluxDBVersion {
    /// The legacy dialect.
    V1,
    /// The newer dialect.
    V2,
    /// Served by the adapter of the newer dialect.
    V3,
}

/// What a connection to a backend of the legacy dialect needs.
#[derive(Debug, Clone)]
pub struct InfluxDBV1Config {
    pub host: String,
    pub port: u16,
    pub database: String,
    pub username: Option<String>,
    pub password: Option<String>,
    pub use_ssl: bool,
    pub timeout: u64,
}

/// What a connection to a backend of the newer dialect needs.
#[derive(Debug, Clone)]
pub struct InfluxDBV2Config {
    pub host: String,
    pub port: u16,
    pub token: String,
    pub org: String,
    pub bucket: Option<String>,
    pub use_ssl: bool,
    pub timeout: u64,
}

/// A connection as the user defined it. `config` is decoded once the version is known.
#[derive(Debug)]
pub struct ConnectionProfile {
    pub id: String,
    pub name: String,
    pub version: InfluxDBVersion,
    pub config: JsonValue,
    pub created_at: u64,
    pub updated_at: u64,
}

/// Where a connection stands.
#[derive(Debug, Clone, Copy, PartialEq, Eq, Structural)]
pub enum ConnectionStatusType {
    Connected,
    Disconnected,
    Connecting,
    Error,
}

/// The state of a connection as it is shown to the user.
#[derive(Debug, Clone)]
pub struct ConnectionStatus {
    pub id: String,
    pub status: ConnectionStatusType,
    pub last_ping: Option<u64>,
    pub error: Option<String>,
    pub backend_connection_id: Option<String>,
}

/// A connection in the flat form, with the fields of both dialects side by side.
#[derive(Debug, Clone)]
pub struct LegacyConnectionConfig {
    pub id: String,
    pub name: String,
    pub host: String,
    pub port: u16,
    pub database: Option<String>,
    pub username: Option<String>,
    pub password: Option<String>,
    pub use_ssl: bool,
    pub timeout: u64,
    pub token: Option<String>,
    pub org: Option<String>,
    pub bucket: Option<String>,
}

/// The envelope of every answer: whether the operation succeeded, its data, and the
/// failure as text.
#[derive(Debug, Clone)]
pub struct ApiResponse<T> {
    pub success: bool,
    pub data: Option<T>,
    pub error: Option<String>,
}

/// A named table of rows that share the columns.
#[derive(Debug)]
pub struct Series {
    pub name: String,
    pub columns: Vec<String>,
    /// The rows in the order received. A row may be shorter or longer than `columns`.
    pub values: Vec<Vec<JsonValue>>,
    /// The tags, each a key and its value.
    pub tags: Option<Vec<(String, String)>>,
}

/// What a query returned, and how long it took in milliseconds.
#[derive(Debug)]
pub struct QueryResult {
    pub series: Vec<Series>,
    pub execution_time: u64,
}

/// How long a database keeps its data, and in how many copies.
#[derive(Debug, Clone)]
pub struct RetentionPolicy {
    pub name: String,
    pub duration: String,
    pub replication: u32,
    pub default: bool,
}

/// A field of a measurement and the type it was declared with.
#[derive(Debug, Clone)]
pub struct FieldKey {
    pub name: String,
    pub field_type: String,
}

/// A measurement with the names of its tags and its fields.
#[derive(Debug, Clone)]
pub struct Measurement {
    pub name: String,
    pub tag_keys: Vec<String>,
    pub field_keys: Vec<FieldKey>,
    pub series_count: u64,
}

/// What is known of a database or bucket.
#[derive(Debug, Clone)]
pub struct DatabaseInfo {
    pub name: String,
    pub retention_policies: Vec<RetentionPolicy>,
    pub measurements: Vec<Measurement>,
    pub series_count: u64,
}

/// The model of an [`InfluxDBV1Config`].
pub struct V1ConfigModel {
    pub host: Seq<char>,
    pub port: u16,
    pub database: Seq<char>,
    pub username: Option<Seq<char>>,
    pub password: Option<Seq<char>>,
    pub use_ssl: bool,
    pub timeout: u64,
}

/// The model of an [`InfluxDBV2Config`].
pub struct V2ConfigModel {
    pub host: Seq<char>,
    pub port: u16,
    pub token: Seq<char>,
    pub org: Seq<char>,
    pub bucket: Option<Seq<char>>,
    pub use_ssl: bool,
    pub timeout: u64,
}

/// The model of a [`Series`].
pub struct SeriesModel {
    pub name: Seq<char>,
    pub columns: Seq<Seq<char>>,
    pub values: Seq<Seq<JsonModel>>,
    pub tags: Option<Seq<(Seq<char>, Seq<char>)>>,
}

/// The model of a [`QueryResult`].
pub struct QueryResultModel {
    pub series: Seq<SeriesModel>,
    pub execution_time: u64,
}

/// The model of a [`RetentionPolicy`].
pub struct RetentionPolicyModel {
    pub name: Seq<char>,
    pub duration: Seq<char>,
    pub replication: u32,
    pub default: bool,
}

/// The model of a [`FieldKey`].
pub struct FieldKeyModel {
    pub name: Seq<char>,
    pub field_type: Seq<char>,
}

/// The model of a [`Measurement`].
pub struct MeasurementModel {
    pub name: Seq<char>,
    pub tag_keys: Seq<Seq<char>>,
    pub field_keys: Seq<FieldKeyModel>,
    pub series_count: u64,
}

/// The model of a [`DatabaseInfo`].
pub struct DatabaseInfoModel {
    pub name: Seq<char>,
    pub retention_policies: Seq<RetentionPolicyModel>,
    pub measurements: Seq<MeasurementModel>,
    pub series_count: u64,
}

impl DeepView for InfluxDBV1Config {
    type V = V1ConfigModel;

    open spec fn deep_view(&self) -> V1ConfigModel {
        V1ConfigModel {
            host: self.host@,
            port: self.port,
            database: self.database@,
            username: self.username.deep_view(),
            password: self.password.deep_view(),
            use_ssl: self.use_ssl,
            timeout: self.timeout,
        }
    }
}

impl DeepView for InfluxDBV2Config {
    type V = V2ConfigModel;

    open spec fn deep_view(&self) -> V2ConfigModel {
        V2ConfigModel {
            host: self.host@,
            port: self.port,
            token: self.token@,
            org: self.org@,
            bucket: self.bucket.deep_view(),
            use_ssl: self.use_ssl,
            timeout: self.timeout,
        }
    }
}

impl DeepView for Series {
    type V = SeriesModel;

    open spec fn deep_view(&self) -> SeriesModel {
        SeriesModel {
            name: self.name@,
            columns: self.columns.deep_view(),
            values: self.values.deep_view(),
            tags: self.tags.deep_view(),
        }
    }
}

impl DeepView for QueryResult {
    type V = QueryResultModel;

    open spec fn deep_view(&self) -> QueryResultModel {
        QueryResultModel {
            series: self.series.deep_view(),
            execution_time: self.execution_time,
        }
    }
}

impl DeepView for RetentionPolicy {
    type V = RetentionPolicyModel;

    open spec fn deep_view(&self) -> RetentionPolicyModel {
        RetentionPolicyModel {
            name: self.name@,
            duration: self.duration@,
            replication: self.replication,
            default: self.default,
        }
    }
}

impl DeepView for FieldKey {
    type V = FieldKeyModel;

    open spec fn deep_view(&self) -> FieldKeyModel {
        FieldKeyModel { name: self.name@, field_type: self.field_type@ }
    }
}

impl DeepView for Measurement {
    type V = MeasurementModel;

    open spec fn deep_view(&self) -> MeasurementModel {
        MeasurementModel {
            name: self.name@,
            tag_keys: self.tag_keys.deep_view(),
            field_keys: self.field_keys.deep_view(),
            series_count: self.series_count,
        }
    }
}

impl DeepView for DatabaseInfo {
    type V = DatabaseInfoModel;

    open spec fn deep_view(&self) -> DatabaseInfoModel {
        DatabaseInfoModel {
            name: self.name@,
            retention_policies: self.retention_policies.deep_view(),
            measurements: self.measurements.deep_view(),
            series_count: self.series_count,
        }
    }
}

impl<T> ApiResponse<T> {
    /// Whether this envelope reports success with `data` and no failure.
    pub open spec fn succeeded_with(self, data: T) -> bool {
        self.success && self.data == Some(data) && self.error is None
    }

    /// Whether this envelope reports a failure that reads `message`, with `data` beside it.
    pub open spec fn failed_with(self, data: Option<T>, message: Seq<char>) -> bool {
        !self.success && self.data == data && (self.error matches Some(e) && e@ == message)
    }

    /// Whether this envelope is the answer to `result`: its value on success, and on failure
    /// the failure as text with `fallback` for data.
    pub open spec fn reports(self, result: Result<T, AppError>, fallback: Option<T>) -> bool {
        match result {
            Ok(value) => self.succeeded_with(value),
            Err(e) => self.failed_with(fallback, e.text()),
        }
    }

    /// The envelope of a success.
    pub fn ok(data: T) -> (r: ApiResponse<T>)
        ensures
            r.succeeded_with(data),
    {
        ApiResponse { success: true, data: Some(data), error: None }
    }

    /// The envelope of a failure that reads `message`, with `data` beside it.
    pub fn fail(data: Option<T>, message: String) -> (r: ApiResponse<T>)
        ensures
            r.failed_with(data, message@),
    {
        ApiResponse { success: false, data, error: Some(message) }
    }

    /// The envelope that answers with `result`: its value, or its failure as text and no
    /// data.
    pub fn from_result(result: Result<T, AppError>) -> (r: ApiResponse<T>)
        ensures
            r.reports(result, None),
    {
        match result {
            Ok(value) => ApiResponse::ok(value),
            Err(e) => ApiResponse::fail(None, e.to_string()),
        }
    }
}

impl<T: DeepView> ApiResponse<T> {
    /// Whether this envelope reports success with data whose model is `model`.
    pub open spec fn carries(self, model: T::V) -> bool {
        self.success && self.error is None && (self.data matches Some(d) && d.deep_view() == model)
    }
}

impl ApiResponse<bool> {
    /// Whether this envelope acknowledges an operation that ended in `result`: `true` on
    /// success, and on failure `false` with the failure as text.
    pub open spec fn acknowledges<U>(self, result: Result<U, AppError>) -> bool {
        match result {
            Ok(_) => self.succeeded_with(true),
            Err(e) => self.failed_with(Some(false), e.text()),
        }
    }

    /// The envelope that refuses an operation for the reason `message`.
    pub fn refuse(message: &str) -> (r: ApiResponse<bool>)
        ensures
            r.failed_with(Some(false), message@),
    {
        ApiResponse::fail(Some(false), message.to_owned())
    }

    /// The envelope that acknowledges an operation that ended in `result`.
    pub fn acknowledge<U>(result: Result<U, AppError>) -> (r: ApiResponse<bool>)
        ensures
            r.acknowledges(result),
    {
        match result {
            Ok(_) => ApiResponse::ok(true),
            Err(e) => ApiResponse::fail(Some(false), e.to_string()),
        }
    }
}

} // verus!
