//! Operations on databases: the statements they need, the names they refuse, and the
//! envelopes they answer with.

use vstd::prelude::*;
use vstd::string::StringExecFns;
use crate::error::{kind_label, AppError, ErrorKind};
use crate::influxdb::{v1_read_request, InfluxDBService, ServiceModel};
use crate::models::{
    ApiResponse, DatabaseInfo, QueryResultModel, RetentionPolicy, RetentionPolicyModel,
    V1ConfigModel,
};
use crate::transport::{HttpOutcome, HttpRequest, RequestModel};
use crate::statement::framed;
use crate::text::same_letter;
use crate::text::{decimal, push_decimal};

verus! {

/// The statement that creates `database`, with the retention policy where one is given.
pub open spec fn create_database_statement(
    database: Seq<char>,
    retention_policy: Option<RetentionPolicyModel>,
) -> Seq<char> {
    match retention_policy {
        Some(rp) => "CREATE DATABASE \""@ + database + "\" WITH DURATION "@ + rp.duration
            + " REPLICATION "@ + decimal(rp.replication as nat) + " NAME \""@ + rp.name + "\""@,
        None => "CREATE DATABASE \""@ + database + "\""@,
    }
}

/// The statement that drops `database`.
pub open spec fn drop_database_statement(database: Seq<char>) -> Seq<char> {
    "DROP DATABASE \""@ + database + "\""@
}

/// Whether `r` is the answer to a request that needs a statement: the statement `text` for
/// a `name` that is not empty, and for an empty one the refusal that reads `refusal`.
pub open spec fn states(
    r: Result<String, ApiResponse<bool>>,
    name: Seq<char>,
    text: Seq<char>,
    refusal: Seq<char>,
) -> bool {
    if name.len() == 0 {
        r matches Err(response) && response.failed_with(Some(false), refusal)
    } else {
        r matches Ok(statement) && statement@ == text
    }
}

/// Whether `r` holds the request that is `needed`, or, where none can be made, the envelope
/// that reports why.
pub open spec fn asks(
    r: Result<HttpRequest, ApiResponse<bool>>,
    needed: Result<RequestModel, (ErrorKind, Seq<char>)>,
) -> bool {
    match needed {
        Ok(request) => r matches Ok(made) && made.deep_view() == request,
        Err((kind, detail)) => r matches Err(response) && response.failed_with(
            Some(false),
            kind_label(kind) + detail,
        ),
    }
}

/// Whether `response` acknowledges a statement that `ended` so: `true` on success, and on
/// failure `false` with the failure as text.
pub open spec fn settles(
    response: ApiResponse<bool>,
    ended: Result<QueryResultModel, (ErrorKind, Seq<char>)>,
) -> bool {
    match ended {
        Ok(_) => response.succeeded_with(true),
        Err((kind, detail)) => response.failed_with(Some(false), kind_label(kind) + detail),
    }
}

/// The request to send for `statement` against `database`, or the envelope that reports
/// why none can be made.
pub fn request_for(service: &InfluxDBService, statement: &str, database: &str) -> (r: Result<
    HttpRequest,
    ApiResponse<bool>,
>)
    ensures
        asks(r, service.deep_view().query_request(statement@, database@)),
{
    match service.query_with_database_request(statement, database) {
        Ok(request) => Ok(request),
        Err(e) => Err(ApiResponse::fail(Some(false), e.to_string())),
    }
}

/// The envelope that acknowledges `statement`, whose request ended in `outcome`.
pub fn settle(service: &InfluxDBService, statement: &str, outcome: HttpOutcome, elapsed: u64) -> (r:
    ApiResponse<bool>)
    ensures
        settles(r, service.deep_view().query_result(statement@, outcome.deep_view(), elapsed)),
{
    ApiResponse::acknowledge(service.query(statement, outcome, elapsed))
}

/// Answers a request for the list of databases with what the adapter found.
pub fn list_databases(found: Result<Vec<String>, AppError>) -> (r: Result<
    ApiResponse<Vec<String>>,
    String,
>)
    ensures
        r matches Ok(response) && response.reports(found, None),
{
    Ok(ApiResponse::from_result(found))
}

/// Answers a request for what is known of a database with what the adapter found.
pub fn get_database_info(found: Result<DatabaseInfo, AppError>) -> (r: Result<
    ApiResponse<DatabaseInfo>,
    String,
>)
    ensures
        r matches Ok(response) && response.reports(found, None),
{
    Ok(ApiResponse::from_result(found))
}

/// The statement to run in order to create `database`, or the refusal of an empty name.
pub fn create_database_query(database: &str, retention_policy: Option<&RetentionPolicy>) -> (r:
    Result<String, ApiResponse<bool>>)
    ensures
        states(
            r,
            database@,
            create_database_statement(database@, retention_policy.deep_view()),
            "Database name cannot be empty"@,
        ),
{
    if database.is_empty() {
        return Err(ApiResponse::refuse("Database name cannot be empty"));
    }
    match retention_policy {
        Some(rp) => {
            let mut statement = framed("CREATE DATABASE \"", database, "\" WITH DURATION ");
            statement.append(rp.duration.as_str());
            statement.append(" REPLICATION ");
            push_decimal(&mut statement, rp.replication as u64);
            statement.append(" NAME \"");
            statement.append(rp.name.as_str());
            statement.append("\"");
            Ok(statement)
        },
        None => Ok(framed("CREATE DATABASE \"", database, "\"")),
    }
}

/// The request that creates `database`, with the retention policy where one is given, or
/// the refusal of an empty name. The request goes to the default database of the service.
pub fn create_database_request(
    service: &InfluxDBService,
    database: &str,
    retention_policy: Option<&RetentionPolicy>,
) -> (r: Result<HttpRequest, ApiResponse<bool>>)
    ensures
        database@.len() == 0 ==> (r matches Err(response) && response.failed_with(
            Some(false),
            "Database name cannot be empty"@,
        )),
        database@.len() > 0 ==> asks(
            r,
            service.deep_view().query_request(
                create_database_statement(database@, retention_policy.deep_view()),
                service.deep_view().default_database(),
            ),
        ),
{
    match create_database_query(database, retention_policy) {
        Err(refusal) => Err(refusal),
        Ok(statement) => request_for(service, statement.as_str(), service.default_database()),
    }
}

/// Answers a request to create `database`, given the outcome of its request. An empty name
/// is refused whatever the outcome.
pub fn create_database(
    service: &InfluxDBService,
    database: &str,
    retention_policy: Option<&RetentionPolicy>,
    outcome: HttpOutcome,
    elapsed: u64,
) -> (r: Result<ApiResponse<bool>, String>)
    ensures
        r is Ok,
        database@.len() == 0 ==> r->Ok_0.failed_with(Some(false), "Database name cannot be empty"@),
        database@.len() > 0 ==> settles(
            r->Ok_0,
            service.deep_view().query_result(
                create_database_statement(database@, retention_policy.deep_view()),
                outcome.deep_view(),
                elapsed,
            ),
        ),
{
    match create_database_query(database, retention_policy) {
        Err(refusal) => Ok(refusal),
        Ok(statement) => Ok(settle(service, statement.as_str(), outcome, elapsed)),
    }
}

/// The statement to run in order to drop `database`, or the refusal of an empty name.
pub fn delete_database_query(database: &str) -> (r: Result<String, ApiResponse<bool>>)
    ensures
        states(
            r,
            database@,
            drop_database_statement(database@),
            "Database name cannot be empty"@,
        ),
{
    if database.is_empty() {
        return Err(ApiResponse::refuse("Database name cannot be empty"));
    }
    Ok(framed("DROP DATABASE \"", database, "\""))
}

/// The request that drops `database`, or the refusal of an empty name. The request goes
/// to the default database of the service.
pub fn delete_database_request(service: &InfluxDBService, database: &str) -> (r: Result<
    HttpRequest,
    ApiResponse<bool>,
>)
    ensures
        database@.len() == 0 ==> (r matches Err(response) && response.failed_with(
            Some(false),
            "Database name cannot be empty"@,
        )),
        database@.len() > 0 ==> asks(
            r,
            service.deep_view().query_request(
                drop_database_statement(database@),
                service.deep_view().default_database(),
            ),
        ),
{
    match delete_database_query(database) {
        Err(refusal) => Err(refusal),
        Ok(statement) => request_for(service, statement.as_str(), service.default_database()),
    }
}

/// Answers a request to drop `database`, given the outcome of its request. An empty name
/// is refused whatever the outcome.
pub fn delete_database(
    service: &InfluxDBService,
    database: &str,
    outcome: HttpOutcome,
    elapsed: u64,
) -> (r: Result<ApiResponse<bool>, String>)
    ensures
        r is Ok,
        database@.len() == 0 ==> r->Ok_0.failed_with(Some(false), "Database name cannot be empty"@),
        database@.len() > 0 ==> settles(
            r->Ok_0,
            service.deep_view().query_result(
                drop_database_statement(database@),
                outcome.deep_view(),
                elapsed,
            ),
        ),
{
    match delete_database_query(database) {
        Err(refusal) => Ok(refusal),
        Ok(statement) => Ok(settle(service, statement.as_str(), outcome, elapsed)),
    }
}

/// The statements that create and drop a database are no insert statements: a legacy
/// service reads with them, against the database that the request names, and writes
/// nothing.
pub proof fn law_database_statements_are_reads(
    config: V1ConfigModel,
    database: Seq<char>,
    retention_policy: Option<RetentionPolicyModel>,
    target: Seq<char>,
)
    ensures
        ServiceModel::V1(config).query_request(
            create_database_statement(database, retention_policy),
            target,
        ) == Ok::<RequestModel, (ErrorKind, Seq<char>)>(
            v1_read_request(config, create_database_statement(database, retention_policy), target),
        ),
        ServiceModel::V1(config).query_request(drop_database_statement(database), target) == Ok::<
            RequestModel,
            (ErrorKind, Seq<char>),
        >(v1_read_request(config, drop_database_statement(database), target)),
{
    reveal_strlit("CREATE DATABASE \"");
    reveal_strlit("DROP DATABASE \"");
    reveal_strlit("INSERT");
    let create = create_database_statement(database, retention_policy);
    let drop = drop_database_statement(database);
    assert(create[0] == 'C');
    assert(drop[0] == 'D');
    assert(!same_letter(create[0], "INSERT"@[0]));
    assert(!same_letter(drop[0], "INSERT"@[0]));
}

} // verus!
