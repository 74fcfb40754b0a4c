//! The connection registry and what the caller-facing operations decide: which connection
//! an operation runs on, and how its end is reported.

use vstd::prelude::*;
use vstd::hash_map::StringHashMap;
use vstd::string::StringExecFns;
use crate::error::AppError;
use crate::influxdb::{create_influxdb_service, ping_result, service_for, InfluxDBService};
use crate::models::{ApiResponse, ConnectionProfile, DatabaseInfo, Measurement, QueryResult};
use crate::statement::joined;
use crate::transport::{HttpOutcome, HttpRequest};

verus! {

/// The registry of live connections: for each connection id at most one handle.
#[verifier::reject_recursive_types(S)]
pub struct ConnectionMap<S> {
    connections: StringHashMap<S>,
}

impl<S> View for ConnectionMap<S> {
    type V = Map<Seq<char>, S>;

    closed spec fn view(&self) -> Map<Seq<char>, S> {
        self.connections@
    }
}

/// How the report that a connection is not known reads.
pub open spec fn connection_not_found() -> Seq<char> {
    "Connection not found"@
}

/// How the outcome of a ping is reported to the user who tests a connection.
pub open spec fn test_report(
    response: ApiResponse<bool>,
    pinged: Result<bool, (crate::error::ErrorKind, Seq<char>)>,
) -> bool {
    match pinged {
        Ok(true) => response.succeeded_with(true),
        Ok(false) => response.failed_with(Some(false), "Server not responding"@),
        Err((kind, detail)) => response.failed_with(
            Some(false),
            "Ping failed: "@ + crate::error::kind_label(kind) + detail,
        ),
    }
}

impl<S> ConnectionMap<S> {
    /// A registry without connections.
    pub fn new() -> (r: Self)
        ensures
            r@ == Map::<Seq<char>, S>::empty(),
    {
        ConnectionMap { connections: StringHashMap::new() }
    }

    /// Registers `handle` under `id`. A handle that was there before is replaced.
    pub fn insert(&mut self, id: String, handle: S)
        ensures
            final(self)@ == old(self)@.insert(id@, handle),
    {
        self.connections.insert(id, handle);
    }

    /// The handle registered under `id`, where there is one. The handle is lent, not
    /// copied.
    pub fn lookup(&self, id: &str) -> (r: Option<&S>)
        ensures
            match r {
                Some(handle) => self@.contains_key(id@) && *handle == self@[id@],
                None => !self@.contains_key(id@),
            },
    {
        self.connections.get(id)
    }

    /// Takes the connection `id` out of the registry and tells whether it was there. The
    /// other connections stay as they are.
    pub fn remove(&mut self, id: &str) -> (was_there: bool)
        ensures
            was_there == old(self)@.contains_key(id@),
            final(self)@ == old(self)@.remove(id@),
    {
        let was_there = self.connections.contains_key(id);
        self.connections.remove(id);
        was_there
    }

    /// The number of live connections.
    pub fn len(&self) -> (n: usize)
        ensures
            n == self@.len(),
    {
        self.connections.len()
    }
}

/// Whether `r` is the answer to the question which connection an operation runs on: the
/// handle registered under `connection_id`, or, for an id that is not registered, the
/// failure that reads `Connection not found` and holds no data.
pub open spec fn finds<S, T>(
    r: Result<&S, ApiResponse<T>>,
    connection_id: Seq<char>,
    registry: Map<Seq<char>, S>,
) -> bool {
    match r {
        Ok(handle) => registry.contains_key(connection_id) && *handle == registry[connection_id],
        Err(response) => !registry.contains_key(connection_id) && response.failed_with(
            None,
            connection_not_found(),
        ),
    }
}

/// Finds the connection that an operation is to run on.
///
/// An id that is not registered is answered with a failure envelope that reads
/// `Connection not found` and holds no data; it is never a fault.
pub fn find_connection<'a, S, T>(connection_id: &str, connections: &'a ConnectionMap<S>) -> (r:
    Result<&'a S, ApiResponse<T>>)
    ensures
        finds(r, connection_id@, connections@),
{
    match connections.lookup(connection_id) {
        Some(handle) => Ok(handle),
        None => Err(ApiResponse::fail(None, String::from_str("Connection not found"))),
    }
}

/// The connection to list the databases of, or the answer for an unknown id.
pub fn get_databases<'a, S>(connection_id: &str, connections: &'a ConnectionMap<S>) -> (r: Result<
    &'a S,
    ApiResponse<Vec<String>>,
>)
    ensures
        finds(r, connection_id@, connections@),
{
    find_connection(connection_id, connections)
}

/// The connection to ask about a database, or the answer for an unknown id.
pub fn get_database_info<'a, S>(connection_id: &str, connections: &'a ConnectionMap<S>) -> (r:
    Result<&'a S, ApiResponse<DatabaseInfo>>)
    ensures
        finds(r, connection_id@, connections@),
{
    find_connection(connection_id, connections)
}

/// The connection to run a query on, or the answer for an unknown id.
pub fn execute_query<'a, S>(connection_id: &str, connections: &'a ConnectionMap<S>) -> (r: Result<
    &'a S,
    ApiResponse<QueryResult>,
>)
    ensures
        finds(r, connection_id@, connections@),
{
    find_connection(connection_id, connections)
}

/// The connection to create a database on, or the answer for an unknown id.
pub fn create_database<'a, S>(connection_id: &str, connections: &'a ConnectionMap<S>) -> (r: Result<
    &'a S,
    ApiResponse<bool>,
>)
    ensures
        finds(r, connection_id@, connections@),
{
    find_connection(connection_id, connections)
}

/// The connection to drop a database on, or the answer for an unknown id.
pub fn drop_database<'a, S>(connection_id: &str, connections: &'a ConnectionMap<S>) -> (r: Result<
    &'a S,
    ApiResponse<bool>,
>)
    ensures
        finds(r, connection_id@, connections@),
{
    find_connection(connection_id, connections)
}

/// The connection to list the measurements of, or the answer for an unknown id.
pub fn get_measurements<'a, S>(connection_id: &str, connections: &'a ConnectionMap<S>) -> (r:
    Result<&'a S, ApiResponse<Vec<String>>>)
    ensures
        finds(r, connection_id@, connections@),
{
    find_connection(connection_id, connections)
}

/// The connection to create a measurement on, or the answer for an unknown id.
pub fn create_measurement<'a, S>(connection_id: &str, connections: &'a ConnectionMap<S>) -> (r:
    Result<&'a S, ApiResponse<bool>>)
    ensures
        finds(r, connection_id@, connections@),
{
    find_connection(connection_id, connections)
}

/// The connection to ask about a measurement, or the answer for an unknown id.
pub fn get_measurement_info<'a, S>(connection_id: &str, connections: &'a ConnectionMap<S>) -> (r:
    Result<&'a S, ApiResponse<Measurement>>)
    ensures
        finds(r, connection_id@, connections@),
{
    find_connection(connection_id, connections)
}

/// The connection to drop a measurement on, or the answer for an unknown id.
pub fn delete_measurement<'a, S>(connection_id: &str, connections: &'a ConnectionMap<S>) -> (r:
    Result<&'a S, ApiResponse<bool>>)
    ensures
        finds(r, connection_id@, connections@),
{
    find_connection(connection_id, connections)
}

/// Makes the adapter for a connection test and the request that pings its server, or
/// reports why no adapter could be made.
pub fn test_connection_request(profile: &ConnectionProfile) -> (r: Result<
    (InfluxDBService, HttpRequest),
    ApiResponse<bool>,
>)
    ensures
        match service_for(profile.version, profile.config.deep_view()) {
            Ok(model) => r matches Ok((service, request)) && service.deep_view() == model
                && request.deep_view() == model.ping_request(),
            Err((kind, detail)) => r matches Err(response) && response.failed_with(
                Some(false),
                "Failed to create service: "@ + crate::error::kind_label(kind) + detail,
            ),
        },
{
    match create_influxdb_service(profile) {
        Ok(service) => {
            let request = service.ping_request();
            Ok((service, request))
        },
        Err(e) => {
            let text = e.to_string();
            proof {
                assert("Failed to create service: "@ + e.text() =~= "Failed to create service: "@
                    + crate::error::kind_label(e.kind()) + e.detail());
            }
            Err(ApiResponse::fail(Some(false), joined("Failed to create service: ", text.as_str())))
        },
    }
}

/// Reports the outcome of the ping of a connection test.
pub fn test_connection(service: &InfluxDBService, outcome: HttpOutcome) -> (r: Result<
    ApiResponse<bool>,
    String,
>)
    ensures
        r matches Ok(response) && test_report(response, ping_result(outcome.deep_view())),
{
    match service.ping(outcome) {
        Ok(true) => Ok(ApiResponse::ok(true)),
        Ok(false) => Ok(ApiResponse::refuse("Server not responding")),
        Err(e) => {
            let text = e.to_string();
            proof {
                assert("Ping failed: "@ + e.text() =~= "Ping failed: "@ + crate::error::kind_label(
                    e.kind(),
                ) + e.detail());
            }
            Ok(ApiResponse::fail(Some(false), joined("Ping failed: ", text.as_str())))
        },
    }
}

/// Registers the connection that was just made for `profile`, or reports why none was made.
///
/// The id of a connection is the id of its profile. A handle is registered under it, in
/// place of any that was there, and the id is the answer. A failure to make the handle
/// leaves the registry as it was.
pub fn connect_to_database<S>(
    profile: &ConnectionProfile,
    created: Result<S, AppError>,
    connections: &mut ConnectionMap<S>,
) -> (r: Result<ApiResponse<String>, String>)
    ensures
        r is Ok,
        match created {
            Ok(handle) => final(connections)@ == old(connections)@.insert(profile.id@, handle)
                && r->Ok_0.carries(profile.id@),
            Err(e) => final(connections)@ == old(connections)@ && r->Ok_0.failed_with(
                None,
                e.text(),
            ),
        },
{
    match created {
        Ok(handle) => {
            connections.insert(profile.id.clone(), handle);
            Ok(ApiResponse::ok(profile.id.clone()))
        },
        Err(e) => Ok(ApiResponse::fail(None, e.to_string())),
    }
}

/// Takes a connection out of the registry.
///
/// Answers `true` where the connection was there. An id that is not registered is answered
/// with the failure that reads `Connection not found`, beside `false`, and the registry
/// stays as it was.
pub fn disconnect_from_database<S>(connection_id: &str, connections: &mut ConnectionMap<S>) -> (r:
    Result<ApiResponse<bool>, String>)
    ensures
        final(connections)@ == old(connections)@.remove(connection_id@),
        r is Ok,
        if old(connections)@.contains_key(connection_id@) {
            r->Ok_0.succeeded_with(true)
        } else {
            r->Ok_0.failed_with(Some(false), connection_not_found())
        },
{
    if connections.remove(connection_id) {
        Ok(ApiResponse::ok(true))
    } else {
        Ok(ApiResponse::refuse("Connection not found"))
    }
}

/// Answers a request to run a query with what the adapter returned.
pub fn query_response(returned: Result<QueryResult, AppError>) -> (r: Result<
    ApiResponse<QueryResult>,
    String,
>)
    ensures
        r matches Ok(response) && response.reports(returned, None),
{
    Ok(ApiResponse::from_result(returned))
}

/// Answers a request for the version of the application.
pub fn get_app_version(version: String) -> (r: Result<ApiResponse<String>, String>)
    ensures
        r matches Ok(response) && response.succeeded_with(version),
{
    Ok(ApiResponse::ok(version))
}

/// A second registration under an id replaces the first: after `insert(id, a)` and then
/// `insert(id, b)` the registry is as if only `b` had been registered, and `lookup(id)`
/// finds `b`.
pub proof fn law_insert_overwrites<S>(registry: Map<Seq<char>, S>, id: Seq<char>, a: S, b: S)
    ensures
        registry.insert(id, a).insert(id, b) == registry.insert(id, b),
        registry.insert(id, a).insert(id, b).contains_key(id),
        registry.insert(id, a).insert(id, b)[id] == b,
{
    assert(registry.insert(id, a).insert(id, b) =~= registry.insert(id, b));
}

/// After `remove(id)` the id is not found, whether it was registered or not, and every
/// other connection is found as before.
pub proof fn law_remove_forgets<S>(registry: Map<Seq<char>, S>, id: Seq<char>, other: Seq<char>)
    ensures
        !registry.remove(id).contains_key(id),
        other != id ==> (registry.remove(id).contains_key(other) <==> registry.contains_key(other)),
        other != id && registry.contains_key(other) ==> registry.remove(id)[other]
            == registry[other],
{
}

/// Removing an id that is not registered changes nothing; `remove` then answers `false`.
pub proof fn law_remove_absent<S>(registry: Map<Seq<char>, S>, id: Seq<char>)
    requires
        !registry.contains_key(id),
    ensures
        registry.remove(id) == registry,
{
    assert(registry.remove(id) =~= registry);
}

} // verus!
