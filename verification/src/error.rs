//! The failures that the adapter reports, and how they read as text.

use vstd::prelude::*;
use vstd::string::StringExecFns;

verus! {

/// A failure of the adapter. Each variant carries the detail as text.
#[derive(Debug)]
pub enum AppError {
    /// The transport could not reach the server, or the server answered a ping with a failure.
    Network(String),
    /// The database refused the connection.
    Database(String),
    /// The backend rejected a query.
    Query(String),
    /// A connection profile does not hold what its version needs.
    Config(String),
    /// A value could not be written as, or read from, its serial form.
    Serialization(String),
    /// A file could not be read or written.
    FileSystem(String),
    /// The caller lacks a permission.
    Permission(String),
    /// A request took longer than the profile allows.
    Timeout(String),
    /// Any failure the other variants do not name.
    Generic(String),
    /// A response body does not have the expected shape.
    Parse(String),
    /// The credentials were refused.
    Auth(String),
    /// A connection or an entity is not known.
    NotFound(String),
    /// A statement or a name given by the caller is malformed.
    Validation(String),
}

/// Which variant of [`AppError`] a failure is.
#[derive(Clone, Copy, Debug, PartialEq, Eq, Structural)]
pub enum ErrorKind {
    Network,
    Database,
    Query,
    Config,
    Serialization,
    FileSystem,
    Permission,
    Timeout,
    Generic,
    Parse,
    Auth,
    NotFound,
    Validation,
}

/// What the transport reports when a request fails before any response arrives.
#[derive(Debug)]
pub struct TransportFailure {
    /// The request ran out of time.
    pub timeout: bool,
    /// The connection could not be made.
    pub connect: bool,
    /// The transport's own description of the failure.
    pub message: String,
}

/// The model of a [`TransportFailure`].
pub struct FailureModel {
    pub timeout: bool,
    pub connect: bool,
    pub message: Seq<char>,
}

impl DeepView for TransportFailure {
    type V = FailureModel;

    open spec fn deep_view(&self) -> FailureModel {
        FailureModel { timeout: self.timeout, connect: self.connect, message: self.message@ }
    }
}

/// What a request that brought no response, or whose body could not be read, is reported
/// as: a timeout where the request ran out of time, and a network failure otherwise, each
/// with the transport's description.
pub open spec fn unanswered(failure: FailureModel) -> (ErrorKind, Seq<char>) {
    if failure.timeout {
        (ErrorKind::Timeout, failure.message)
    } else {
        (ErrorKind::Network, failure.message)
    }
}

/// The words that introduce a failure of the given kind.
pub open spec fn kind_label(kind: ErrorKind) -> Seq<char> {
    match kind {
        ErrorKind::Network => "Network error: "@,
        ErrorKind::Database => "Database error: "@,
        ErrorKind::Query => "Query error: "@,
        ErrorKind::Config => "Configuration error: "@,
        ErrorKind::Serialization => "Serialization error: "@,
        ErrorKind::FileSystem => "File system error: "@,
        ErrorKind::Permission => "Permission error: "@,
        ErrorKind::Timeout => "Timeout error: "@,
        ErrorKind::Generic => "Generic error: "@,
        ErrorKind::Parse => "Parse error: "@,
        ErrorKind::Auth => "Authentication error: "@,
        ErrorKind::NotFound => "Not found: "@,
        ErrorKind::Validation => "Validation error: "@,
    }
}

/// Whether `r` is what `expected` asks for: a value with the expected model, or a failure of
/// the expected kind with the expected detail.
pub open spec fn answers<T: DeepView>(
    r: Result<T, AppError>,
    expected: Result<T::V, (ErrorKind, Seq<char>)>,
) -> bool {
    match expected {
        Ok(model) => r matches Ok(value) && value.deep_view() == model,
        Err((kind, detail)) => r matches Err(e) && e.is(kind, detail),
    }
}

impl AppError {
    /// The variant of this failure.
    pub open spec fn kind(&self) -> ErrorKind {
        match self {
            AppError::Network(_) => ErrorKind::Network,
            AppError::Database(_) => ErrorKind::Database,
            AppError::Query(_) => ErrorKind::Query,
            AppError::Config(_) => ErrorKind::Config,
            AppError::Serialization(_) => ErrorKind::Serialization,
            AppError::FileSystem(_) => ErrorKind::FileSystem,
            AppError::Permission(_) => ErrorKind::Permission,
            AppError::Timeout(_) => ErrorKind::Timeout,
            AppError::Generic(_) => ErrorKind::Generic,
            AppError::Parse(_) => ErrorKind::Parse,
            AppError::Auth(_) => ErrorKind::Auth,
            AppError::NotFound(_) => ErrorKind::NotFound,
            AppError::Validation(_) => ErrorKind::Validation,
        }
    }

    /// The detail that this failure carries.
    pub open spec fn detail(&self) -> Seq<char> {
        match self {
            AppError::Network(m) => m@,
            AppError::Database(m) => m@,
            AppError::Query(m) => m@,
            AppError::Config(m) => m@,
            AppError::Serialization(m) => m@,
            AppError::FileSystem(m) => m@,
            AppError::Permission(m) => m@,
            AppError::Timeout(m) => m@,
            AppError::Generic(m) => m@,
            AppError::Parse(m) => m@,
            AppError::Auth(m) => m@,
            AppError::NotFound(m) => m@,
            AppError::Validation(m) => m@,
        }
    }

    /// Whether this failure is of `kind` and carries `detail`.
    pub open spec fn is(&self, kind: ErrorKind, detail: Seq<char>) -> bool {
        self.kind() == kind && self.detail() == detail
    }

    /// How this failure reads: the words for its kind, then its detail.
    pub open spec fn text(&self) -> Seq<char> {
        kind_label(self.kind()) + self.detail()
    }

    /// The failure of the given kind with the given detail.
    pub fn new(kind: ErrorKind, detail: String) -> (e: AppError)
        ensures
            e.is(kind, detail@),
    {
        match kind {
            ErrorKind::Network => AppError::Network(detail),
            ErrorKind::Database => AppError::Database(detail),
            ErrorKind::Query => AppError::Query(detail),
            ErrorKind::Config => AppError::Config(detail),
            ErrorKind::Serialization => AppError::Serialization(detail),
            ErrorKind::FileSystem => AppError::FileSystem(detail),
            ErrorKind::Permission => AppError::Permission(detail),
            ErrorKind::Timeout => AppError::Timeout(detail),
            ErrorKind::Generic => AppError::Generic(detail),
            ErrorKind::Parse => AppError::Parse(detail),
            ErrorKind::Auth => AppError::Auth(detail),
            ErrorKind::NotFound => AppError::NotFound(detail),
            ErrorKind::Validation => AppError::Validation(detail),
        }
    }

    /// The failure that a request without an answer is reported as: a timeout where the
    /// request ran out of time, a network failure otherwise.
    pub fn unanswered(failure: TransportFailure) -> (e: AppError)
        ensures
            e.is(unanswered(failure.deep_view()).0, unanswered(failure.deep_view()).1),
    {
        if failure.timeout {
            AppError::Timeout(failure.message)
        } else {
            AppError::Network(failure.message)
        }
    }

    /// The variant of this failure.
    pub fn error_kind(&self) -> (k: ErrorKind)
        ensures
            k == self.kind(),
    {
        match self {
            AppError::Network(_) => ErrorKind::Network,
            AppError::Database(_) => ErrorKind::Database,
            AppError::Query(_) => ErrorKind::Query,
            AppError::Config(_) => ErrorKind::Config,
            AppError::Serialization(_) => ErrorKind::Serialization,
            AppError::FileSystem(_) => ErrorKind::FileSystem,
            AppError::Permission(_) => ErrorKind::Permission,
            AppError::Timeout(_) => ErrorKind::Timeout,
            AppError::Generic(_) => ErrorKind::Generic,
            AppError::Parse(_) => ErrorKind::Parse,
            AppError::Auth(_) => ErrorKind::Auth,
            AppError::NotFound(_) => ErrorKind::NotFound,
            AppError::Validation(_) => ErrorKind::Validation,
        }
    }

    /// The detail that this failure carries.
    pub fn message(&self) -> (m: &str)
        ensures
            m@ == self.detail(),
    {
        match self {
            AppError::Network(m) => m.as_str(),
            AppError::Database(m) => m.as_str(),
            AppError::Query(m) => m.as_str(),
            AppError::Config(m) => m.as_str(),
            AppError::Serialization(m) => m.as_str(),
            AppError::FileSystem(m) => m.as_str(),
            AppError::Permission(m) => m.as_str(),
            AppError::Timeout(m) => m.as_str(),
            AppError::Generic(m) => m.as_str(),
            AppError::Parse(m) => m.as_str(),
            AppError::Auth(m) => m.as_str(),
            AppError::NotFound(m) => m.as_str(),
            AppError::Validation(m) => m.as_str(),
        }
    }

    /// Writes this failure as text: the words for its kind, then its detail.
    pub fn to_string(&self) -> (r: String)
        ensures
            r@ == self.text(),
    {
        let label = match self {
            AppError::Network(_) => "Network error: ",
            AppError::Database(_) => "Database error: ",
            AppError::Query(_) => "Query error: ",
            AppError::Config(_) => "Configuration error: ",
            AppError::Serialization(_) => "Serialization error: ",
            AppError::FileSystem(_) => "File system error: ",
            AppError::Permission(_) => "Permission error: ",
            AppError::Timeout(_) => "Timeout error: ",
            AppError::Generic(_) => "Generic error: ",
            AppError::Parse(_) => "Parse error: ",
            AppError::Auth(_) => "Authentication error: ",
            AppError::NotFound(_) => "Not found: ",
            AppError::Validation(_) => "Validation error: ",
        };
        let mut r = String::from_str(label);
        r.append(self.message());
        r
    }
}

impl From<TransportFailure> for AppError {
    /// A request that ran out of time is a timeout, one that could not connect a network
    /// failure, and any other a generic failure; each keeps the transport's description.
    fn from(err: TransportFailure) -> (r: AppError) {
        if err.timeout {
            AppError::Timeout(err.message)
        } else if err.connect {
            AppError::Network(err.message)
        } else {
            AppError::Generic(err.message)
        }
    }
}

impl vstd::std_specs::convert::FromSpecImpl<TransportFailure> for AppError {
    open spec fn obeys_from_spec() -> bool {
        true
    }

    open spec fn from_spec(err: TransportFailure) -> AppError {
        if err.timeout {
            AppError::Timeout(err.message)
        } else if err.connect {
            AppError::Network(err.message)
        } else {
            AppError::Generic(err.message)
        }
    }
}

} // verus!
