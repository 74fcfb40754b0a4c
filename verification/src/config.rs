//! Decoding a profile's configuration once its version is known, and the address that a
//! configuration leads to.

use vstd::prelude::*;
use vstd::string::StringExecFns;
use crate::json::{JsonModel, JsonValue};
use crate::models::{
    ConnectionProfile, InfluxDBV1Config, InfluxDBV2Config, InfluxDBVersion, V1ConfigModel,
    V2ConfigModel,
};
use crate::text::{decimal, push_decimal};

verus! {

/// A field of a configuration.
#[derive(Debug, Clone, Copy, PartialEq, Eq, Structural)]
pub enum ConfigField {
    Host,
    Port,
    Database,
    Username,
    Password,
    UseSsl,
    Timeout,
    Token,
    Org,
    Bucket,
}

/// Why a configuration cannot be decoded.
#[derive(Debug, Clone, Copy, PartialEq, Eq, Structural)]
pub enum ConfigFault {
    /// The configuration is no object.
    NotAnObject,
    /// A field that must be there is not.
    Missing(ConfigField),
    /// A field holds a value of the wrong type or out of range.
    Malformed(ConfigField),
}

/// The key under which a configuration holds `field`.
pub open spec fn field_name(field: ConfigField) -> Seq<char> {
    match field {
        ConfigField::Host => "host"@,
        ConfigField::Port => "port"@,
        ConfigField::Database => "database"@,
        ConfigField::Username => "username"@,
        ConfigField::Password => "password"@,
        ConfigField::UseSsl => "useSsl"@,
        ConfigField::Timeout => "timeout"@,
        ConfigField::Token => "token"@,
        ConfigField::Org => "org"@,
        ConfigField::Bucket => "bucket"@,
    }
}

/// How a fault reads.
pub open spec fn fault_text(fault: ConfigFault) -> Seq<char> {
    match fault {
        ConfigFault::NotAnObject => "invalid type: expected an object"@,
        ConfigFault::Missing(field) => "missing field `"@ + field_name(field) + "`"@,
        ConfigFault::Malformed(field) => "invalid value for field `"@ + field_name(field) + "`"@,
    }
}

/// The text under `field`, which must be there and be a string.
pub open spec fn required_text(config: JsonModel, field: ConfigField) -> Result<
    Seq<char>,
    ConfigFault,
> {
    match config.get(field_name(field)) {
        None => Err(ConfigFault::Missing(field)),
        Some(v) => match v.as_str() {
            Some(s) => Ok(s),
            None => Err(ConfigFault::Malformed(field)),
        },
    }
}

/// The text under `field`, which may be left out or be null, and is a string otherwise.
pub open spec fn optional_text(config: JsonModel, field: ConfigField) -> Result<
    Option<Seq<char>>,
    ConfigFault,
> {
    match config.get(field_name(field)) {
        None => Ok(None),
        Some(JsonModel::Null) => Ok(None),
        Some(v) => match v.as_str() {
            Some(s) => Ok(Some(s)),
            None => Err(ConfigFault::Malformed(field)),
        },
    }
}

/// The count under `field`, which must be there and be a non-negative integer.
pub open spec fn required_count(config: JsonModel, field: ConfigField) -> Result<
    u64,
    ConfigFault,
> {
    match config.get(field_name(field)) {
        None => Err(ConfigFault::Missing(field)),
        Some(v) => match v.as_u64() {
            Some(n) => Ok(n),
            None => Err(ConfigFault::Malformed(field)),
        },
    }
}

/// The port under `field`, which must be there and be an integer from 0 to 65535.
pub open spec fn required_port(config: JsonModel, field: ConfigField) -> Result<u16, ConfigFault> {
    match required_count(config, field) {
        Err(fault) => Err(fault),
        Ok(n) => if n <= 0xffff {
            Ok(n as u16)
        } else {
            Err(ConfigFault::Malformed(field))
        },
    }
}

/// The flag under `field`, which must be there and be a boolean.
pub open spec fn required_flag(config: JsonModel, field: ConfigField) -> Result<
    bool,
    ConfigFault,
> {
    match config.get(field_name(field)) {
        None => Err(ConfigFault::Missing(field)),
        Some(v) => match v.as_bool() {
            Some(b) => Ok(b),
            None => Err(ConfigFault::Malformed(field)),
        },
    }
}

/// The first fault among the fields of a legacy configuration, taken in the order host,
/// port, database, user, password, TLS flag, timeout.
pub open spec fn v1_config_fault(config: JsonModel) -> Option<ConfigFault> {
    if !(config is Object) {
        Some(ConfigFault::NotAnObject)
    } else if required_text(config, ConfigField::Host) is Err {
        Some(required_text(config, ConfigField::Host)->Err_0)
    } else if required_port(config, ConfigField::Port) is Err {
        Some(required_port(config, ConfigField::Port)->Err_0)
    } else if required_text(config, ConfigField::Database) is Err {
        Some(required_text(config, ConfigField::Database)->Err_0)
    } else if optional_text(config, ConfigField::Username) is Err {
        Some(optional_text(config, ConfigField::Username)->Err_0)
    } else if optional_text(config, ConfigField::Password) is Err {
        Some(optional_text(config, ConfigField::Password)->Err_0)
    } else if required_flag(config, ConfigField::UseSsl) is Err {
        Some(required_flag(config, ConfigField::UseSsl)->Err_0)
    } else if required_count(config, ConfigField::Timeout) is Err {
        Some(required_count(config, ConfigField::Timeout)->Err_0)
    } else {
        None
    }
}

/// What `config` decodes to as a legacy configuration: its fields, or the first fault.
/// Entries that the configuration does not know are passed over.
pub open spec fn v1_config_of(config: JsonModel) -> Result<V1ConfigModel, ConfigFault> {
    match v1_config_fault(config) {
        Some(fault) => Err(fault),
        None => Ok(
            V1ConfigModel {
                host: required_text(config, ConfigField::Host)->Ok_0,
                port: required_port(config, ConfigField::Port)->Ok_0,
                database: required_text(config, ConfigField::Database)->Ok_0,
                username: optional_text(config, ConfigField::Username)->Ok_0,
                password: optional_text(config, ConfigField::Password)->Ok_0,
                use_ssl: required_flag(config, ConfigField::UseSsl)->Ok_0,
                timeout: required_count(config, ConfigField::Timeout)->Ok_0,
            },
        ),
    }
}

/// The first fault among the fields of a configuration of the newer dialect, taken in the
/// order host, port, token, organization, bucket, TLS flag, timeout.
pub open spec fn v2_config_fault(config: JsonModel) -> Option<ConfigFault> {
    if !(config is Object) {
        Some(ConfigFault::NotAnObject)
    } else if required_text(config, ConfigField::Host) is Err {
        Some(required_text(config, ConfigField::Host)->Err_0)
    } else if required_port(config, ConfigField::Port) is Err {
        Some(required_port(config, ConfigField::Port)->Err_0)
    } else if required_text(config, ConfigField::Token) is Err {
        Some(required_text(config, ConfigField::Token)->Err_0)
    } else if required_text(config, ConfigField::Org) is Err {
        Some(required_text(config, ConfigField::Org)->Err_0)
    } else if optional_text(config, ConfigField::Bucket) is Err {
        Some(optional_text(config, ConfigField::Bucket)->Err_0)
    } else if required_flag(config, ConfigField::UseSsl) is Err {
        Some(required_flag(config, ConfigField::UseSsl)->Err_0)
    } else if required_count(config, ConfigField::Timeout) is Err {
        Some(required_count(config, ConfigField::Timeout)->Err_0)
    } else {
        None
    }
}

/// What `config` decodes to as a configuration of the newer dialect: its fields, or the
/// first fault. Entries that the configuration does not know are passed over.
pub open spec fn v2_config_of(config: JsonModel) -> Result<V2ConfigModel, ConfigFault> {
    match v2_config_fault(config) {
        Some(fault) => Err(fault),
        None => Ok(
            V2ConfigModel {
                host: required_text(config, ConfigField::Host)->Ok_0,
                port: required_port(config, ConfigField::Port)->Ok_0,
                token: required_text(config, ConfigField::Token)->Ok_0,
                org: required_text(config, ConfigField::Org)->Ok_0,
                bucket: optional_text(config, ConfigField::Bucket)->Ok_0,
                use_ssl: required_flag(config, ConfigField::UseSsl)->Ok_0,
                timeout: required_count(config, ConfigField::Timeout)->Ok_0,
            },
        ),
    }
}

/// The address of a server: the scheme by the TLS flag, the host, and the port.
pub open spec fn base_url_of(use_ssl: bool, host: Seq<char>, port: u16) -> Seq<char> {
    (if use_ssl {
        "https"@
    } else {
        "http"@
    }) + "://"@ + host + ":"@ + decimal(port as nat)
}

/// The address that the configuration of a profile leads to, read by the profile's version.
pub open spec fn connection_url_of(version: InfluxDBVersion, config: JsonModel) -> Result<
    Seq<char>,
    ConfigFault,
> {
    match version {
        InfluxDBVersion::V1 => match v1_config_of(config) {
            Ok(c) => Ok(base_url_of(c.use_ssl, c.host, c.port)),
            Err(fault) => Err(fault),
        },
        _ => match v2_config_of(config) {
            Ok(c) => Ok(base_url_of(c.use_ssl, c.host, c.port)),
            Err(fault) => Err(fault),
        },
    }
}

/// The key under which a configuration holds `field`.
fn key_of(field: ConfigField) -> (r: &'static str)
    ensures
        r@ == field_name(field),
{
    match field {
        ConfigField::Host => "host",
        ConfigField::Port => "port",
        ConfigField::Database => "database",
        ConfigField::Username => "username",
        ConfigField::Password => "password",
        ConfigField::UseSsl => "useSsl",
        ConfigField::Timeout => "timeout",
        ConfigField::Token => "token",
        ConfigField::Org => "org",
        ConfigField::Bucket => "bucket",
    }
}

fn read_text(config: &JsonValue, field: ConfigField) -> (r: Result<String, ConfigFault>)
    ensures
        match required_text(config.deep_view(), field) {
            Ok(s) => r matches Ok(t) && t@ == s,
            Err(fault) => r == Err::<String, ConfigFault>(fault),
        },
{
    match config.get(key_of(field)) {
        None => Err(ConfigFault::Missing(field)),
        Some(v) => match v.as_str() {
            Some(s) => Ok(s.to_owned()),
            None => Err(ConfigFault::Malformed(field)),
        },
    }
}

fn read_optional_text(config: &JsonValue, field: ConfigField) -> (r: Result<
    Option<String>,
    ConfigFault,
>)
    ensures
        match optional_text(config.deep_view(), field) {
            Ok(s) => r matches Ok(t) && t.deep_view() == s,
            Err(fault) => r == Err::<Option<String>, ConfigFault>(fault),
        },
{
    match config.get(key_of(field)) {
        None => Ok(None),
        Some(JsonValue::Null) => Ok(None),
        Some(v) => match v.as_str() {
            Some(s) => Ok(Some(s.to_owned())),
            None => Err(ConfigFault::Malformed(field)),
        },
    }
}

fn read_count(config: &JsonValue, field: ConfigField) -> (r: Result<u64, ConfigFault>)
    ensures
        r == required_count(config.deep_view(), field),
{
    match config.get(key_of(field)) {
        None => Err(ConfigFault::Missing(field)),
        Some(v) => match v.as_u64() {
            Some(n) => Ok(n),
            None => Err(ConfigFault::Malformed(field)),
        },
    }
}

fn read_port(config: &JsonValue, field: ConfigField) -> (r: Result<u16, ConfigFault>)
    ensures
        r == required_port(config.deep_view(), field),
{
    match read_count(config, field) {
        Err(fault) => Err(fault),
        Ok(n) => if n <= 0xffff {
            Ok(n as u16)
        } else {
            Err(ConfigFault::Malformed(field))
        },
    }
}

fn read_flag(config: &JsonValue, field: ConfigField) -> (r: Result<bool, ConfigFault>)
    ensures
        r == required_flag(config.deep_view(), field),
{
    match config.get(key_of(field)) {
        None => Err(ConfigFault::Missing(field)),
        Some(v) => match v.as_bool() {
            Some(b) => Ok(b),
            None => Err(ConfigFault::Malformed(field)),
        },
    }
}

/// Writes the address of a server.
pub fn base_url(use_ssl: bool, host: &str, port: u16) -> (r: String)
    ensures
        r@ == base_url_of(use_ssl, host@, port),
{
    let mut r = String::from_str(
        if use_ssl {
            "https"
        } else {
            "http"
        },
    );
    r.append("://");
    r.append(host);
    r.append(":");
    push_decimal(&mut r, port as u64);
    r
}

impl ConfigFault {
    /// Writes this fault as text.
    pub fn to_string(&self) -> (r: String)
        ensures
            r@ == fault_text(*self),
    {
        match self {
            ConfigFault::NotAnObject => String::from_str("invalid type: expected an object"),
            ConfigFault::Missing(field) => {
                let mut r = String::from_str("missing field `");
                r.append(key_of(*field));
                r.append("`");
                r
            },
            ConfigFault::Malformed(field) => {
                let mut r = String::from_str("invalid value for field `");
                r.append(key_of(*field));
                r.append("`");
                r
            },
        }
    }
}

impl ConnectionProfile {
    /// Decodes the configuration as that of a backend of the legacy dialect.
    ///
    /// Succeeds where the configuration is an object that holds the host, the database, the
    /// port, the TLS flag and the timeout with their types, and a user and a password that
    /// are each a string, null or left out. Otherwise the first fault is returned.
    ///
    /// The configuration is read field by field from the object, by this library's own
    /// rules: a configuration written as an array of the values in their order is no
    /// object and is refused as `NotAnObject`, and a fault reads as [`fault_text`] words
    /// it, which names the field and not the value found.
    pub fn get_v1_config(&self) -> (r: Result<InfluxDBV1Config, ConfigFault>)
        ensures
            match v1_config_of(self.config.deep_view()) {
                Ok(c) => r matches Ok(decoded) && decoded.deep_view() == c,
                Err(fault) => r matches Err(f) && f == fault,
            },
    {
        let config = &self.config;
        if config.as_object().is_none() {
            return Err(ConfigFault::NotAnObject);
        }
        let host = read_text(config, ConfigField::Host)?;
        let port = read_port(config, ConfigField::Port)?;
        let database = read_text(config, ConfigField::Database)?;
        let username = read_optional_text(config, ConfigField::Username)?;
        let password = read_optional_text(config, ConfigField::Password)?;
        let use_ssl = read_flag(config, ConfigField::UseSsl)?;
        let timeout = read_count(config, ConfigField::Timeout)?;
        Ok(InfluxDBV1Config { host, port, database, username, password, use_ssl, timeout })
    }

    /// Decodes the configuration as that of a backend of the newer dialect.
    ///
    /// Succeeds where the configuration is an object that holds the host, the token, the
    /// organization, the port, the TLS flag and the timeout with their types, and a bucket
    /// that is a string, null or left out. Otherwise the first fault is returned.
    ///
    /// The configuration is read field by field from the object, by this library's own
    /// rules: a configuration written as an array of the values in their order is no
    /// object and is refused as `NotAnObject`, and a fault reads as [`fault_text`] words
    /// it, which names the field and not the value found.
    pub fn get_v2_config(&self) -> (r: Result<InfluxDBV2Config, ConfigFault>)
        ensures
            match v2_config_of(self.config.deep_view()) {
                Ok(c) => r matches Ok(decoded) && decoded.deep_view() == c,
                Err(fault) => r matches Err(f) && f == fault,
            },
    {
        let config = &self.config;
        if config.as_object().is_none() {
            return Err(ConfigFault::NotAnObject);
        }
        let host = read_text(config, ConfigField::Host)?;
        let port = read_port(config, ConfigField::Port)?;
        let token = read_text(config, ConfigField::Token)?;
        let org = read_text(config, ConfigField::Org)?;
        let bucket = read_optional_text(config, ConfigField::Bucket)?;
        let use_ssl = read_flag(config, ConfigField::UseSsl)?;
        let timeout = read_count(config, ConfigField::Timeout)?;
        Ok(InfluxDBV2Config { host, port, token, org, bucket, use_ssl, timeout })
    }

    /// The address of the server that this profile names. A profile of the third version is
    /// read as one of the second.
    pub fn get_connection_url(&self) -> (r: Result<String, ConfigFault>)
        ensures
            match connection_url_of(self.version, self.config.deep_view()) {
                Ok(url) => r matches Ok(s) && s@ == url,
                Err(fault) => r matches Err(f) && f == fault,
            },
    {
        match self.version {
            InfluxDBVersion::V1 => {
                match self.get_v1_config() {
                    Ok(c) => Ok(base_url(c.use_ssl, c.host.as_str(), c.port)),
                    Err(fault) => Err(fault),
                }
            },
            _ => {
                match self.get_v2_config() {
                    Ok(c) => Ok(base_url(c.use_ssl, c.host.as_str(), c.port)),
                    Err(fault) => Err(fault),
                }
            },
        }
    }
}

} // verus!
