//! Registry-backed configuration: the settings a registry client needs,
//! assembled from environment values handed in as plain text. Reading the
//! environment and talking to the registry are outside work.

use vstd::prelude::*;

use crate::decimal::flag_is_true;
use crate::decimal::parse_u32;
use crate::decimal::spec_flag_true;
use crate::decimal::spec_parse_u32;

verus! {

/// The port used when none is configured or the configured one is no number.
pub const DEFAULT_PORT: u32 = 8848;

/// Error of assembling or using the registry settings.
#[derive(Debug)]
pub enum Error {
    /// A required environment variable was missing; holds its name.
    EnvNotFound(String),
    /// A port text that is not a number; assembly itself falls back to
    /// [`DEFAULT_PORT`] instead of reporting this.
    ParsePort(String),
    /// The registry switch is off.
    Disable,
    /// Fetching configuration content failed; holds the cause's text.
    Config(String),
}

impl Error {
    /// The error spelled out for a reader.
    pub fn message(&self) -> (r: String)
        ensures
            self matches Error::EnvNotFound(s) ==> r@ == "find environment variable: "@ + s@,
            self matches Error::ParsePort(s) ==> r@ == "parse nacos port: "@ + s@,
            self is Disable ==> r@ == "nacos is disabled"@,
            self matches Error::Config(s) ==> r@ == "get config: "@ + s@,
    {
        match self {
            Error::EnvNotFound(s) => "find environment variable: ".to_owned().concat(s.as_str()),
            Error::ParsePort(s) => "parse nacos port: ".to_owned().concat(s.as_str()),
            Error::Disable => "nacos is disabled".to_owned(),
            Error::Config(s) => "get config: ".to_owned().concat(s.as_str()),
        }
    }
}

/// Names a configuration entry in the registry.
pub struct Key {
    /// The tenant, empty when none was configured.
    pub tenant: String,
    /// The data id; always configured explicitly.
    pub data_id: String,
    /// The group, with its conventional default.
    pub group: String,
}

impl Key {
    /// Assembles the key from environment values: `enabled` must spell
    /// boolean true or the registry counts as off; the namespace defaults to
    /// empty and the group to `DEFAULT_GROUP`; the data id is required.
    pub fn from_values(
        enabled: &Option<String>,
        namespace: Option<String>,
        data_id: Option<String>,
        group: Option<String>,
    ) -> (r: Result<Key, Error>)
        ensures
            !spec_flag_true(*enabled) ==> r matches Err(Error::Disable),
            spec_flag_true(*enabled) ==> match data_id {
                None => r matches Err(Error::EnvNotFound(v)) && v@ == "NACOS_DATA_ID"@,
                Some(d) => r matches Ok(k) && {
                    &&& k.data_id == d
                    &&& k.tenant@ == (match namespace {
                        Some(ns) => ns@,
                        None => Seq::<char>::empty(),
                    })
                    &&& k.group@ == (match group {
                        Some(g) => g@,
                        None => "DEFAULT_GROUP"@,
                    })
                },
            },
    {
        if !flag_is_true(enabled) {
            return Err(Error::Disable);
        }
        let tenant = match namespace {
            Some(ns) => ns,
            None => String::new(),
        };
        let data_id = match data_id {
            Some(d) => d,
            None => {
                return Err(Error::EnvNotFound("NACOS_DATA_ID".to_owned()));
            },
        };
        let group = match group {
            Some(g) => g,
            None => "DEFAULT_GROUP".to_owned(),
        };
        Ok(Key { tenant, data_id, group })
    }
}

/// Where the registry is reached.
pub struct Nacos {
    /// The registry host; always configured explicitly.
    pub server: String,
    /// The registry port, defaulted when absent or not a number.
    pub port: u32,
}

impl Nacos {
    /// Assembles the address from environment values: `enabled` must spell
    /// boolean true or the registry counts as off; the server is required;
    /// the port falls back to [`DEFAULT_PORT`] when absent or malformed.
    pub fn from_values(enabled: &Option<String>, server: Option<String>, port: Option<String>) -> (r:
        Result<Nacos, Error>)
        ensures
            !spec_flag_true(*enabled) ==> r matches Err(Error::Disable),
            spec_flag_true(*enabled) ==> match server {
                None => r matches Err(Error::EnvNotFound(v)) && v@ == "NACOS_SERVER"@,
                Some(h) => r matches Ok(n) && {
                    &&& n.server == h
                    &&& n.port == (match port {
                        Some(p) => (match spec_parse_u32(p@) {
                            Some(v) => v,
                            None => DEFAULT_PORT,
                        }),
                        None => DEFAULT_PORT,
                    })
                },
            },
    {
        if !flag_is_true(enabled) {
            return Err(Error::Disable);
        }
        let server = match server {
            Some(h) => h,
            None => {
                return Err(Error::EnvNotFound("NACOS_SERVER".to_owned()));
            },
        };
        let port: u32 = match port {
            Some(p) => match parse_u32(p.as_str()) {
                Some(v) => v,
                None => DEFAULT_PORT,
            },
            None => DEFAULT_PORT,
        };
        Ok(Nacos { server, port })
    }
}

} // verus!
