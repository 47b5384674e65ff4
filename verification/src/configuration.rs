//! Configuration loading: the error taxonomy and the decision which source
//! to load from. Reading the environment, fetching remote content and
//! decoding it are outside work.

use vstd::prelude::*;

verus! {

/// Error of configuration loading.
#[derive(Debug)]
pub enum Error {
    /// Fetching the configuration text failed; holds the cause's text.
    Load(String),
    /// Decoding the configuration text failed; holds the cause's text.
    Decode(String),
}

impl Error {
    /// The error spelled out for a reader.
    pub fn message(&self) -> (r: String)
        ensures
            self matches Error::Load(s) ==> r@ == "load config: "@ + s@,
            self matches Error::Decode(s) ==> r@ == "decode config: "@ + s@,
    {
        match self {
            Error::Load(s) => "load config: ".to_owned().concat(s.as_str()),
            Error::Decode(s) => "decode config: ".to_owned().concat(s.as_str()),
        }
    }
}

/// Whether the remote-configuration switch is on: exactly when the flag's
/// text parses as boolean true. Any other text, and an absent flag, leave
/// it off.
pub fn remote_config_enabled(flag: &Option<String>) -> (b: bool)
    ensures
        b == crate::decimal::spec_flag_true(*flag),
{
    crate::decimal::flag_is_true(flag)
}

} // verus!
