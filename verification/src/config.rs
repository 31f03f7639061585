//! General configuration options.

use vstd::prelude::*;

use crate::error::{Error, Kind};
use crate::num::{parse_bool, spec_parse_bool};

verus! {

/// General configuration options.
/// Options' values are taken from (in order, first takes precedence):
///   - Environment
///   - `.env` file
///   - Default value (if applicable).
#[derive(Debug)]
pub struct Config {
    /// Whether to output URLs that are queried.
    /// Default: false
    /// Environment variable: `ORNAGUIDERS_DEBUG_URLS`
    pub debug_urls: bool,
}

impl Config {
    /// The configuration that the value of `ORNAGUIDERS_DEBUG_URLS` gives (`None` when
    /// the variable is not set): `true` or `false`, `false` when not set; any other
    /// value fails to parse as a boolean.
    pub fn from_var(debug_urls: Option<&str>) -> (r: Result<Config, Error>)
        ensures
            match debug_urls {
                None => r matches Ok(c) && !c.debug_urls,
                Some(v) => match spec_parse_bool(v@) {
                    Some(b) => r matches Ok(c) && c.debug_urls == b,
                    None => r matches Err(e) && e.kind == Kind::ParseBoolError && e.context@.len() == 0,
                },
            },
    {
        let value = match debug_urls {
            Some(v) => v,
            None => "false",
        };
        proof {
            reveal_strlit("false");
            assert("false"@ =~= seq!['f', 'a', 'l', 's', 'e']);
        }
        match parse_bool(value) {
            Some(b) => Ok(Config { debug_urls: b }),
            None => Err(Error { kind: Kind::ParseBoolError, context: Vec::new() }),
        }
    }
}

} // verus!
