//! The session-wide configuration singleton. Only its registry discipline
//! matters to this core; the configuration itself is carried opaquely.

use vstd::prelude::*;

verus! {

/// Session-wide configuration, installed once per session.
pub struct Config {
    pub version: String,
}

impl Config {
    pub fn new(version: String) -> (r: Config)
        ensures
            r.version@ == version@,
    {
        Config { version }
    }
}

} // verus!
