//! The tray program's settings.

use vstd::prelude::*;

verus! {

/// The program's settings: the address the HTTP server listens on and the
/// working directory to enter, if any.
#[derive(Debug, Clone, PartialEq)]
pub struct Args {
    pub host: String,
    pub current: Option<String>,
}

/// The query of a sleep request: how many seconds to sleep.
#[derive(Debug, Clone, PartialEq)]
pub struct SleepParams {
    pub time: u64,
}

/// The address the server listens on when none is given.
pub fn default_host() -> (s: String)
    ensures
        s@ == "localhost:8000"@,
{
    String::from_str("localhost:8000")
}

impl Args {
    /// The working directory that these settings ask the program to enter
    /// before it starts; `None` keeps the current one.
    pub fn init(&self) -> (dir: Option<String>)
        ensures
            dir == self.current,
    {
        match &self.current {
            Some(d) => Some(d.clone()),
            None => None,
        }
    }
}

} // verus!
