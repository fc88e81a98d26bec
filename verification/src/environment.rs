//! Deployment environments and the fixed settings each one implies.
//! Reading the process environment and binding sockets stay outside the
//! library; these queries are pure.

use vstd::prelude::*;

verus! {

/// The deployment environment the service runs in.
#[derive(Debug, Clone, PartialEq, Eq, Structural)]
pub enum Environment {
    Development,
    Production,
    Testing,
}

impl Environment {
    /// Whether cross-origin requests must be allowed: only outside
    /// production.
    pub fn needs_cors(&self) -> (r: bool)
        ensures
            r == (*self == Environment::Testing || *self == Environment::Development),
    {
        matches!(self, Environment::Testing | Environment::Development)
    }

    /// The origins allowed to call the service in this environment.
    pub fn cors_origins(&self) -> (r: Vec<&'static str>)
        ensures
            *self == Environment::Development ==> r@.len() == 2 && r@[0]@
                == "http://localhost:3000"@ && r@[1]@ == "http://localhost:5173"@,
            *self == Environment::Testing ==> r@.len() == 1 && r@[0]@
                == "http://localhost:3001"@,
            *self == Environment::Production ==> r@.len() == 0,
    {
        match self {
            Environment::Development => {
                let mut v: Vec<&'static str> = Vec::new();
                v.push("http://localhost:3000");
                v.push("http://localhost:5173");
                v
            },
            Environment::Testing => {
                let mut v: Vec<&'static str> = Vec::new();
                v.push("http://localhost:3001");
                v
            },
            Environment::Production => Vec::new(),
        }
    }

    /// The port the service binds when none is configured.
    pub fn default_port(self) -> (r: u16)
        ensures
            r == (match self {
                Environment::Development => 3000u16,
                Environment::Testing => 3001u16,
                Environment::Production => 8080u16,
            }),
    {
        match self {
            Environment::Development => 3000,
            Environment::Testing => 3001,
            Environment::Production => 8080,
        }
    }

    /// The tracing filter directive for this environment.
    pub fn tracing_level(&self) -> (r: &'static str)
        ensures
            r@ == (match *self {
                Environment::Development => "debug,tower_http=debug,axum=debug"@,
                Environment::Testing => "debug"@,
                Environment::Production => "info"@,
            }),
    {
        match self {
            Environment::Development => "debug,tower_http=debug,axum=debug",
            Environment::Testing => "debug",
            Environment::Production => "info",
        }
    }
}

} // verus!
