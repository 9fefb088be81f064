//! Service lifecycle: which server tasks run, and what starting, waiting,
//! shutting down and aborting do with them.

use vstd::prelude::*;

verus! {

/// Errors of running the service; outside errors are carried as their messages.
#[derive(Debug)]
pub enum HandleError {
    /// HTTP server error.
    Server(String),
    /// Error initializing the crypto provider.
    InitTls,
    /// HTTPS server error.
    TlsServer(String),
    /// Server task error.
    ServerTask(String),
    /// No server is currently running.
    NotRunning,
    /// Custom error.
    Custom(String),
}

impl HandleError {
    /// Human-readable message of the error.
    pub fn message(&self) -> (r: String)
        ensures
            self is NotRunning ==> r@ == "No server is currently running"@,
            self is InitTls ==> r@ == "Error initializing crypto provider"@,
            self matches HandleError::Server(m) ==> r@ == "HTTP server error: "@ + m@,
            self matches HandleError::TlsServer(m) ==> r@ == "HTTPS server error: "@ + m@,
            self matches HandleError::ServerTask(m) ==> r@ == "Server task error: "@ + m@,
            self matches HandleError::Custom(m) ==> r@ == "Custom error: "@ + m@,
    {
        match self {
            HandleError::Server(m) => crate::text::concat_str("HTTP server error: ", m.as_str()),
            HandleError::InitTls => crate::text::owned("Error initializing crypto provider"),
            HandleError::TlsServer(m) => crate::text::concat_str("HTTPS server error: ", m.as_str()),
            HandleError::ServerTask(m) => crate::text::concat_str("Server task error: ", m.as_str()),
            HandleError::NotRunning => crate::text::owned("No server is currently running"),
            HandleError::Custom(m) => crate::text::concat_str("Custom error: ", m.as_str()),
        }
    }
}

/// How to wait for running servers.
#[derive(Clone, Copy, Debug, PartialEq, Eq, Structural)]
pub enum WaitPlan {
    /// One server runs: wait for it.
    Single,
    /// Both run: wait for the first to end, then shut the other down gracefully
    /// and report the first one's result.
    FirstThenGraceful,
}

/// The server tasks of a service.
#[derive(Clone, Copy, Debug, PartialEq, Eq, Structural)]
pub struct ServerTasks {
    /// The plain HTTP server runs.
    pub http: bool,
    /// The HTTPS server runs.
    pub https: bool,
}

impl ServerTasks {
    /// No server runs.
    pub fn new() -> (r: ServerTasks)
        ensures
            !r.http && !r.https,
    {
        ServerTasks { http: false, https: false }
    }

    /// Starts the servers: HTTPS when TLS is configured, HTTP always.
    pub fn start(&mut self, has_tls: bool)
        ensures
            final(self).http,
            final(self).https == (has_tls || old(self).https),
    {
        if has_tls {
            self.https = true;
        }
        self.http = true;
    }

    /// Takes the running servers to wait for them; refuses when none runs.
    pub fn take_for_wait(&mut self) -> (r: Result<WaitPlan, HandleError>)
        ensures
            !final(self).http && !final(self).https,
            match r {
                Err(e) => e is NotRunning && !old(self).http && !old(self).https,
                Ok(p) => p == if old(self).http && old(self).https { WaitPlan::FirstThenGraceful } else { WaitPlan::Single }
                    && (old(self).http || old(self).https),
            },
    {
        let plan = if self.http && self.https {
            Ok(WaitPlan::FirstThenGraceful)
        } else if self.http || self.https {
            Ok(WaitPlan::Single)
        } else {
            Err(HandleError::NotRunning)
        };
        self.http = false;
        self.https = false;
        plan
    }

    /// Stops the servers: tells which were running and must be awaited (or aborted).
    pub fn take_all(&mut self) -> (r: (bool, bool))
        ensures
            r == (old(self).http, old(self).https),
            !final(self).http && !final(self).https,
    {
        let r = (self.http, self.https);
        self.http = false;
        self.https = false;
        r
    }
}

} // verus!
