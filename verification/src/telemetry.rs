//! Crash telemetry: the core-dump watcher, the crash reporter, and the
//! daemon's liveness answer.
use vstd::prelude::*;

verus! {

/// Watches for new core dumps.
pub struct CoredumpWatcher {}

impl CoredumpWatcher {
    pub fn new() -> Self {
        CoredumpWatcher {}
    }

    /// The next crash to report; the watcher does not look at the core-dump
    /// directory yet, so there is never one.
    pub fn poll_new_crashes(&mut self) -> (r: Option<String>)
        ensures
            r is None,
    {
        None
    }
}

/// `reqwest::Client`, held by the reporter.
#[verifier::external_type_specification]
#[verifier::external_body]
pub struct ExClient(reqwest::Client);

/// `reqwest::Client::new`: a client with the default settings.
#[verifier::external_body]
fn http_client() -> reqwest::Client {
    reqwest::Client::new()
}

/// Reports crashes as issues of the project's repository.
pub struct GitHubReporter {
    client: reqwest::Client,
}

impl GitHubReporter {
    pub fn new() -> Self {
        GitHubReporter { client: http_client() }
    }

    /// Reports a crash; no request is sent yet, so it always succeeds.
    pub fn report_crash(&self, crash_data: &str) -> (r: Result<(), String>)
        ensures
            r is Ok,
    {
        Ok(())
    }
}

/// The base daemon's D-Bus object.
pub struct Bedrock;

impl Bedrock {
    /// The answer to a ping.
    pub fn ping(&self) -> (r: String)
        ensures
            r@ == "pong"@,
    {
        "pong".to_string()
    }
}

} // verus!
