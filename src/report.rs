//! What a run reports: the summary record of a single synchronisation and the
//! exit code, and the checks made before any network call.
use crate::config::opt_view;
use crate::engine::StrategyOutcome;
use crate::error::{classify_error, exit_code_for, sync_error_text, ExitCode, SyncError, UnsupportedError};
use crate::strategy::{opt_label, strategy_opt_label, StrategyOpt};
use vstd::prelude::*;
use vstd::string::StringExecFns;

verus! {

/// The machine-readable summary of one run.
#[derive(Debug, Clone)]
pub struct JsonReport {
    pub strategy: String,
    pub detected_port: Option<u16>,
    pub applied: bool,
    pub verified: bool,
    pub note: String,
    pub error: Option<String>,
}

impl JsonReport {
    /// An empty report for `strategy`: nothing applied, no note, no error.
    pub fn new(strategy: &str) -> (r: Self)
        ensures
            r.strategy@ == strategy@,
            r.detected_port is None,
            !r.applied,
            !r.verified,
            r.note@ == Seq::<char>::empty(),
            r.error is None,
    {
        JsonReport {
            strategy: String::from_str(strategy),
            detected_port: None,
            applied: false,
            verified: false,
            note: String::new(),
            error: None,
        }
    }
}

/// A run that ended well.
#[derive(Debug, Clone)]
pub struct RunSuccess {
    pub report: JsonReport,
    pub code: ExitCode,
    /// Whether the report is printed.
    pub emit_json: bool,
}

/// A run that failed.
#[derive(Debug, Clone)]
pub struct RunFailure {
    pub report: JsonReport,
    pub error: SyncError,
    pub code: ExitCode,
    /// Whether the report is printed.
    pub emit_json: bool,
}

/// Machine-readable output is offered for single runs only: asked for with the
/// daemon, the run fails as misconfigured before it does anything else.
pub fn check_output_mode(json: bool, once: bool, strategy: StrategyOpt) -> (r: Result<
    (),
    RunFailure,
>)
    ensures
        r is Err <==> (json && !once),
        r is Err ==> ({
            let f = r->Err_0;
            &&& f.code == ExitCode::Config
            &&& f.error is Unsupported
            &&& f.emit_json
            &&& f.report.strategy@ == opt_label(strategy)
            &&& !f.report.applied
            &&& f.report.error == Some(f.error->Unsupported_0.0)
        }),
{
    if json && !once {
        let err = UnsupportedError::new("--json is only supported with --once mode");
        let mut report = JsonReport::new(strategy_opt_label(strategy));
        report.note = String::from_str("json mode requires --once");
        report.error = Some(err.0.clone());
        return Err(RunFailure { report, error: SyncError::Unsupported(err), code: ExitCode::Config, emit_json: true });
    }
    Ok(())
}

/// A run that failed with `error` while following the strategy labelled `label`.
pub fn run_failure(label: &str, error: SyncError, json: bool) -> (r: RunFailure)
    ensures
        r.code == exit_code_for(error),
        r.error == error,
        r.emit_json == json,
        r.report.strategy@ == label@,
        !r.report.applied && !r.report.verified,
        r.report.detected_port is None,
        opt_view(r.report.error) == Some(sync_error_text(error)),
{
    let mut report = JsonReport::new(label);
    report.error = Some(error.describe());
    RunFailure { report, code: classify_error(&error), error, emit_json: json }
}

/// A single run that applied a port.
pub fn once_success(outcome: StrategyOutcome, json: bool) -> (r: RunSuccess)
    ensures
        r.code == ExitCode::Success,
        r.emit_json == json,
        r.report.strategy == outcome.strategy,
        r.report.detected_port == outcome.detected_port,
        r.report.applied,
        r.report.verified == outcome.verified,
        r.report.note@ == match outcome.note {
            Some(n) => n@,
            None => Seq::<char>::empty(),
        },
        r.report.error is None,
{
    let note = match outcome.note {
        Some(n) => n,
        None => String::new(),
    };
    RunSuccess {
        report: JsonReport {
            strategy: outcome.strategy,
            detected_port: outcome.detected_port,
            applied: true,
            verified: outcome.verified,
            note,
            error: None,
        },
        code: ExitCode::Success,
        emit_json: json,
    }
}

/// A daemon that stopped on the cancellation signal.
pub fn daemon_stopped(json: bool) -> (r: RunSuccess)
    ensures
        r.code == ExitCode::Success,
        r.emit_json == json,
        r.report.strategy@ == "daemon"@,
        r.report.note@ == "exited on signal"@,
        r.report.error is None,
{
    let mut report = JsonReport::new("daemon");
    report.note = String::from_str("exited on signal");
    RunSuccess { report, code: ExitCode::Success, emit_json: json }
}

/// The log filter for a verbosity count.
pub fn log_filter(verbose: u8) -> (r: &'static str)
    ensures
        verbose == 0 ==> r@ == "info"@,
        verbose == 1 ==> r@ == "debug"@,
        verbose > 1 ==> r@ == "trace"@,
{
    if verbose == 0 {
        "info"
    } else if verbose == 1 {
        "debug"
    } else {
        "trace"
    }
}

/// What the health and metrics endpoint answers.
#[derive(Debug, Clone, Copy, PartialEq, Eq, Structural)]
pub enum HttpRoute {
    Metrics,
    Healthy,
    Unhealthy,
    NotFound,
}

pub open spec fn route_of(path: Seq<char>, healthy: bool) -> HttpRoute {
    if path == "/metrics"@ {
        HttpRoute::Metrics
    } else if path == "/healthz"@ {
        if healthy {
            HttpRoute::Healthy
        } else {
            HttpRoute::Unhealthy
        }
    } else {
        HttpRoute::NotFound
    }
}

/// Routes a request path; the health check reports the daemon's health flag.
pub fn route_request(path: &str, healthy: bool) -> (r: HttpRoute)
    ensures
        r == route_of(path@, healthy),
{
    let p = String::from_str(path);
    if p.eq(&String::from_str("/metrics")) {
        HttpRoute::Metrics
    } else if p.eq(&String::from_str("/healthz")) {
        if healthy {
            HttpRoute::Healthy
        } else {
            HttpRoute::Unhealthy
        }
    } else {
        HttpRoute::NotFound
    }
}

pub open spec fn route_status_of(r: HttpRoute) -> u16 {
    match r {
        HttpRoute::Metrics => 200,
        HttpRoute::Healthy => 200,
        HttpRoute::Unhealthy => 503,
        HttpRoute::NotFound => 404,
    }
}

/// The HTTP status of a route's answer.
pub fn route_status(r: HttpRoute) -> (s: u16)
    ensures
        s == route_status_of(r),
{
    match r {
        HttpRoute::Metrics => 200,
        HttpRoute::Healthy => 200,
        HttpRoute::Unhealthy => 503,
        HttpRoute::NotFound => 404,
    }
}

} // verus!
