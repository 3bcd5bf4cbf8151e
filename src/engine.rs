//! The synchronisation engine: what each cycle does next, how long it sleeps
//! between mapping renewals, and what it reports.
use crate::config::opt_view;
use crate::error::{classify_error, exit_code_for, ExitCode, SyncError};
use crate::portmap::{MapResult, PortmapMode};
use crate::qbit::{is_auth_failure, is_authentication_failure, PortUpdateResult};
use crate::strategy::{mapping_label, map_strategy_label, StrategyPlan};
use crate::text::{decimal_of, decimal_text};
use vstd::prelude::*;
use vstd::string::StringExecFns;

verus! {

/// The shortest wait between two mapping renewals, in seconds.
pub const MIN_WAKE_SECS: u64 = 10;

/// The shortest lease, in seconds, whose half is used as the wait.
pub const MIN_HALVED_LEASE_SECS: u64 = 20;

/// The wait before the next mapping renewal: half the lease when there is one
/// of at least 20 s, else the configured interval, but never under 10 s.
pub open spec fn wake_delay(lease: Option<u64>, refresh_secs: u64) -> u64 {
    match lease {
        Some(l) if l >= MIN_HALVED_LEASE_SECS => l / 2,
        _ => if refresh_secs < MIN_WAKE_SECS {
            MIN_WAKE_SECS
        } else {
            refresh_secs
        },
    }
}

pub fn next_wake_delay(lease: Option<u64>, refresh_secs: u64) -> (r: u64)
    ensures
        r == wake_delay(lease, refresh_secs),
        r >= MIN_WAKE_SECS,
{
    match lease {
        Some(l) => {
            if l >= MIN_HALVED_LEASE_SECS {
                return l / 2;
            }
        },
        None => {},
    }
    if refresh_secs < MIN_WAKE_SECS {
        MIN_WAKE_SECS
    } else {
        refresh_secs
    }
}

/// A lease of at least 20 s is renewed after half of it; a shorter lease, or
/// none, waits the configured interval with a floor of 10 s.
pub proof fn lemma_lease_halving(lease: u64, refresh_secs: u64)
    ensures
        lease >= 20 ==> wake_delay(Some(lease), refresh_secs) == lease / 2,
        lease < 20 ==> wake_delay(Some(lease), refresh_secs) == wake_delay(None, refresh_secs),
        wake_delay(None, refresh_secs) == if refresh_secs < 10 { 10 } else { refresh_secs },
{
}

/// One part of a note, added to what is there, after a `; `.
pub open spec fn add_note(acc: Option<Seq<char>>, part: Seq<char>) -> Option<Seq<char>> {
    match acc {
        Some(a) => Some(a + "; "@ + part),
        None => Some(part),
    }
}

/// The remarks on an applied port: the lease, and the client settings that
/// still undo a fixed port.
pub open spec fn update_note(update: PortUpdateResult, lease: Option<u64>) -> Option<Seq<char>> {
    let with_lease = match lease {
        Some(l) => Some("ttl="@ + decimal_of(l as nat) + "s"@),
        None => None,
    };
    let with_random = if update.random_port == Some(true) {
        add_note(with_lease, "random_port still enabled"@)
    } else {
        with_lease
    };
    if update.upnp == Some(true) {
        add_note(with_random, "upnp still enabled"@)
    } else {
        with_random
    }
}

fn append_note(acc: Option<String>, part: &str) -> (r: Option<String>)
    ensures
        opt_view(r) == add_note(opt_view(acc), part@),
{
    match acc {
        Some(a) => Some(a.concat("; ").concat(part)),
        None => Some(String::from_str(part)),
    }
}

pub fn build_note(update: &PortUpdateResult, lease: Option<u64>) -> (r: Option<String>)
    ensures
        opt_view(r) == update_note(*update, lease),
{
    let mut note: Option<String> = match lease {
        Some(l) => {
            let secs = decimal_text(l);
            Some(String::from_str("ttl=").concat(secs.as_str()).concat("s"))
        },
        None => None,
    };
    if update.random_port == Some(true) {
        note = append_note(note, "random_port still enabled");
    }
    if update.upnp == Some(true) {
        note = append_note(note, "upnp still enabled");
    }
    note
}

/// What a single synchronisation produced.
#[derive(Debug, Clone)]
pub struct StrategyOutcome {
    pub strategy: String,
    pub detected_port: Option<u16>,
    pub verified: bool,
    pub note: Option<String>,
}

/// The outcome of applying a port read from the forwarded-port file.
pub fn file_outcome(update: &PortUpdateResult) -> (r: StrategyOutcome)
    ensures
        r.strategy@ == "file"@,
        r.detected_port == Some(update.detected_port),
        r.verified == update.verified,
        opt_view(r.note) == update_note(*update, None),
{
    StrategyOutcome {
        strategy: String::from_str("file"),
        detected_port: Some(update.detected_port),
        verified: update.verified,
        note: build_note(update, None),
    }
}

/// The outcome of applying a port obtained from the gateway in `mode`.
pub fn mapping_outcome(mode: PortmapMode, mapping: &MapResult, update: &PortUpdateResult) -> (r:
    StrategyOutcome)
    ensures
        r.strategy@ == mapping_label(mode, mapping.strategy),
        r.detected_port == Some(update.detected_port),
        r.verified == update.verified,
        opt_view(r.note) == update_note(*update, mapping.ttl),
{
    StrategyOutcome {
        strategy: map_strategy_label(mode, mapping.strategy),
        detected_port: Some(update.detected_port),
        verified: update.verified,
        note: build_note(update, mapping.ttl),
    }
}

/// Where the daemon learns its port from.
#[derive(Debug, Clone, Copy, PartialEq, Eq, Structural)]
pub enum PortSource {
    /// Changes of the forwarded-port file.
    File,
    /// Mappings negotiated with the gateway in this mode.
    Mapping(PortmapMode),
}

/// Where the daemon stands.
#[derive(Debug, Clone, Copy, PartialEq, Eq, Structural)]
pub enum EngineState {
    Negotiating,
    Applying { port: u16, lease: Option<u64> },
    Sleeping { secs: u64 },
    Watching,
    Stopped,
}

/// What happened since the daemon's last action.
#[derive(Debug, Clone)]
pub enum EngineEvent {
    Mapped(MapResult),
    MappingFailed(SyncError),
    PortSeen(u16),
    Applied(PortUpdateResult),
    ApplyFailed(SyncError),
    WakeUp,
    Cancelled,
}

/// What the daemon does next; each waits for the cancellation signal too.
#[derive(Debug, Clone)]
pub enum EngineAction {
    Negotiate(PortmapMode),
    Apply(u16),
    /// Sleep this many seconds.
    Sleep(u64),
    AwaitFileChange,
    /// Stop on cancellation.
    Stop,
    /// Stop on a failure that no retry mends.
    Abort(SyncError),
}

/// The daemon's state machine. One negotiation or one apply is in flight at a
/// time: each action is performed before the next event is handed in.
#[derive(Debug, Clone, Copy, PartialEq, Eq, Structural)]
pub struct PortSyncEngine {
    pub source: PortSource,
    pub refresh_secs: u64,
    pub state: EngineState,
    /// Whether the last apply succeeded.
    pub healthy: bool,
    /// The port the client last reported after an apply.
    pub last_port: Option<u16>,
}

/// A failure that stops the daemon: bad configuration, or credentials the
/// client refuses.
pub open spec fn is_fatal(e: SyncError) -> bool {
    exit_code_for(e) == ExitCode::Config || is_auth_failure(e)
}

fn fatal(e: &SyncError) -> (r: bool)
    ensures
        r == is_fatal(*e),
{
    classify_error(e) == ExitCode::Config || is_authentication_failure(e)
}

impl PortSyncEngine {
    /// The file strategy only watches; negotiation only negotiates and sleeps.
    pub open spec fn wf(&self) -> bool {
        match self.state {
            EngineState::Watching => self.source is File,
            EngineState::Negotiating => self.source is Mapping,
            EngineState::Sleeping { .. } => self.source is Mapping,
            _ => true,
        }
    }

    /// The negotiation the daemon starts; the file strategy waits for the
    /// file instead.
    pub open spec fn negotiation(&self) -> EngineAction {
        match self.source {
            PortSource::Mapping(mode) => EngineAction::Negotiate(mode),
            PortSource::File => EngineAction::AwaitFileChange,
        }
    }

    /// What the daemon does in its present state.
    pub open spec fn pending(&self) -> EngineAction {
        match self.state {
            EngineState::Negotiating => self.negotiation(),
            EngineState::Applying { port, .. } => EngineAction::Apply(port),
            EngineState::Sleeping { secs } => EngineAction::Sleep(secs),
            EngineState::Watching => EngineAction::AwaitFileChange,
            EngineState::Stopped => EngineAction::Stop,
        }
    }

    /// The daemon after a cycle's step failed with `e`: unhealthy, and either
    /// stopped or waiting for the next chance.
    pub open spec fn after_failure(&self, e: SyncError) -> (PortSyncEngine, EngineAction) {
        if is_fatal(e) {
            (
                PortSyncEngine { state: EngineState::Stopped, healthy: false, ..*self },
                EngineAction::Abort(e),
            )
        } else {
            match self.source {
                PortSource::File => (
                    PortSyncEngine { state: EngineState::Watching, healthy: false, ..*self },
                    EngineAction::AwaitFileChange,
                ),
                PortSource::Mapping(_) => (
                    PortSyncEngine {
                        state: EngineState::Sleeping { secs: self.refresh_secs },
                        healthy: false,
                        ..*self
                    },
                    EngineAction::Sleep(self.refresh_secs),
                ),
            }
        }
    }

    /// The daemon's next state and action after `event`.
    /// - Cancellation stops it, from any state.
    /// - A mapping, or a port seen in the file, is applied.
    /// - An applied port makes it healthy; the file strategy then watches
    ///   again, negotiation sleeps for the lease-derived delay.
    /// - A failed negotiation or apply makes it unhealthy and it retries: on
    ///   the next file change, or after the configured interval. A fatal
    ///   failure stops it.
    /// - A finished sleep starts the next negotiation.
    /// - Any other event leaves it where it is.
    pub open spec fn next(&self, event: EngineEvent) -> (PortSyncEngine, EngineAction) {
        match (self.state, event) {
            (_, EngineEvent::Cancelled) => (
                PortSyncEngine { state: EngineState::Stopped, ..*self },
                EngineAction::Stop,
            ),
            (EngineState::Stopped, _) => (*self, EngineAction::Stop),
            (EngineState::Negotiating, EngineEvent::Mapped(m)) => (
                PortSyncEngine {
                    state: EngineState::Applying { port: m.external_port, lease: m.ttl },
                    ..*self
                },
                EngineAction::Apply(m.external_port),
            ),
            (EngineState::Negotiating, EngineEvent::MappingFailed(e)) => self.after_failure(e),
            (EngineState::Watching, EngineEvent::PortSeen(p)) => (
                PortSyncEngine { state: EngineState::Applying { port: p, lease: None }, ..*self },
                EngineAction::Apply(p),
            ),
            (EngineState::Applying { port, lease }, EngineEvent::Applied(u)) => match self.source {
                PortSource::File => (
                    PortSyncEngine {
                        state: EngineState::Watching,
                        healthy: true,
                        last_port: Some(u.detected_port),
                        ..*self
                    },
                    EngineAction::AwaitFileChange,
                ),
                PortSource::Mapping(_) => (
                    PortSyncEngine {
                        state: EngineState::Sleeping { secs: wake_delay(lease, self.refresh_secs) },
                        healthy: true,
                        last_port: Some(u.detected_port),
                        ..*self
                    },
                    EngineAction::Sleep(wake_delay(lease, self.refresh_secs)),
                ),
            },
            (EngineState::Applying { .. }, EngineEvent::ApplyFailed(e)) => self.after_failure(e),
            (EngineState::Sleeping { .. }, EngineEvent::WakeUp) => (
                PortSyncEngine { state: EngineState::Negotiating, ..*self },
                self.negotiation(),
            ),
            _ => (*self, self.pending()),
        }
    }

    /// A daemon that follows `plan`, not yet healthy, with no port applied.
    pub fn new(plan: &StrategyPlan, refresh_secs: u64) -> (r: Self)
        ensures
            r.wf(),
            r.refresh_secs == refresh_secs,
            !r.healthy,
            r.last_port is None,
            match *plan {
                StrategyPlan::File { .. } => r.source == PortSource::File && r.state
                    == EngineState::Watching,
                StrategyPlan::Portmap { mode } => r.source == PortSource::Mapping(mode) && r.state
                    == EngineState::Negotiating,
            },
    {
        match plan {
            StrategyPlan::File { .. } => PortSyncEngine {
                source: PortSource::File,
                refresh_secs,
                state: EngineState::Watching,
                healthy: false,
                last_port: None,
            },
            StrategyPlan::Portmap { mode } => PortSyncEngine {
                source: PortSource::Mapping(*mode),
                refresh_secs,
                state: EngineState::Negotiating,
                healthy: false,
                last_port: None,
            },
        }
    }

    /// What the daemon does in its present state.
    pub fn pending_action(&self) -> (r: EngineAction)
        ensures
            r == self.pending(),
    {
        match self.state {
            EngineState::Negotiating => match self.source {
                PortSource::Mapping(mode) => EngineAction::Negotiate(mode),
                PortSource::File => EngineAction::AwaitFileChange,
            },
            EngineState::Applying { port, .. } => EngineAction::Apply(port),
            EngineState::Sleeping { secs } => EngineAction::Sleep(secs),
            EngineState::Watching => EngineAction::AwaitFileChange,
            EngineState::Stopped => EngineAction::Stop,
        }
    }

    fn fail(&mut self, e: SyncError) -> (r: EngineAction)
        ensures
            (*final(self), r) == old(self).after_failure(e),
            old(self).wf() ==> final(self).wf(),
    {
        self.healthy = false;
        if fatal(&e) {
            self.state = EngineState::Stopped;
            return EngineAction::Abort(e);
        }
        match self.source {
            PortSource::File => {
                self.state = EngineState::Watching;
                EngineAction::AwaitFileChange
            },
            PortSource::Mapping(_) => {
                self.state = EngineState::Sleeping { secs: self.refresh_secs };
                EngineAction::Sleep(self.refresh_secs)
            },
        }
    }

    /// Hands the daemon an event and returns its next action.
    pub fn step(&mut self, event: EngineEvent) -> (r: EngineAction)
        ensures
            (*final(self), r) == old(self).next(event),
            old(self).wf() ==> final(self).wf(),
    {
        if let EngineEvent::Cancelled = event {
            self.state = EngineState::Stopped;
            return EngineAction::Stop;
        }
        match (self.state, event) {
            (EngineState::Stopped, _) => EngineAction::Stop,
            (EngineState::Negotiating, EngineEvent::Mapped(m)) => {
                self.state = EngineState::Applying { port: m.external_port, lease: m.ttl };
                EngineAction::Apply(m.external_port)
            },
            (EngineState::Negotiating, EngineEvent::MappingFailed(e)) => self.fail(e),
            (EngineState::Watching, EngineEvent::PortSeen(p)) => {
                self.state = EngineState::Applying { port: p, lease: None };
                EngineAction::Apply(p)
            },
            (EngineState::Applying { port, lease }, EngineEvent::Applied(u)) => {
                self.healthy = true;
                self.last_port = Some(u.detected_port);
                match self.source {
                    PortSource::File => {
                        self.state = EngineState::Watching;
                        EngineAction::AwaitFileChange
                    },
                    PortSource::Mapping(_) => {
                        let secs = next_wake_delay(lease, self.refresh_secs);
                        self.state = EngineState::Sleeping { secs };
                        EngineAction::Sleep(secs)
                    },
                }
            },
            (EngineState::Applying { .. }, EngineEvent::ApplyFailed(e)) => self.fail(e),
            (EngineState::Sleeping { .. }, EngineEvent::WakeUp) => {
                self.state = EngineState::Negotiating;
                match self.source {
                    PortSource::Mapping(mode) => EngineAction::Negotiate(mode),
                    PortSource::File => EngineAction::AwaitFileChange,
                }
            },
            _ => self.pending_action(),
        }
    }
}

/// Applying one port twice, with the client confirming it both times, leaves
/// the daemon healthy on that port after each apply, in the same state: the
/// detected port does not oscillate.
pub proof fn lemma_idempotent_apply(e: PortSyncEngine, p: u16, u: PortUpdateResult)
    requires
        e.wf(),
        e.state == EngineState::Watching,
        u.detected_port == p,
        u.verified,
    ensures
        ({
            let (e1, a1) = e.next(EngineEvent::PortSeen(p));
            let (e2, a2) = e1.next(EngineEvent::Applied(u));
            let (e3, a3) = e2.next(EngineEvent::PortSeen(p));
            let (e4, a4) = e3.next(EngineEvent::Applied(u));
            &&& a1 == EngineAction::Apply(p)
            &&& a3 == EngineAction::Apply(p)
            &&& e2.healthy && e2.last_port == Some(p)
            &&& e4 == e2
        }),
{
}

/// The daemon never leaves the stopped state.
pub proof fn lemma_stopped_stays(e: PortSyncEngine, event: EngineEvent)
    requires
        e.state == EngineState::Stopped,
    ensures
        e.next(event).0 == e,
        e.next(event).1 == EngineAction::Stop,
{
}

/// A failure that is not fatal never stops the daemon, and leaves it unhealthy.
pub proof fn lemma_transient_failure_retries(e: PortSyncEngine, err: SyncError)
    requires
        e.wf(),
        e.state is Negotiating || e.state is Applying,
        !is_fatal(err),
    ensures
        ({
            let ev = if e.state is Negotiating {
                EngineEvent::MappingFailed(err)
            } else {
                EngineEvent::ApplyFailed(err)
            };
            let (n, a) = e.next(ev);
            &&& n.state != EngineState::Stopped
            &&& !n.healthy
            &&& e.source is Mapping ==> a == EngineAction::Sleep(e.refresh_secs)
        }),
{
}

} // verus!
