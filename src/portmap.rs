//! Gateway port mappings: the request sent, how each protocol's reply is
//! read, and the order in which the protocols are tried.
use crate::config::{is_present, PortMapConfig, PortProtocol};
use crate::error::{ConfigError, PortMapError, SyncError};
use crate::text::trim_text;
use vstd::prelude::*;

verus! {

/// The lowest port of the ephemeral range.
pub const EPHEMERAL_LOW: u16 = 49152;

/// The highest port of the ephemeral range.
pub const EPHEMERAL_HIGH: u16 = 65535;

/// How long to wait before asking a NAT-PMP gateway again when it asked for that.
pub const NATPMP_RETRY_MILLIS: u64 = 250;

/// The transport protocol of a mapping.
#[derive(Debug, Clone, Copy, PartialEq, Eq, Structural)]
pub enum Protocol {
    Tcp,
    Udp,
    Both,
}

/// The NAT-traversal protocol that produced a mapping.
#[derive(Debug, Clone, Copy, PartialEq, Eq, Structural)]
pub enum Strategy {
    Pcp,
    NatPmp,
}

/// A mapping the gateway granted.
#[derive(Debug, Clone, Copy, PartialEq, Eq, Structural)]
pub struct MapResult {
    pub external_port: u16,
    /// The lease in seconds; none where the gateway grants mappings without one.
    pub ttl: Option<u64>,
    pub strategy: Strategy,
}

/// What is asked of the gateway in one cycle.
#[derive(Debug, Clone)]
pub struct MapRequest {
    pub protocol: Protocol,
    /// The gateway's address, as text.
    pub gateway: String,
    pub internal_port: u16,
    pub external_preference: Option<u16>,
    pub refresh_secs: u64,
}

pub open spec fn protocol_of(p: PortProtocol) -> Protocol {
    match p {
        PortProtocol::TCP => Protocol::Tcp,
        PortProtocol::UDP => Protocol::Udp,
        PortProtocol::BOTH => Protocol::Both,
    }
}

pub fn protocol_from_config(protocol: PortProtocol) -> (r: Protocol)
    ensures
        r == protocol_of(protocol),
{
    match protocol {
        PortProtocol::TCP => Protocol::Tcp,
        PortProtocol::UDP => Protocol::Udp,
        PortProtocol::BOTH => Protocol::Both,
    }
}

/// The protocol put on the wire: a request for both is sent as TCP.
pub open spec fn wire_protocol(p: Protocol) -> Protocol {
    match p {
        Protocol::Both => Protocol::Tcp,
        other => other,
    }
}

fn effective_protocol(protocol: Protocol) -> (r: Protocol)
    ensures
        r == wire_protocol(protocol),
{
    match protocol {
        Protocol::Both => Protocol::Tcp,
        other => other,
    }
}

/// The protocol a negotiator puts on the wire for a requested one.
pub fn mapping_protocol(protocol: Protocol) -> (r: Protocol)
    ensures
        r == wire_protocol(protocol),
        r != Protocol::Both,
{
    effective_protocol(protocol)
}

/// Whether a request for `protocol` is narrowed on the wire, which callers
/// report as a warning.
pub fn is_narrowed(protocol: Protocol) -> (r: bool)
    ensures
        r == (wire_protocol(protocol) != protocol),
{
    match protocol {
        Protocol::Both => true,
        _ => false,
    }
}

pub fn build_result(external_port: u16, ttl: Option<u64>, strategy: Strategy) -> (r: MapResult)
    ensures
        r == (MapResult { external_port, ttl, strategy }),
{
    MapResult { external_port, ttl, strategy }
}

/// A lease from a gateway's lifetime in seconds: 0 means no lease.
pub open spec fn lease_of(secs: u64) -> Option<u64> {
    if secs == 0 {
        None
    } else {
        Some(secs)
    }
}

pub fn to_duration(ttl_secs: u32) -> (r: Option<u64>)
    ensures
        r == lease_of(ttl_secs as u64),
{
    if ttl_secs == 0 {
        None
    } else {
        Some(ttl_secs as u64)
    }
}

/// The lifetime asked of the gateway: the refresh interval, cut to the
/// protocol's 32-bit field.
pub fn requested_lifetime(refresh_secs: u64) -> (r: u32)
    ensures
        r == refresh_secs as u32,
{
    refresh_secs as u32
}

/// Relies on rand's `SeedableRng::from_rng` seeded from `OsRng`, which fails
/// rather than panics when the system yields no entropy, and on
/// `Rng::gen_range` over an inclusive range, which panics only where the range
/// is empty: one number drawn from `low` to `high`, or none without entropy.
#[verifier::external_body]
fn random_port_in(low: u16, high: u16) -> (r: Option<u16>)
    requires
        low <= high,
    ensures
        r matches Some(p) ==> low <= p <= high,
{
    match <rand::rngs::SmallRng as rand::SeedableRng>::from_rng(rand::rngs::OsRng) {
        Ok(mut rng) => Some(rand::Rng::gen_range(&mut rng, low..=high)),
        Err(_) => None,
    }
}

/// The internal port and the preferred external port when `drawn` is the
/// random port drawn for this attempt: a configured port is asked for on both
/// sides, and with none the drawn one is used and any external port accepted.
pub fn ports_for(internal_port: u16, drawn: u16) -> (r: (u16, Option<u16>))
    ensures
        internal_port == 0 ==> r == (drawn, None::<u16>),
        internal_port != 0 ==> r == (internal_port, Some(internal_port)),
{
    if internal_port == 0 {
        (drawn, None)
    } else {
        (internal_port, Some(internal_port))
    }
}

/// The internal and preferred external port of one attempt; with no port
/// configured one is drawn from the ephemeral range, which fails only where
/// the system has no entropy to draw with.
pub fn resolve_ports(config: &PortMapConfig) -> (r: Result<(u16, Option<u16>), SyncError>)
    ensures
        config.internal_port != 0 ==> r == Ok::<(u16, Option<u16>), SyncError>(
            (config.internal_port, Some(config.internal_port)),
        ),
        config.internal_port == 0 && r is Ok ==> EPHEMERAL_LOW <= r->Ok_0.0 && r->Ok_0.1 is None,
        r is Err ==> config.internal_port == 0 && r->Err_0 is Other,
{
    if config.internal_port != 0 {
        return Ok(ports_for(config.internal_port, 0));
    }
    match random_port_in(EPHEMERAL_LOW, EPHEMERAL_HIGH) {
        Some(drawn) => Ok(ports_for(0, drawn)),
        None => Err(SyncError::Other(String::from_str("no entropy to draw a random port with"))),
    }
}

/// Where the gateway's address comes from.
#[derive(Debug, Clone)]
pub enum GatewaySource {
    /// The configured address, as text.
    Configured(String),
    /// The host's default gateway, from its routing state.
    Discover,
}

/// The configured gateway when it is not blank, else discovery when that is
/// switched on; with neither the configuration is in error.
pub fn resolve_gateway(config: &PortMapConfig) -> (r: Result<GatewaySource, SyncError>)
    ensures
        match config.gateway {
            Some(g) if is_present(g@) => r is Ok && r->Ok_0 is Configured
                && r->Ok_0->Configured_0 == g,
            _ => if config.autodiscover_gateway {
                r is Ok && r->Ok_0 is Discover
            } else {
                r == Err::<GatewaySource, SyncError>(SyncError::Config(ConfigError::MissingGateway))
            },
        },
{
    match &config.gateway {
        Some(g) => {
            if trim_text(g.as_str()).unicode_len() > 0 {
                return Ok(GatewaySource::Configured(g.clone()));
            }
        },
        None => {},
    }
    if config.autodiscover_gateway {
        Ok(GatewaySource::Discover)
    } else {
        Err(SyncError::Config(ConfigError::MissingGateway))
    }
}

/// The request of one cycle to the gateway at `gateway`; it fails only where
/// a random port is needed and none could be drawn.
pub fn build_request(config: &PortMapConfig, gateway: String) -> (r: Result<MapRequest, SyncError>)
    ensures
        config.internal_port != 0 ==> r is Ok,
        r is Err ==> config.internal_port == 0 && r->Err_0 is Other,
        r matches Ok(req) ==> {
            &&& req.protocol == protocol_of(config.protocol)
            &&& req.gateway == gateway
            &&& req.refresh_secs == config.refresh_secs
            &&& config.internal_port == 0 ==> EPHEMERAL_LOW <= req.internal_port
                && req.external_preference is None
            &&& config.internal_port != 0 ==> req.internal_port == config.internal_port
                && req.external_preference == Some(config.internal_port)
        },
{
    let (internal_port, external_preference) = resolve_ports(config)?;
    Ok(MapRequest {
        protocol: protocol_from_config(config.protocol),
        gateway,
        internal_port,
        external_preference,
        refresh_secs: config.refresh_secs,
    })
}

/// What is sent to a NAT-PMP gateway.
#[derive(Debug, Clone, Copy, PartialEq, Eq, Structural)]
pub struct NatPmpParams {
    pub protocol: Protocol,
    pub internal_port: u16,
    /// 0 accepts any external port.
    pub external_port: u16,
    pub lifetime_secs: u32,
}

pub fn natpmp_params(request: &MapRequest) -> (r: NatPmpParams)
    ensures
        r.protocol == wire_protocol(request.protocol),
        r.internal_port == request.internal_port,
        r.external_port == match request.external_preference {
            Some(p) => p,
            None => 0,
        },
        r.lifetime_secs == request.refresh_secs as u32,
{
    NatPmpParams {
        protocol: mapping_protocol(request.protocol),
        internal_port: request.internal_port,
        external_port: match request.external_preference {
            Some(p) => p,
            None => 0,
        },
        lifetime_secs: requested_lifetime(request.refresh_secs),
    }
}

/// What one read of a NAT-PMP gateway's answer gave.
#[derive(Debug, Clone)]
pub enum NatPmpReply {
    /// A mapping, with its lifetime in seconds.
    Mapping { public_port: u16, lifetime_secs: u64 },
    /// An answer that is not about a mapping.
    Unrelated,
    /// The gateway has not answered yet and asks to be asked again.
    TryAgain,
    /// Any other failure.
    Error(String),
}

/// What a NAT-PMP negotiation does next.
#[derive(Debug, Clone)]
pub enum NatPmpStep {
    Finish(MapResult),
    /// Wait this many milliseconds, then read again.
    Wait(u64),
    ReadAgain,
    Fail(PortMapError),
}

pub open spec fn natpmp_next(reply: NatPmpReply) -> NatPmpStep {
    match reply {
        NatPmpReply::Mapping { public_port, lifetime_secs } => NatPmpStep::Finish(
            MapResult { external_port: public_port, ttl: lease_of(lifetime_secs), strategy: Strategy::NatPmp },
        ),
        NatPmpReply::Unrelated => NatPmpStep::ReadAgain,
        NatPmpReply::TryAgain => NatPmpStep::Wait(NATPMP_RETRY_MILLIS),
        NatPmpReply::Error(m) => NatPmpStep::Fail(PortMapError::NatPmp(m)),
    }
}

/// Decides what a NAT-PMP negotiation does with one read of the gateway's answer.
pub fn natpmp_step(reply: NatPmpReply) -> (r: NatPmpStep)
    ensures
        r == natpmp_next(reply),
{
    match reply {
        NatPmpReply::Mapping { public_port, lifetime_secs } => {
            let ttl = if lifetime_secs == 0 {
                None
            } else {
                Some(lifetime_secs)
            };
            NatPmpStep::Finish(build_result(public_port, ttl, Strategy::NatPmp))
        },
        NatPmpReply::Unrelated => NatPmpStep::ReadAgain,
        NatPmpReply::TryAgain => NatPmpStep::Wait(NATPMP_RETRY_MILLIS),
        NatPmpReply::Error(m) => NatPmpStep::Fail(PortMapError::NatPmp(m)),
    }
}

/// What is sent to a PCP gateway.
#[derive(Debug, Clone, Copy, PartialEq, Eq, Structural)]
pub struct PcpParams {
    pub protocol: Protocol,
    /// Never 0.
    pub internal_port: u16,
    /// Never `Some(0)`.
    pub external_port: Option<u16>,
    pub lifetime_secs: u32,
}

/// The PCP request for `request`; PCP cannot map internal port 0.
pub fn pcp_params(request: &MapRequest) -> (r: Result<PcpParams, SyncError>)
    ensures
        request.internal_port == 0 <==> r is Err,
        r is Err ==> r->Err_0 is Other,
        r is Ok ==> r->Ok_0 == (PcpParams {
            protocol: wire_protocol(request.protocol),
            internal_port: request.internal_port,
            external_port: match request.external_preference {
                Some(p) => if p == 0 { None } else { Some(p) },
                None => None,
            },
            lifetime_secs: request.refresh_secs as u32,
        }),
{
    if request.internal_port == 0 {
        return Err(SyncError::Other(String::from_str("internal port must be non-zero")));
    }
    Ok(PcpParams {
        protocol: mapping_protocol(request.protocol),
        internal_port: request.internal_port,
        external_port: match request.external_preference {
            Some(p) => if p == 0 {
                None
            } else {
                Some(p)
            },
            None => None,
        },
        lifetime_secs: requested_lifetime(request.refresh_secs),
    })
}

/// What a PCP gateway answered.
#[derive(Debug, Clone)]
pub enum PcpReply {
    Mapped { external_port: u16, lifetime_secs: u32 },
    /// The gateway does not speak this version of PCP.
    UnsupportedVersion,
    Failed(String),
}

/// Reads a PCP gateway's answer. An unsupported version is told apart from
/// every other failure, as the fallback to NAT-PMP depends on it.
pub fn pcp_outcome(reply: PcpReply) -> (r: Result<MapResult, PortMapError>)
    ensures
        match reply {
            PcpReply::Mapped { external_port, lifetime_secs } => r == Ok::<MapResult, PortMapError>(
                MapResult {
                    external_port,
                    ttl: lease_of(lifetime_secs as u64),
                    strategy: Strategy::Pcp,
                },
            ),
            PcpReply::UnsupportedVersion => r is Err && r->Err_0 is PcpNotSupported,
            PcpReply::Failed(m) => r == Err::<MapResult, PortMapError>(PortMapError::Pcp(m)),
        },
{
    match reply {
        PcpReply::Mapped { external_port, lifetime_secs } => Ok(
            build_result(external_port, to_duration(lifetime_secs), Strategy::Pcp),
        ),
        PcpReply::UnsupportedVersion => Err(
            PortMapError::PcpNotSupported(String::from_str("gateway indicates PCP is unsupported")),
        ),
        PcpReply::Failed(m) => Err(PortMapError::Pcp(m)),
    }
}

/// Which protocols a cycle may try.
#[derive(Debug, Clone, Copy, PartialEq, Eq, Structural)]
pub enum PortmapMode {
    /// PCP first, then NAT-PMP.
    Auto,
    PcpOnly,
    NatOnly,
}

/// How one attempt with one protocol ended.
#[derive(Debug, Clone)]
pub enum AttemptOutcome {
    Success(MapResult),
    /// The gateway does not support the protocol.
    Unsupported(String),
    /// Any other failure.
    Failed(String),
}

/// What a cycle does next.
#[derive(Debug, Clone)]
pub enum ChainStep {
    /// Try this protocol.
    Attempt(Strategy),
    /// The cycle obtained this mapping.
    Done(MapResult),
    /// The cycle failed.
    Fail(SyncError),
}

pub open spec fn outcome_of(r: Result<MapResult, PortMapError>) -> AttemptOutcome {
    match r {
        Ok(m) => AttemptOutcome::Success(m),
        Err(PortMapError::PcpNotSupported(m)) => AttemptOutcome::Unsupported(m),
        Err(PortMapError::Pcp(m)) => AttemptOutcome::Failed(m),
        Err(PortMapError::NatPmp(m)) => AttemptOutcome::Failed(m),
        Err(PortMapError::Exhausted { pcp, natpmp }) => AttemptOutcome::Failed(natpmp),
    }
}

/// The tag of what a negotiator returned.
pub fn attempt_outcome(r: Result<MapResult, PortMapError>) -> (o: AttemptOutcome)
    ensures
        o == outcome_of(r),
{
    match r {
        Ok(m) => AttemptOutcome::Success(m),
        Err(PortMapError::PcpNotSupported(m)) => AttemptOutcome::Unsupported(m),
        Err(PortMapError::Pcp(m)) => AttemptOutcome::Failed(m),
        Err(PortMapError::NatPmp(m)) => AttemptOutcome::Failed(m),
        Err(PortMapError::Exhausted { pcp, natpmp }) => AttemptOutcome::Failed(natpmp),
    }
}

/// The message of a failed attempt.
pub open spec fn failure_message(o: AttemptOutcome) -> String {
    match o {
        AttemptOutcome::Unsupported(m) => m,
        AttemptOutcome::Failed(m) => m,
        AttemptOutcome::Success(_) => arbitrary(),
    }
}

/// The error that a failed attempt with `strategy` ends a cycle in.
pub open spec fn attempt_error(strategy: Strategy, o: AttemptOutcome) -> PortMapError {
    match (strategy, o) {
        (Strategy::Pcp, AttemptOutcome::Unsupported(m)) => PortMapError::PcpNotSupported(m),
        (Strategy::Pcp, _) => PortMapError::Pcp(failure_message(o)),
        (Strategy::NatPmp, _) => PortMapError::NatPmp(failure_message(o)),
    }
}

/// A cycle that tries the one protocol `strategy`.
pub open spec fn single_step(strategy: Strategy, outcomes: Seq<AttemptOutcome>) -> ChainStep {
    if outcomes.len() == 0 {
        ChainStep::Attempt(strategy)
    } else if outcomes[0] is Success {
        ChainStep::Done(MapResult { strategy, ..outcomes[0]->Success_0 })
    } else {
        ChainStep::Fail(SyncError::PortMap(attempt_error(strategy, outcomes[0])))
    }
}

/// The next step of a cycle in `mode` after the attempts `outcomes`, in order.
/// In the automatic mode PCP is tried first and NAT-PMP after any failure of
/// it; when both fail, the cycle fails with both messages. A mapping that an
/// attempt obtains ends the cycle, marked with the protocol tried.
pub open spec fn chain_step(mode: PortmapMode, outcomes: Seq<AttemptOutcome>) -> ChainStep {
    match mode {
        PortmapMode::Auto => if outcomes.len() == 0 {
            ChainStep::Attempt(Strategy::Pcp)
        } else if outcomes[0] is Success {
            ChainStep::Done(MapResult { strategy: Strategy::Pcp, ..outcomes[0]->Success_0 })
        } else if outcomes.len() == 1 {
            ChainStep::Attempt(Strategy::NatPmp)
        } else if outcomes[1] is Success {
            ChainStep::Done(MapResult { strategy: Strategy::NatPmp, ..outcomes[1]->Success_0 })
        } else {
            ChainStep::Fail(
                SyncError::PortMap(
                    PortMapError::Exhausted {
                        pcp: failure_message(outcomes[0]),
                        natpmp: failure_message(outcomes[1]),
                    },
                ),
            )
        },
        PortmapMode::PcpOnly => single_step(Strategy::Pcp, outcomes),
        PortmapMode::NatOnly => single_step(Strategy::NatPmp, outcomes),
    }
}

fn marked(m: &MapResult, strategy: Strategy) -> (r: MapResult)
    ensures
        r == (MapResult { strategy, ..*m }),
{
    MapResult { external_port: m.external_port, ttl: m.ttl, strategy }
}

fn failure_text(o: &AttemptOutcome) -> (r: String)
    requires
        !(o is Success),
    ensures
        r == failure_message(*o),
{
    match o {
        AttemptOutcome::Unsupported(m) => m.clone(),
        AttemptOutcome::Failed(m) => m.clone(),
        AttemptOutcome::Success(_) => String::new(),
    }
}

fn single_next(strategy: Strategy, outcomes: &Vec<AttemptOutcome>) -> (r: ChainStep)
    ensures
        r == single_step(strategy, outcomes@),
{
    if outcomes.len() == 0 {
        return ChainStep::Attempt(strategy);
    }
    let err = match (&outcomes[0], strategy) {
        (AttemptOutcome::Success(m), _) => return ChainStep::Done(marked(m, strategy)),
        (AttemptOutcome::Unsupported(m), Strategy::Pcp) => PortMapError::PcpNotSupported(m.clone()),
        (AttemptOutcome::Failed(m), Strategy::Pcp) => PortMapError::Pcp(m.clone()),
        (AttemptOutcome::Unsupported(m), Strategy::NatPmp) => PortMapError::NatPmp(m.clone()),
        (AttemptOutcome::Failed(m), Strategy::NatPmp) => PortMapError::NatPmp(m.clone()),
    };
    ChainStep::Fail(SyncError::PortMap(err))
}

/// Decides the next step of a cycle in `mode` after the attempts `outcomes`.
pub fn next_attempt(mode: PortmapMode, outcomes: &Vec<AttemptOutcome>) -> (r: ChainStep)
    ensures
        r == chain_step(mode, outcomes@),
{
    match mode {
        PortmapMode::PcpOnly => single_next(Strategy::Pcp, outcomes),
        PortmapMode::NatOnly => single_next(Strategy::NatPmp, outcomes),
        PortmapMode::Auto => {
            if outcomes.len() == 0 {
                return ChainStep::Attempt(Strategy::Pcp);
            }
            if let AttemptOutcome::Success(m) = &outcomes[0] {
                return ChainStep::Done(marked(m, Strategy::Pcp));
            }
            if outcomes.len() == 1 {
                return ChainStep::Attempt(Strategy::NatPmp);
            }
            if let AttemptOutcome::Success(m) = &outcomes[1] {
                return ChainStep::Done(marked(m, Strategy::NatPmp));
            }
            let pcp = failure_text(&outcomes[0]);
            let natpmp = failure_text(&outcomes[1]);
            ChainStep::Fail(SyncError::PortMap(PortMapError::Exhausted { pcp, natpmp }))
        },
    }
}

/// In the automatic mode PCP is tried first; when it fails, whether as
/// unsupported or otherwise, NAT-PMP is tried next; and a mapping that
/// NAT-PMP then grants ends the cycle, marked as NAT-PMP's.
pub proof fn lemma_fallback_order(first: AttemptOutcome, mapping: MapResult)
    requires
        !(first is Success),
    ensures
        chain_step(PortmapMode::Auto, seq![]) == ChainStep::Attempt(Strategy::Pcp),
        chain_step(PortmapMode::Auto, seq![first]) == ChainStep::Attempt(Strategy::NatPmp),
        chain_step(PortmapMode::Auto, seq![first, AttemptOutcome::Success(mapping)])
            == ChainStep::Done(MapResult { strategy: Strategy::NatPmp, ..mapping }),
{
}

/// The single-protocol modes make exactly one attempt: its failure ends the cycle.
pub proof fn lemma_single_attempt(mode: PortmapMode, failure: AttemptOutcome)
    requires
        mode != PortmapMode::Auto,
        !(failure is Success),
    ensures
        chain_step(mode, seq![failure]) is Fail,
{
}

} // verus!
