use vstd::prelude::*;

use crate::error::NegotiationError;

verus! {

/// How the SMTP connection is secured.
#[allow(non_camel_case_types, clippy::upper_case_acronyms)]
#[derive(Debug, Clone, Copy, PartialEq, Eq, Structural)]
pub enum TlsMode {
    /// Encrypted from the first byte (implicit TLS).
    TLS,
    /// Plain connection upgraded to TLS before authentication.
    STARTTLS,
}

/// Relies on lettre::transport::smtp::SUBMISSIONS_PORT, the implicit-TLS
/// submission port, which lettre defines as 465.
#[verifier::external_body]
fn submissions_port() -> (r: u16)
    ensures
        r == 465,
{
    lettre::transport::smtp::SUBMISSIONS_PORT
}

/// Relies on lettre::transport::smtp::SUBMISSION_PORT, the submission port
/// used with STARTTLS, which lettre defines as 587.
#[verifier::external_body]
fn submission_port() -> (r: u16)
    ensures
        r == 587,
{
    lettre::transport::smtp::SUBMISSION_PORT
}

/// The port a variant uses when none is configured.
pub open spec fn spec_default_port(mode: TlsMode) -> u16 {
    match mode {
        TlsMode::TLS => 465,
        TlsMode::STARTTLS => 587,
    }
}

/// The variants in the order they are tried.
pub open spec fn variant_order() -> Seq<TlsMode> {
    seq![TlsMode::TLS, TlsMode::STARTTLS]
}

impl TlsMode {
    /// The port this variant uses when none is configured.
    pub fn default_port(self) -> (r: u16)
        ensures
            r == spec_default_port(self),
    {
        match self {
            TlsMode::TLS => submissions_port(),
            TlsMode::STARTTLS => submission_port(),
        }
    }
}

/// What negotiation needs to reach and log in to the mail server.
pub struct TransportConfig {
    pub host: String,
    /// An explicit port; without one each variant uses its default.
    pub port: Option<u16>,
    pub username: String,
    pub password: String,
    /// A connect timeout in seconds; without one the transport's default holds.
    pub connect_timeout_secs: Option<u64>,
}

/// Host, username and password are all present.
pub open spec fn config_complete(config: TransportConfig) -> bool {
    &&& config.host@.len() > 0
    &&& config.username@.len() > 0
    &&& config.password@.len() > 0
}

/// The port that a variant connects to under `config`.
pub open spec fn spec_resolved_port(config: TransportConfig, mode: TlsMode) -> u16 {
    match config.port {
        Some(p) => p,
        None => spec_default_port(mode),
    }
}

/// The timeout that a probe carries: only a positive one is applied.
pub open spec fn spec_probe_timeout(config: TransportConfig) -> Option<u64> {
    match config.connect_timeout_secs {
        Some(t) => if t > 0 {
            Some(t)
        } else {
            None
        },
        None => None,
    }
}

/// Whether host, username and password are all non-empty, as negotiation
/// requires before it tries anything.
pub fn config_is_complete(config: &TransportConfig) -> (r: bool)
    ensures
        r == config_complete(*config),
{
    !config.host.as_str().is_empty() && !config.username.as_str().is_empty()
        && !config.password.as_str().is_empty()
}

/// Everything one connection attempt needs: a session descriptor for one
/// variant, with its resolved port, credentials and optional timeout.
pub struct ProbeRequest {
    pub mode: TlsMode,
    pub host: String,
    pub port: u16,
    pub username: String,
    pub password: String,
    pub timeout_secs: Option<u64>,
}

/// `req` is the attempt of variant `mode` under `config`.
pub open spec fn is_probe_for(req: ProbeRequest, config: TransportConfig, mode: TlsMode) -> bool {
    &&& req.mode == mode
    &&& req.host@ == config.host@
    &&& req.port == spec_resolved_port(config, mode)
    &&& req.username@ == config.username@
    &&& req.password@ == config.password@
    &&& req.timeout_secs == spec_probe_timeout(config)
}

/// Describes the attempt of one variant: the configured port, else the
/// variant's default; the credentials; the timeout when it is positive.
pub fn probe_request(config: &TransportConfig, mode: TlsMode) -> (r: ProbeRequest)
    ensures
        is_probe_for(r, *config, mode),
{
    let port = match config.port {
        Some(p) => p,
        None => mode.default_port(),
    };
    let timeout_secs = match config.connect_timeout_secs {
        Some(t) => if t > 0 {
            Some(t)
        } else {
            None
        },
        None => None,
    };
    ProbeRequest {
        mode,
        host: config.host.clone(),
        port,
        username: config.username.clone(),
        password: config.password.clone(),
        timeout_secs,
    }
}

/// What one connection attempt reported.
#[derive(Debug, Clone, Copy, PartialEq, Eq, Structural)]
pub enum ProbeOutcome {
    /// The server confirmed an authenticated session.
    Established,
    /// The connection worked but the server did not confirm.
    NotConfirmed,
    /// The attempt failed at the transport level.
    TransportError,
}

/// Where a negotiation stands.
#[derive(Debug, Clone, Copy, PartialEq, Eq, Structural)]
pub enum NegotiationState {
    NotStarted,
    /// An attempt of this variant is outstanding.
    Trying(TlsMode),
    /// This variant gave a session; nothing more is tried.
    Established(TlsMode),
    Failed(NegotiationError),
}

/// The state after `outcome` arrives for the attempt of `mode`.
pub open spec fn next_state(mode: TlsMode, outcome: ProbeOutcome) -> NegotiationState {
    if outcome == ProbeOutcome::Established {
        NegotiationState::Established(mode)
    } else {
        match mode {
            TlsMode::TLS => NegotiationState::Trying(TlsMode::STARTTLS),
            TlsMode::STARTTLS => NegotiationState::Failed(NegotiationError::AllTransportsFailed),
        }
    }
}

/// Drives the variants in their fixed order, one attempt at a time: the
/// caller performs each attempt it is handed and reports the outcome back.
/// The first success ends it; when every variant has failed it fails with
/// `AllTransportsFailed`. An incomplete configuration fails with
/// `ConfigInvalid` before any attempt.
pub struct Negotiator {
    pub state: NegotiationState,
}

impl Negotiator {
    pub fn new() -> (r: Negotiator)
        ensures
            r.state == NegotiationState::NotStarted,
    {
        Negotiator { state: NegotiationState::NotStarted }
    }

    /// Checks the configuration and hands out the first attempt. Outside the
    /// `NotStarted` state nothing changes and no attempt is handed out.
    pub fn start(&mut self, config: &TransportConfig) -> (r: Option<ProbeRequest>)
        ensures
            old(self).state != NegotiationState::NotStarted ==> {
                &&& final(self).state == old(self).state
                &&& r is None
            },
            old(self).state == NegotiationState::NotStarted && !config_complete(*config) ==> {
                &&& final(self).state == NegotiationState::Failed(NegotiationError::ConfigInvalid)
                &&& r is None
            },
            old(self).state == NegotiationState::NotStarted && config_complete(*config) ==> {
                &&& final(self).state == NegotiationState::Trying(TlsMode::TLS)
                &&& r is Some
                &&& is_probe_for(r->0, *config, TlsMode::TLS)
            },
    {
        if self.state != NegotiationState::NotStarted {
            return None;
        }
        if !config_is_complete(config) {
            self.state = NegotiationState::Failed(NegotiationError::ConfigInvalid);
            return None;
        }
        self.state = NegotiationState::Trying(TlsMode::TLS);
        Some(probe_request(config, TlsMode::TLS))
    }

    /// Takes the outcome of the outstanding attempt: a success ends the
    /// negotiation, a failure moves to the next variant (handed out) or, after
    /// the last one, to `AllTransportsFailed`. Without an outstanding attempt
    /// nothing changes.
    pub fn on_outcome(&mut self, config: &TransportConfig, outcome: ProbeOutcome) -> (r: Option<ProbeRequest>)
        ensures
            !(old(self).state is Trying) ==> {
                &&& final(self).state == old(self).state
                &&& r is None
            },
            old(self).state is Trying ==> {
                &&& final(self).state == next_state(old(self).state->Trying_0, outcome)
                &&& final(self).state is Trying ==> r is Some && is_probe_for(
                    r->0,
                    *config,
                    final(self).state->Trying_0,
                )
                &&& !(final(self).state is Trying) ==> r is None
            },
    {
        match self.state {
            NegotiationState::Trying(mode) => {
                if outcome == ProbeOutcome::Established {
                    self.state = NegotiationState::Established(mode);
                    None
                } else {
                    match mode {
                        TlsMode::TLS => {
                            self.state = NegotiationState::Trying(TlsMode::STARTTLS);
                            Some(probe_request(config, TlsMode::STARTTLS))
                        },
                        TlsMode::STARTTLS => {
                            self.state = NegotiationState::Failed(
                                NegotiationError::AllTransportsFailed,
                            );
                            None
                        },
                    }
                }
            },
            _ => None,
        }
    }

    /// The final verdict, once the negotiation has ended.
    pub fn result(&self) -> (r: Option<Result<TlsMode, NegotiationError>>)
        ensures
            self.state is Established ==> r == Some(
                Ok::<TlsMode, NegotiationError>(self.state->Established_0),
            ),
            self.state is Failed ==> r == Some(Err::<TlsMode, NegotiationError>(self.state->Failed_0)),
            self.state is NotStarted || self.state is Trying ==> r is None,
    {
        match self.state {
            NegotiationState::Established(mode) => Some(Ok(mode)),
            NegotiationState::Failed(e) => Some(Err(e)),
            _ => None,
        }
    }
}

/// A scripted answer for each variant, standing for a probe whose outcome is
/// fixed in advance.
#[derive(Debug, Clone, Copy, PartialEq, Eq, Structural)]
pub struct ProbeScript {
    pub tls: ProbeOutcome,
    pub starttls: ProbeOutcome,
}

/// A whole negotiation: its verdict and the variants attempted, in order.
pub struct NegotiationRun {
    pub result: Result<TlsMode, NegotiationError>,
    pub attempts: Vec<TlsMode>,
}

/// Runs a `Negotiator` to its end, answering each attempt from `script`.
///
/// An incomplete configuration fails with `ConfigInvalid` and no attempt.
/// Otherwise the variants are attempted in the order `TLS`, `STARTTLS`; the
/// first one answered `Established` is the result and ends the run, and when
/// neither is, the run fails with `AllTransportsFailed` after both attempts.
pub fn negotiate(config: &TransportConfig, script: ProbeScript) -> (r: NegotiationRun)
    ensures
        !config_complete(*config) ==> {
            &&& r.result == Err::<TlsMode, NegotiationError>(NegotiationError::ConfigInvalid)
            &&& r.attempts@ == Seq::<TlsMode>::empty()
        },
        config_complete(*config) && script.tls == ProbeOutcome::Established ==> {
            &&& r.result == Ok::<TlsMode, NegotiationError>(TlsMode::TLS)
            &&& r.attempts@ == seq![TlsMode::TLS]
        },
        config_complete(*config) && script.tls != ProbeOutcome::Established
            && script.starttls == ProbeOutcome::Established ==> {
            &&& r.result == Ok::<TlsMode, NegotiationError>(TlsMode::STARTTLS)
            &&& r.attempts@ == variant_order()
        },
        config_complete(*config) && script.tls != ProbeOutcome::Established
            && script.starttls != ProbeOutcome::Established ==> {
            &&& r.result == Err::<TlsMode, NegotiationError>(NegotiationError::AllTransportsFailed)
            &&& r.attempts@ == variant_order()
        },
{
    let mut negotiator = Negotiator::new();
    let mut attempts: Vec<TlsMode> = Vec::new();
    let mut next = negotiator.start(config);
    while next.is_some()
        invariant
            next is Some <==> negotiator.state is Trying,
            next is Some ==> next->0.mode == negotiator.state->Trying_0,
            !config_complete(*config) ==> negotiator.state == NegotiationState::Failed(
                NegotiationError::ConfigInvalid,
            ) && attempts@.len() == 0,
            config_complete(*config) ==> {
                ||| negotiator.state == NegotiationState::Trying(TlsMode::TLS) && attempts@.len() == 0
                ||| negotiator.state == NegotiationState::Trying(TlsMode::STARTTLS) && attempts@
                    == seq![TlsMode::TLS] && script.tls != ProbeOutcome::Established
                ||| negotiator.state == NegotiationState::Established(TlsMode::TLS) && attempts@
                    == seq![TlsMode::TLS] && script.tls == ProbeOutcome::Established
                ||| negotiator.state == NegotiationState::Established(TlsMode::STARTTLS) && attempts@
                    == variant_order() && script.tls != ProbeOutcome::Established
                    && script.starttls == ProbeOutcome::Established
                ||| negotiator.state == NegotiationState::Failed(
                    NegotiationError::AllTransportsFailed,
                ) && attempts@ == variant_order() && script.tls != ProbeOutcome::Established
                    && script.starttls != ProbeOutcome::Established
            },
        decreases 2 - attempts@.len(),
    {
        let mode = match &next {
            Some(req) => req.mode,
            None => TlsMode::TLS,
        };
        attempts.push(mode);
        let outcome = match mode {
            TlsMode::TLS => script.tls,
            TlsMode::STARTTLS => script.starttls,
        };
        next = negotiator.on_outcome(config, outcome);
    }
    let result = match negotiator.result() {
        Some(res) => res,
        None => Err(NegotiationError::AllTransportsFailed),
    };
    NegotiationRun { result, attempts }
}

} // verus!
