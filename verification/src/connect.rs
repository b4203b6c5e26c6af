//! Connection establishment: destination validation, the literal-IP
//! short circuit, resolution, the Happy Eyeballs race, and the
//! post-connect socket options.
//!
//! `HttpConnector::connect` validates the destination and yields an
//! `HttpConnecting` state machine. A driver advances the machine with
//! events and performs its directives: resolving the host, dialing,
//! checking the fallback timer, and applying socket options to the
//! connected transport.

use vstd::prelude::*;

use crate::addr::AddressList;
use crate::addr::HostIp;
use crate::addr::SockAddr;
use crate::dialer::DialOutcome;
use crate::error::ConnectError;
use crate::error::InvalidUrl;
use crate::error::IoError;
use crate::eyeballs::Branch;
use crate::eyeballs::Directive;
use crate::eyeballs::HappyEyeballs;
use crate::eyeballs::RaceEvent;
use crate::eyeballs::RaceModel;
use crate::ip::literal_ip_of;
use crate::ip::parse_ip_literal;

verus! {

/// The scheme of a destination, as far as validation reads it.
#[derive(Clone, Copy, PartialEq, Eq, Structural, Debug)]
pub enum UriScheme {
    Http,
    Https,
    Other,
}

/// A destination to connect to: what validation and establishment
/// read of a request URI.
pub struct Destination {
    /// The URI's scheme, when it has one.
    pub scheme: Option<UriScheme>,
    /// The host, as its text's bytes, when the URI has one.
    pub host: Option<Vec<u8>>,
    /// The explicit port, when the URI names one.
    pub port: Option<u16>,
}

/// Transport metadata attached to an established connection.
#[derive(Clone, Copy, PartialEq, Eq, Structural, Debug)]
pub struct HttpInfo {
    /// The remote address the winning dial connected to.
    pub remote_addr: SockAddr,
}

impl HttpInfo {
    /// The remote address of the transport used.
    pub fn remote_addr(&self) -> (r: SockAddr)
        ensures
            r == self.remote_addr,
    {
        self.remote_addr
    }
}

/// What the establishment machine asks the driver to do, or how it
/// ended.
#[derive(Clone, Copy, PartialEq, Eq, Structural, Debug)]
pub enum EstabDirective {
    /// Resolve the host (see [`HttpConnecting::host`]) and report the
    /// addresses or the failure.
    Resolve,
    /// Make sure a dial to this address is in flight on this branch,
    /// poll it once, and report the outcome.
    Dial(Branch, SockAddr),
    /// Poll the fallback timer and report whether it has elapsed.
    CheckTimer,
    /// Apply the configured socket options to the connected socket,
    /// in the configured order, and report.
    ApplyOptions(SockAddr),
    /// Terminal: the connection is established, with this metadata.
    Ready(HttpInfo),
    /// Terminal: establishment failed.
    Fail(ConnectError),
    /// Nothing can progress now; yield, and poll again later.
    Suspend,
}

/// What the driver observed for the last directive.
pub enum EstabEvent {
    /// A fresh poll: the first one, or one after a `Suspend`.
    Poll,
    /// The resolver produced these addresses, in order.
    Resolved(Vec<HostIp>),
    /// The resolver failed.
    ResolveFailed(IoError),
    /// The outcome of the dial the last directive asked about.
    Dial(DialOutcome),
    /// The fallback timer has elapsed.
    TimerFired,
    /// The fallback timer has not elapsed yet.
    TimerPending,
    /// Every configured socket option was applied.
    OptionsApplied,
    /// Applying a socket option failed.
    OptionsFailed(IoError),
}

/// The establishment phase, mathematically.
pub enum EstabStateModel {
    Lazy,
    Resolving,
    Connecting(RaceModel),
    Finishing(Branch, SockAddr),
    Error(ConnectError),
    Done,
}

/// The machine's mathematical state: the phase plus what the
/// transitions read of the configuration.
pub struct EstabModel {
    pub state: EstabStateModel,
    pub host: Seq<u8>,
    pub port: u16,
    pub timeout_ms: Option<u64>,
    pub local_addr: Option<HostIp>,
    pub keep_alive_ms: Option<u64>,
    pub nodelay: bool,
    pub reuse_address: bool,
    pub send_buffer_size: Option<usize>,
    pub recv_buffer_size: Option<usize>,
}

/// The establishment phase.
enum EstabState {
    Lazy,
    Resolving,
    Connecting(HappyEyeballs),
    Finishing(Branch, SockAddr),
    Error(ConnectError),
    Done,
}

/// One establishment attempt in progress, with its configuration.
pub struct HttpConnecting {
    state: EstabState,
    /// The destination host, as its text's bytes.
    pub host: Vec<u8>,
    /// The destination port.
    pub port: u16,
    /// The local address dials bind to, when configured.
    pub local_addr: Option<HostIp>,
    /// The fallback timeout of the Happy Eyeballs race; `None`
    /// disables racing.
    pub happy_eyeballs_timeout_ms: Option<u64>,
    /// `SO_KEEPALIVE` duration to set on the connected socket.
    pub keep_alive_ms: Option<u64>,
    /// `TCP_NODELAY` value to set on the connected socket.
    pub nodelay: bool,
    /// Whether dials set `SO_REUSEADDR`.
    pub reuse_address: bool,
    /// `SO_SNDBUF` to set on the connected socket, when configured.
    pub send_buffer_size: Option<usize>,
    /// `SO_RCVBUF` to set on the connected socket, when configured.
    pub recv_buffer_size: Option<usize>,
}

impl View for HttpConnecting {
    type V = EstabModel;

    closed spec fn view(&self) -> EstabModel {
        EstabModel {
            state: match self.state {
                EstabState::Lazy => EstabStateModel::Lazy,
                EstabState::Resolving => EstabStateModel::Resolving,
                EstabState::Connecting(r) => EstabStateModel::Connecting(r@),
                EstabState::Finishing(b, a) => EstabStateModel::Finishing(b, a),
                EstabState::Error(e) => EstabStateModel::Error(e),
                EstabState::Done => EstabStateModel::Done,
            },
            host: self.host@,
            port: self.port,
            timeout_ms: self.happy_eyeballs_timeout_ms,
            local_addr: self.local_addr,
            keep_alive_ms: self.keep_alive_ms,
            nodelay: self.nodelay,
            reuse_address: self.reuse_address,
            send_buffer_size: self.send_buffer_size,
            recv_buffer_size: self.recv_buffer_size,
        }
    }
}

impl HttpConnecting {
    /// Internal consistency of an in-progress race.
    pub closed spec fn wf(self) -> bool {
        match self.state {
            EstabState::Connecting(r) => r.wf(),
            _ => true,
        }
    }

    /// The race event an establishment event stands for.
    pub open spec fn race_event_of(ev: EstabEvent) -> RaceEvent {
        match ev {
            EstabEvent::Poll => RaceEvent::Resume,
            EstabEvent::Dial(oc) => RaceEvent::Dial(oc),
            EstabEvent::TimerFired => RaceEvent::TimerFired,
            EstabEvent::TimerPending => RaceEvent::TimerPending,
            _ => RaceEvent::Resume,
        }
    }

    /// Which events the machine can consume in this state.
    pub open spec fn accepts(m: EstabModel, ev: EstabEvent) -> bool {
        match m.state {
            EstabStateModel::Lazy => ev is Poll,
            EstabStateModel::Resolving => ev is Resolved || ev is ResolveFailed,
            EstabStateModel::Connecting(rm) => (ev is Poll || ev is Dial || ev is TimerFired
                || ev is TimerPending) && HappyEyeballs::accepts(rm, Self::race_event_of(ev)),
            EstabStateModel::Finishing(_, _) => ev is OptionsApplied || ev is OptionsFailed,
            EstabStateModel::Error(_) => ev is Poll,
            EstabStateModel::Done => false,
        }
    }

    /// The state invariant the transitions preserve.
    pub open spec fn inv(m: EstabModel) -> bool {
        match m.state {
            EstabStateModel::Connecting(rm) => HappyEyeballs::inv(rm),
            _ => true,
        }
    }

    /// How one race step lands in the machine: terminal race
    /// directives become option application or failure; the rest
    /// pass through.
    pub open spec fn race_step_spec(rm: RaceModel, ev: RaceEvent) -> (
        EstabStateModel,
        EstabDirective,
    ) {
        let (rm2, rd) = HappyEyeballs::advance_spec(rm, ev);
        match rd {
            Directive::Dial(b, a) => (EstabStateModel::Connecting(rm2), EstabDirective::Dial(b, a)),
            Directive::CheckTimer => (EstabStateModel::Connecting(rm2), EstabDirective::CheckTimer),
            Directive::Suspend => (EstabStateModel::Connecting(rm2), EstabDirective::Suspend),
            Directive::Connected(b, a) => (
                EstabStateModel::Finishing(b, a),
                EstabDirective::ApplyOptions(a),
            ),
            Directive::Failed(e) => (EstabStateModel::Done, EstabDirective::Fail(e)),
        }
    }

    /// Entering the race over a batch of addresses: set it up and
    /// take its first step.
    pub open spec fn enter_race_spec(s: Seq<SockAddr>, timeout_ms: Option<u64>) -> (
        EstabStateModel,
        EstabDirective,
    ) {
        Self::race_step_spec(HappyEyeballs::init_spec(s, timeout_ms), RaceEvent::Begin)
    }

    /// The full transition: one event in, one directive out. Only the
    /// phase changes; the configuration is read-only.
    pub open spec fn advance_spec(m: EstabModel, ev: EstabEvent) -> (EstabStateModel, EstabDirective) {
        match m.state {
            EstabStateModel::Lazy => match literal_ip_of(m.host) {
                Some(ip) => Self::enter_race_spec(
                    seq![SockAddr { ip, port: m.port }],
                    m.timeout_ms,
                ),
                None => (EstabStateModel::Resolving, EstabDirective::Resolve),
            },
            EstabStateModel::Resolving => match ev {
                EstabEvent::Resolved(ips) => Self::enter_race_spec(
                    ips@.map_values(|ip: HostIp| SockAddr { ip, port: m.port }),
                    m.timeout_ms,
                ),
                _ => (
                    EstabStateModel::Done,
                    EstabDirective::Fail(
                        ConnectError::Resolve(
                            match ev {
                                EstabEvent::ResolveFailed(e) => e,
                                _ => IoError { code: 0 },
                            },
                        ),
                    ),
                ),
            },
            EstabStateModel::Connecting(rm) => Self::race_step_spec(rm, Self::race_event_of(ev)),
            EstabStateModel::Finishing(b, a) => match ev {
                EstabEvent::OptionsFailed(e) => (
                    EstabStateModel::Done,
                    EstabDirective::Fail(ConnectError::SocketOption(e)),
                ),
                _ => (
                    EstabStateModel::Done,
                    EstabDirective::Ready(HttpInfo { remote_addr: a }),
                ),
            },
            EstabStateModel::Error(e) => (EstabStateModel::Done, EstabDirective::Fail(e)),
            EstabStateModel::Done => (EstabStateModel::Done, EstabDirective::Suspend),
        }
    }

    /// Consume the event the last directive asked for and return the
    /// next directive.
    pub fn advance(&mut self, ev: EstabEvent) -> (d: EstabDirective)
        requires
            old(self).wf(),
            Self::inv(old(self)@),
            Self::accepts(old(self)@, ev),
        ensures
            final(self).wf(),
            Self::inv(final(self)@),
            (final(self)@.state, d) == Self::advance_spec(old(self)@, ev),
            final(self)@ == (EstabModel { state: final(self)@.state, ..old(self)@ }),
    {
        proof {
            Self::lemma_estab_inv_preserved(old(self)@, ev);
        }
        match ev {
            EstabEvent::Poll => match &mut self.state {
                EstabState::Lazy => {
                    let lit = parse_ip_literal(self.host.as_slice());
                    match lit {
                        Some(ip) => {
                            let mut batch: Vec<SockAddr> = Vec::new();
                            batch.push(SockAddr { ip, port: self.port });
                            proof {
                                assert(batch@ =~= seq![
                                    SockAddr { ip, port: self.port },
                                ]);
                            }
                            self.enter_race(batch)
                        },
                        None => {
                            self.state = EstabState::Resolving;
                            EstabDirective::Resolve
                        },
                    }
                },
                EstabState::Connecting(race) => {
                    let rd = race.advance(RaceEvent::Resume);
                    self.settle_race(rd)
                },
                EstabState::Error(e) => {
                    let err = *e;
                    self.state = EstabState::Done;
                    EstabDirective::Fail(err)
                },
                _ => EstabDirective::Suspend,  // ruled out by `accepts`
            },
            EstabEvent::Resolved(ips) => {
                let mut batch: Vec<SockAddr> = Vec::new();
                let mut i: usize = 0;
                let ghost f = |ip: HostIp| SockAddr { ip, port: self.port };
                while i < ips.len()
                    invariant
                        i <= ips@.len(),
                        f == (|ip: HostIp| SockAddr { ip, port: self.port }),
                        batch@ == ips@.take(i as int).map_values(f),
                    decreases ips@.len() - i,
                {
                    batch.push(SockAddr { ip: ips[i], port: self.port });
                    proof {
                        assert(batch@ =~= ips@.take(i + 1).map_values(f));
                    }
                    i = i + 1;
                }
                proof {
                    assert(ips@.take(i as int) =~= ips@);
                }
                self.enter_race(batch)
            },
            EstabEvent::ResolveFailed(e) => {
                self.state = EstabState::Done;
                EstabDirective::Fail(ConnectError::Resolve(e))
            },
            EstabEvent::Dial(oc) => match &mut self.state {
                EstabState::Connecting(race) => {
                    let rd = race.advance(RaceEvent::Dial(oc));
                    self.settle_race(rd)
                },
                _ => EstabDirective::Suspend,  // ruled out by `accepts`
            },
            EstabEvent::TimerFired => match &mut self.state {
                EstabState::Connecting(race) => {
                    let rd = race.advance(RaceEvent::TimerFired);
                    self.settle_race(rd)
                },
                _ => EstabDirective::Suspend,  // ruled out by `accepts`
            },
            EstabEvent::TimerPending => match &mut self.state {
                EstabState::Connecting(race) => {
                    let rd = race.advance(RaceEvent::TimerPending);
                    self.settle_race(rd)
                },
                _ => EstabDirective::Suspend,  // ruled out by `accepts`
            },
            EstabEvent::OptionsApplied => match &self.state {
                EstabState::Finishing(_, a) => {
                    let info = HttpInfo { remote_addr: *a };
                    self.state = EstabState::Done;
                    EstabDirective::Ready(info)
                },
                _ => EstabDirective::Suspend,  // ruled out by `accepts`
            },
            EstabEvent::OptionsFailed(e) => {
                self.state = EstabState::Done;
                EstabDirective::Fail(ConnectError::SocketOption(e))
            },
        }
    }

    /// Set up the race over a fresh batch and take its first step.
    fn enter_race(&mut self, batch: Vec<SockAddr>) -> (d: EstabDirective)
        ensures
            final(self).wf(),
            (final(self)@.state, d) == Self::enter_race_spec(
                batch@,
                old(self).happy_eyeballs_timeout_ms,
            ),
            final(self)@ == (EstabModel { state: final(self)@.state, ..old(self)@ }),
    {
        let mut race = HappyEyeballs::new(AddressList::new(batch), self.happy_eyeballs_timeout_ms);
        let rd = race.advance(RaceEvent::Begin);
        self.state = EstabState::Connecting(race);
        self.settle_race(rd)
    }

    /// Land one race directive in the machine; the race itself is
    /// already stored in the `Connecting` state.
    fn settle_race(&mut self, rd: Directive) -> (d: EstabDirective)
        requires
            old(self).wf(),
            old(self).state is Connecting,
        ensures
            final(self).wf(),
            ({
                let prior = match old(self).state {
                    EstabState::Connecting(r) => EstabStateModel::Connecting(r@),
                    _ => EstabStateModel::Done,
                };
                (final(self)@.state, d) == (match rd {
                    Directive::Dial(b, a) => (prior, EstabDirective::Dial(b, a)),
                    Directive::CheckTimer => (prior, EstabDirective::CheckTimer),
                    Directive::Suspend => (prior, EstabDirective::Suspend),
                    Directive::Connected(b, a) => (
                        EstabStateModel::Finishing(b, a),
                        EstabDirective::ApplyOptions(a),
                    ),
                    Directive::Failed(e) => (EstabStateModel::Done, EstabDirective::Fail(e)),
                })
            }),
            final(self)@ == (EstabModel { state: final(self)@.state, ..old(self)@ }),
    {
        match rd {
            Directive::Dial(b, a) => EstabDirective::Dial(b, a),
            Directive::CheckTimer => EstabDirective::CheckTimer,
            Directive::Suspend => EstabDirective::Suspend,
            Directive::Connected(b, a) => {
                self.state = EstabState::Finishing(b, a);
                EstabDirective::ApplyOptions(a)
            },
            Directive::Failed(e) => {
                self.state = EstabState::Done;
                EstabDirective::Fail(e)
            },
        }
    }
    /// Law (literal-IP short circuit): the machine asks for
    /// resolution exactly when it is in the initial state and the
    /// host is not a literal IP; a literal-IP destination never
    /// invokes the resolver, on this step or any later one, since no
    /// step leads back to the initial or resolving state.
    pub proof fn lemma_resolve_needs_nonliteral(m: EstabModel, ev: EstabEvent)
        ensures
            Self::advance_spec(m, ev).1 is Resolve <==> (m.state is Lazy && literal_ip_of(m.host)
                is None),
            Self::advance_spec(m, ev).0 is Resolving ==> m.state is Lazy,
            !(Self::advance_spec(m, ev).0 is Lazy),
    {
    }

    /// Law (one terminal outcome): a step ends establishment exactly
    /// when it reports readiness or failure, and a finished machine
    /// accepts no further event - the outcome is delivered exactly
    /// once.
    pub proof fn lemma_one_terminal(m: EstabModel, ev: EstabEvent)
        requires
            Self::inv(m),
            Self::accepts(m, ev),
        ensures
            ({
                let (st, d) = Self::advance_spec(m, ev);
                &&& ((d is Ready || d is Fail) <==> st is Done)
                &&& (st is Done ==> forall|e2: EstabEvent|
                    !Self::accepts(EstabModel { state: st, ..m }, e2))
            }),
    {
    }

    /// The machine after a run of events; the configuration never
    /// changes, only the phase.
    pub open spec fn run_spec(m: EstabModel, evs: Seq<EstabEvent>) -> EstabModel
        decreases evs.len(),
    {
        if evs.len() == 0 {
            m
        } else {
            Self::run_spec(
                EstabModel { state: Self::advance_spec(m, evs[0]).0, ..m },
                evs.skip(1),
            )
        }
    }

    /// Whether any step of the run asks the driver to resolve.
    pub open spec fn run_emits_resolve(m: EstabModel, evs: Seq<EstabEvent>) -> bool
        decreases evs.len(),
    {
        evs.len() > 0 && (Self::advance_spec(m, evs[0]).1 is Resolve || Self::run_emits_resolve(
            EstabModel { state: Self::advance_spec(m, evs[0]).0, ..m },
            evs.skip(1),
        ))
    }

    /// Law (literal-IP short circuit, over whole runs): a machine
    /// whose host is a literal IP never asks the driver to resolve,
    /// however it is driven from its initial state.
    pub proof fn lemma_literal_never_resolves(m: EstabModel, evs: Seq<EstabEvent>)
        requires
            m.state is Lazy ==> literal_ip_of(m.host) is Some,
            !(m.state is Resolving),
        ensures
            !Self::run_emits_resolve(m, evs),
        decreases evs.len(),
    {
        if evs.len() > 0 {
            Self::lemma_resolve_needs_nonliteral(m, evs[0]);
            Self::lemma_literal_never_resolves(
                EstabModel { state: Self::advance_spec(m, evs[0]).0, ..m },
                evs.skip(1),
            );
        }
    }

    /// Law: the state invariant holds after any accepted step.
    pub proof fn lemma_estab_inv_preserved(m: EstabModel, ev: EstabEvent)
        requires
            Self::inv(m),
            Self::accepts(m, ev),
        ensures
            Self::inv(
                EstabModel { state: Self::advance_spec(m, ev).0, ..m },
            ),
    {
        match m.state {
            EstabStateModel::Lazy => {
                if literal_ip_of(m.host) is Some {
                    let s = seq![
                        SockAddr { ip: literal_ip_of(m.host).unwrap(), port: m.port },
                    ];
                    let rm0 = HappyEyeballs::init_spec(s, m.timeout_ms);
                    HappyEyeballs::lemma_inv_preserved(rm0, RaceEvent::Begin);
                }
            },
            EstabStateModel::Resolving => {
                match ev {
                    EstabEvent::Resolved(ips) => {
                        let s = ips@.map_values(|ip: HostIp| SockAddr { ip, port: m.port });
                        let rm0 = HappyEyeballs::init_spec(s, m.timeout_ms);
                        HappyEyeballs::lemma_inv_preserved(rm0, RaceEvent::Begin);
                    },
                    _ => {},
                }
            },
            EstabStateModel::Connecting(rm) => {
                HappyEyeballs::lemma_inv_preserved(rm, Self::race_event_of(ev));
            },
            _ => {},
        }
    }
}

/// Rejection of a malformed destination, before any I/O: with
/// enforcement every scheme but `http` is refused; without it only a
/// destination with no scheme at all; a destination without a host is
/// always refused.
pub open spec fn reject_spec(enforce: bool, scheme: Option<UriScheme>, has_host: bool) -> Option<
    InvalidUrl,
> {
    if enforce && scheme != Some(UriScheme::Http) {
        Some(InvalidUrl::NotHttp)
    } else if !enforce && scheme is None {
        Some(InvalidUrl::MissingScheme)
    } else if !has_host {
        Some(InvalidUrl::MissingAuthority)
    } else {
        None
    }
}

/// The port establishment uses: the explicit one, else 443 for
/// `https`, else 80.
pub open spec fn port_spec(scheme: Option<UriScheme>, port: Option<u16>) -> u16 {
    match port {
        Some(p) => p,
        None => if scheme == Some(UriScheme::Https) {
            443
        } else {
            80
        },
    }
}

/// A connector for the `http` scheme: the configuration every
/// establishment starts from. `R` carries the resolver capability the
/// driver resolves with; this machine never touches it.
pub struct HttpConnector<R> {
    /// Reject destinations whose scheme is not `http`.
    pub enforce_http: bool,
    /// The Happy Eyeballs fallback timeout; `None` disables racing.
    pub happy_eyeballs_timeout_ms: Option<u64>,
    /// `SO_KEEPALIVE` duration for connected sockets.
    pub keep_alive_ms: Option<u64>,
    /// The local address dials bind to, when configured.
    pub local_address: Option<HostIp>,
    /// `TCP_NODELAY` value for connected sockets.
    pub nodelay: bool,
    /// The resolver capability, handed to the driver.
    pub resolver: R,
    /// Whether dials set `SO_REUSEADDR`.
    pub reuse_address: bool,
    /// `SO_SNDBUF` for connected sockets, when configured.
    pub send_buffer_size: Option<usize>,
    /// `SO_RCVBUF` for connected sockets, when configured.
    pub recv_buffer_size: Option<usize>,
}

impl<R> HttpConnector<R> {
    /// Construct a connector around a resolver capability, with the
    /// defaults: scheme enforcement on, a 300 ms fallback timeout,
    /// and no socket options.
    pub fn new_with_resolver(resolver: R) -> (r: HttpConnector<R>)
        ensures
            r.enforce_http == true,
            r.happy_eyeballs_timeout_ms == Some(300u64),
            r.keep_alive_ms is None,
            r.local_address is None,
            r.nodelay == false,
            r.reuse_address == false,
            r.send_buffer_size is None,
            r.recv_buffer_size is None,
    {
        HttpConnector {
            enforce_http: true,
            happy_eyeballs_timeout_ms: Some(300),
            keep_alive_ms: None,
            local_address: None,
            nodelay: false,
            resolver,
            reuse_address: false,
            send_buffer_size: None,
            recv_buffer_size: None,
        }
    }

    /// Option to enforce all destinations have the `http` scheme.
    pub fn enforce_http(&mut self, is_enforced: bool)
        ensures
            *final(self) == (HttpConnector { enforce_http: is_enforced, ..*old(self) }),
    {
        self.enforce_http = is_enforced;
    }

    /// Set `SO_KEEPALIVE` with the supplied duration, in
    /// milliseconds; `None` leaves the option unset.
    pub fn set_keepalive(&mut self, dur_ms: Option<u64>)
        ensures
            *final(self) == (HttpConnector { keep_alive_ms: dur_ms, ..*old(self) }),
    {
        self.keep_alive_ms = dur_ms;
    }

    /// Set `TCP_NODELAY` to the supplied value.
    pub fn set_nodelay(&mut self, nodelay: bool)
        ensures
            *final(self) == (HttpConnector { nodelay, ..*old(self) }),
    {
        self.nodelay = nodelay;
    }

    /// Set the value of the `SO_SNDBUF` option on connected sockets.
    pub fn set_send_buffer_size(&mut self, size: Option<usize>)
        ensures
            *final(self) == (HttpConnector { send_buffer_size: size, ..*old(self) }),
    {
        self.send_buffer_size = size;
    }

    /// Set the value of the `SO_RCVBUF` option on connected sockets.
    pub fn set_recv_buffer_size(&mut self, size: Option<usize>)
        ensures
            *final(self) == (HttpConnector { recv_buffer_size: size, ..*old(self) }),
    {
        self.recv_buffer_size = size;
    }

    /// Bind every dial to this local address before connecting;
    /// `None` leaves sockets unbound.
    pub fn set_local_address(&mut self, addr: Option<HostIp>)
        ensures
            *final(self) == (HttpConnector { local_address: addr, ..*old(self) }),
    {
        self.local_address = addr;
    }

    /// Set the RFC 6555 (Happy Eyeballs) fallback timeout, in
    /// milliseconds; `None` disables the parallel attempt.
    pub fn set_happy_eyeballs_timeout(&mut self, dur_ms: Option<u64>)
        ensures
            *final(self) == (HttpConnector { happy_eyeballs_timeout_ms: dur_ms, ..*old(self) }),
    {
        self.happy_eyeballs_timeout_ms = dur_ms;
    }

    /// Set `SO_REUSEADDR` on every dialed socket.
    pub fn set_reuse_address(&mut self, reuse_address: bool) -> (r: &mut Self)
        ensures
            *r == (HttpConnector { reuse_address, ..*old(self) }),
            *final(self) == *final(r),
    {
        self.reuse_address = reuse_address;
        self
    }

    /// Validate the destination and begin an establishment attempt:
    /// a malformed destination yields a machine that fails with the
    /// matching invalid-input error before any I/O; otherwise the
    /// machine starts lazy, with the destination's host, its port (or
    /// the scheme's default), and this connector's configuration.
    pub fn connect(&self, dst: Destination) -> (r: HttpConnecting)
        ensures
            r.wf(),
            HttpConnecting::inv(r@),
            ({
                match reject_spec(self.enforce_http, dst.scheme, dst.host is Some) {
                    Some(e) => r@.state == EstabStateModel::Error(ConnectError::Invalid(e)),
                    None => {
                        &&& r@.state is Lazy
                        &&& r@.host == (match dst.host {
                            Some(h) => h@,
                            None => Seq::<u8>::empty(),
                        })
                        &&& r@.port == port_spec(dst.scheme, dst.port)
                        &&& r@.timeout_ms == self.happy_eyeballs_timeout_ms
                        &&& r@.local_addr == self.local_address
                        &&& r@.keep_alive_ms == self.keep_alive_ms
                        &&& r@.nodelay == self.nodelay
                        &&& r@.reuse_address == self.reuse_address
                        &&& r@.send_buffer_size == self.send_buffer_size
                        &&& r@.recv_buffer_size == self.recv_buffer_size
                    },
                }
            }),
    {
        if self.enforce_http {
            if !matches!(dst.scheme, Some(UriScheme::Http)) {
                return invalid_url(InvalidUrl::NotHttp);
            }
        } else if dst.scheme.is_none() {
            return invalid_url(InvalidUrl::MissingScheme);
        }
        let host = match dst.host {
            Some(h) => h,
            None => {
                return invalid_url(InvalidUrl::MissingAuthority);
            },
        };
        let port = match dst.port {
            Some(p) => p,
            None => {
                if matches!(dst.scheme, Some(UriScheme::Https)) {
                    443
                } else {
                    80
                }
            },
        };
        HttpConnecting {
            state: EstabState::Lazy,
            host,
            port,
            local_addr: self.local_address,
            happy_eyeballs_timeout_ms: self.happy_eyeballs_timeout_ms,
            keep_alive_ms: self.keep_alive_ms,
            nodelay: self.nodelay,
            reuse_address: self.reuse_address,
            send_buffer_size: self.send_buffer_size,
            recv_buffer_size: self.recv_buffer_size,
        }
    }
}

/// The machine a malformed destination yields: it surfaces the
/// invalid-input error on its first poll and touches nothing else.
fn invalid_url(err: InvalidUrl) -> (r: HttpConnecting)
    ensures
        r.wf(),
        HttpConnecting::inv(r@),
        r@.state == EstabStateModel::Error(ConnectError::Invalid(err)),
{
    HttpConnecting {
        state: EstabState::Error(ConnectError::Invalid(err)),
        host: Vec::new(),
        port: 0,
        local_addr: None,
        happy_eyeballs_timeout_ms: None,
        keep_alive_ms: None,
        nodelay: false,
        reuse_address: false,
        send_buffer_size: None,
        recv_buffer_size: None,
    }
}

} // verus!
