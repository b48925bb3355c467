//! The session state machine of a node: association, transport, and the
//! dispatch or receive loop of a live connection.
//!
//! The firmware owns the radio, the stream and the outputs. It hands each
//! outcome to [`Session::handle`] as an [`Event`] and performs the
//! [`Action`]s that come back, in order; the last action of each answer is
//! the one whose outcome is the next event.
use vstd::prelude::*;
use crate::gate::{admits, IntervalGate};

verus! {

/// Milliseconds the connecting node waits before dialing again.
pub const CONNECT_RETRY_DELAY_MS: u64 = 1000;
/// Minimum milliseconds between two notifications, and between two alerts.
pub const MIN_ALERT_INTERVAL_MS: u64 = 5000;
/// Seconds of silence after which a stream read fails.
pub const IDLE_TIMEOUT_SECS: u64 = 20;
/// Seconds between keep-alive probes on an idle stream.
pub const KEEP_ALIVE_SECS: u64 = 10;
/// The port that the sensor node listens on.
pub const SENSOR_PORT: u16 = 1234;

/// An IPv4 address and a port.
#[derive(Clone, Copy, Debug, PartialEq, Eq, Structural)]
pub struct Endpoint {
    pub a: u8,
    pub b: u8,
    pub c: u8,
    pub d: u8,
    pub port: u16,
}

/// The sensor node's link-local endpoint, which the alert node dials.
pub fn sensor_endpoint() -> (r: Endpoint)
    ensures
        r == (Endpoint { a: 169, b: 254, c: 1, d: 1, port: SENSOR_PORT }),
{
    Endpoint { a: 169, b: 254, c: 1, d: 1, port: SENSOR_PORT }
}

/// The alert node's link-local endpoint.
pub fn alert_endpoint() -> (r: Endpoint)
    ensures
        r == (Endpoint { a: 169, b: 254, c: 1, d: 2, port: SENSOR_PORT }),
{
    Endpoint { a: 169, b: 254, c: 1, d: 2, port: SENSOR_PORT }
}

/// The bytes that the sensor node writes for each notification. Only their
/// presence matters to the receiver.
pub fn notification_payload() -> (r: Vec<u8>)
    ensures
        r@ == seq![104u8, 105u8, 103u8, 104u8, 10u8],
{
    vec![104u8, 105u8, 103u8, 104u8, 10u8]
}

/// Which side of the link a node is.
#[derive(Clone, Copy, Debug, PartialEq, Eq, Structural)]
pub enum Role {
    /// The sensor node: hosts the network and accepts the connection.
    Listener,
    /// The alert node: joins the network and dials the sensor node.
    Connector,
}

/// Where a session stands.
#[derive(Clone, Copy, Debug, PartialEq, Eq, Structural)]
pub enum Phase {
    Idle,
    Joining,
    LinkPending,
    Listening,
    Connecting,
    Connected,
}

/// What the firmware reports back.
#[derive(Clone, Copy, Debug, PartialEq, Eq)]
pub enum Event {
    /// The node has booted.
    Start,
    /// The network was joined (or, on the listener, brought up).
    Joined,
    /// Joining the network failed.
    JoinFailed,
    /// The link layer is up.
    LinkUp,
    /// An accept or a connect on the stream failed.
    OpenFailed,
    /// The stream is connected.
    Opened,
    /// A rising edge on the trigger input, at this time in milliseconds.
    Edge(u64),
    /// The notification was written.
    Written,
    /// A write on the stream failed.
    WriteFailed,
    /// A read returned this many bytes, at this time in milliseconds.
    Received(usize, u64),
    /// A read failed or timed out.
    ReadFailed,
    /// The alert renderer returned, successfully or not.
    Rendered,
}

/// What the firmware is asked to do.
#[derive(Clone, Copy, Debug, PartialEq, Eq)]
pub enum Action {
    /// Drive the status indicator: `true` while connected.
    SetIndicator(bool),
    /// Leave the current association.
    Leave,
    /// Join the network (on the listener: bring it up).
    Join,
    /// Wait until the link layer is up.
    WaitLinkUp,
    /// Drop any previous stream and build a fresh one with the idle timeout
    /// and the keep-alive interval set.
    OpenStream,
    /// Accept a connection on this port.
    Accept(u16),
    /// Dial this endpoint.
    Connect(Endpoint),
    /// Sleep this many milliseconds.
    Delay(u64),
    /// Wait for a rising edge on the trigger input.
    WaitEdge,
    /// Write the notification payload on the stream.
    Write,
    /// Read from the stream.
    Read,
    /// Render the alert.
    Render,
}

/// Fixed parameters of a session.
#[derive(Clone, Copy, Debug, PartialEq, Eq)]
pub struct SessionConfig {
    pub role: Role,
    /// Port to accept on (listener).
    pub listen_port: u16,
    /// Endpoint to dial (connector).
    pub peer: Endpoint,
    /// Milliseconds between two connect attempts.
    pub retry_delay_ms: u64,
    /// Consecutive connect failures after which the connector gives up on the
    /// transport and rejoins the network; `None` retries forever.
    pub max_connect_failures: Option<u64>,
    /// Minimum interval of the trigger debouncer and of the alert rate limiter.
    pub min_interval_ms: u64,
    /// Whether the debouncer and the rate limiter start afresh with every
    /// connection rather than once per process.
    pub window_per_session: bool,
}

/// The state of one node.
#[derive(Clone, Copy, Debug, PartialEq, Eq)]
pub struct Session {
    pub config: SessionConfig,
    pub phase: Phase,
    /// Whether an alert render is in progress.
    pub rendering: bool,
    /// Consecutive failed connect attempts in the current `Connecting` phase.
    pub connect_failures: u64,
    pub debounce: IntervalGate,
    pub limiter: IntervalGate,
}

/// The actions that lead from a torn-down stream to a new one.
pub open spec fn teardown(s: Session) -> (Session, Seq<Action>) {
    match s.config.role {
        Role::Listener => (
            Session { phase: Phase::Listening, rendering: false, ..s },
            seq![Action::SetIndicator(false), Action::OpenStream, Action::Accept(s.config.listen_port)],
        ),
        Role::Connector => (
            Session { phase: Phase::Joining, rendering: false, ..s },
            seq![Action::SetIndicator(false), Action::Leave, Action::Join],
        ),
    }
}

/// The gates as a new connection finds them.
pub open spec fn on_connect(s: Session) -> Session {
    if s.config.window_per_session {
        Session {
            phase: Phase::Connected,
            rendering: false,
            debounce: IntervalGate { last: None, ..s.debounce },
            limiter: IntervalGate { last: None, ..s.limiter },
            ..s
        }
    } else {
        Session { phase: Phase::Connected, rendering: false, ..s }
    }
}

/// The first action of a live connection.
pub open spec fn live_action(role: Role) -> Action {
    match role {
        Role::Listener => Action::WaitEdge,
        Role::Connector => Action::Read,
    }
}

/// Whether the connector has used up its connect attempts.
pub open spec fn gives_up(max: Option<u64>, failures: int) -> bool {
    match max {
        None => false,
        Some(m) => failures >= m,
    }
}

/// The transition table: the next state and the actions, in order, for an
/// event. An event that does not belong to the current phase changes nothing
/// and asks for nothing.
pub open spec fn next(s: Session, ev: Event) -> (Session, Seq<Action>) {
    let role = s.config.role;
    match (s.phase, ev) {
        (Phase::Idle, Event::Start) => (
            Session { phase: Phase::Joining, ..s },
            seq![Action::SetIndicator(false), Action::Join],
        ),
        (Phase::Joining, Event::JoinFailed) => (s, seq![Action::Join]),
        (Phase::Joining, Event::Joined) => (
            Session { phase: Phase::LinkPending, ..s },
            seq![Action::WaitLinkUp],
        ),
        (Phase::LinkPending, Event::LinkUp) => match role {
            Role::Listener => (
                Session { phase: Phase::Listening, ..s },
                seq![Action::OpenStream, Action::Accept(s.config.listen_port)],
            ),
            Role::Connector => (
                Session { phase: Phase::Connecting, connect_failures: 0, ..s },
                seq![Action::OpenStream, Action::Connect(s.config.peer)],
            ),
        },
        (Phase::Listening, Event::OpenFailed) => (
            s,
            seq![Action::OpenStream, Action::Accept(s.config.listen_port)],
        ),
        (Phase::Connecting, Event::OpenFailed) => {
            let failures = s.connect_failures + 1;
            if gives_up(s.config.max_connect_failures, failures) {
                (
                    Session { phase: Phase::Joining, connect_failures: 0, ..s },
                    seq![Action::Leave, Action::Join],
                )
            } else {
                (
                    Session {
                        connect_failures: if failures <= u64::MAX { failures as u64 } else { u64::MAX },
                        ..s
                    },
                    seq![Action::Delay(s.config.retry_delay_ms), Action::Connect(s.config.peer)],
                )
            }
        },
        (Phase::Listening, Event::Opened) | (Phase::Connecting, Event::Opened) => (
            on_connect(s),
            seq![Action::SetIndicator(true), live_action(role)],
        ),
        (Phase::Connected, Event::Edge(now)) => if role == Role::Listener {
            if admits(s.debounce.last, s.debounce.min_interval, now) {
                (
                    Session { debounce: IntervalGate { last: Some(now), ..s.debounce }, ..s },
                    seq![Action::Write],
                )
            } else {
                (s, seq![Action::WaitEdge])
            }
        } else {
            (s, Seq::empty())
        },
        (Phase::Connected, Event::Written) => (s, seq![Action::WaitEdge]),
        (Phase::Connected, Event::WriteFailed) => teardown(s),
        (Phase::Connected, Event::Received(n, now)) => if role == Role::Connector && !s.rendering {
            if n == 0 {
                teardown(s)
            } else if admits(s.limiter.last, s.limiter.min_interval, now) {
                (
                    Session {
                        rendering: true,
                        limiter: IntervalGate { last: Some(now), ..s.limiter },
                        ..s
                    },
                    seq![Action::Render],
                )
            } else {
                (s, seq![Action::Read])
            }
        } else {
            (s, Seq::empty())
        },
        (Phase::Connected, Event::ReadFailed) => teardown(s),
        (Phase::Connected, Event::Rendered) => if s.rendering {
            (Session { rendering: false, ..s }, seq![Action::Read])
        } else {
            (s, Seq::empty())
        },
        _ => (s, Seq::empty()),
    }
}

/// The state reached and every action asked for, in order, when the events
/// `evs` are handled one after another from `s`.
pub open spec fn run(s: Session, evs: Seq<Event>) -> (Session, Seq<Action>)
    decreases evs.len(),
{
    if evs.len() == 0 {
        (s, Seq::empty())
    } else {
        let (s1, a1) = next(s, evs[0]);
        let (s2, a2) = run(s1, evs.drop_first());
        (s2, a1 + a2)
    }
}

/// The sensor node's settings: it listens on the well-known port and its
/// debounce window starts afresh with each connection.
pub fn sensor_config() -> (r: SessionConfig)
    ensures
        r.role == Role::Listener,
        r.listen_port == SENSOR_PORT,
        r.peer == (Endpoint { a: 169, b: 254, c: 1, d: 2, port: SENSOR_PORT }),
        r.retry_delay_ms == CONNECT_RETRY_DELAY_MS,
        r.max_connect_failures == None::<u64>,
        r.min_interval_ms == MIN_ALERT_INTERVAL_MS,
        r.window_per_session,
{
    SessionConfig {
        role: Role::Listener,
        listen_port: SENSOR_PORT,
        peer: alert_endpoint(),
        retry_delay_ms: CONNECT_RETRY_DELAY_MS,
        max_connect_failures: None,
        min_interval_ms: MIN_ALERT_INTERVAL_MS,
        window_per_session: true,
    }
}

/// The alert node's settings: it dials the sensor node, retries forever
/// with a fixed delay, and rate-limits alerts over the process lifetime.
pub fn alert_config() -> (r: SessionConfig)
    ensures
        r.role == Role::Connector,
        r.listen_port == SENSOR_PORT,
        r.peer == (Endpoint { a: 169, b: 254, c: 1, d: 1, port: SENSOR_PORT }),
        r.retry_delay_ms == CONNECT_RETRY_DELAY_MS,
        r.max_connect_failures == None::<u64>,
        r.min_interval_ms == MIN_ALERT_INTERVAL_MS,
        !r.window_per_session,
{
    SessionConfig {
        role: Role::Connector,
        listen_port: SENSOR_PORT,
        peer: sensor_endpoint(),
        retry_delay_ms: CONNECT_RETRY_DELAY_MS,
        max_connect_failures: None,
        min_interval_ms: MIN_ALERT_INTERVAL_MS,
        window_per_session: false,
    }
}

impl Session {
    /// A render is in flight only on a live alert connection.
    pub open spec fn wf(self) -> bool {
        self.rendering ==> self.phase == Phase::Connected && self.config.role == Role::Connector
    }

    /// A session that has not started: idle, with fresh gates.
    pub fn new(config: SessionConfig) -> (r: Session)
        ensures
            r.wf(),
            r.config == config,
            r.phase == Phase::Idle,
            !r.rendering,
            r.connect_failures == 0,
            r.debounce == (IntervalGate { last: None, min_interval: config.min_interval_ms }),
            r.limiter == (IntervalGate { last: None, min_interval: config.min_interval_ms }),
    {
        Session {
            config,
            phase: Phase::Idle,
            rendering: false,
            connect_failures: 0,
            debounce: IntervalGate::new(config.min_interval_ms),
            limiter: IntervalGate::new(config.min_interval_ms),
        }
    }

    /// Whether the stream is connected, as the status indicator shows it.
    pub fn is_connected(&self) -> (r: bool)
        ensures
            r == (self.phase == Phase::Connected),
    {
        self.phase == Phase::Connected
    }

    fn tear_down(&mut self) -> (r: Vec<Action>)
        requires
            old(self).phase == Phase::Connected,
        ensures
            (*final(self), r@) == teardown(*old(self)),
    {
        self.rendering = false;
        match self.config.role {
            Role::Listener => {
                self.phase = Phase::Listening;
                vec![Action::SetIndicator(false), Action::OpenStream, Action::Accept(self.config.listen_port)]
            },
            Role::Connector => {
                self.phase = Phase::Joining;
                vec![Action::SetIndicator(false), Action::Leave, Action::Join]
            },
        }
    }

    /// Takes one event and answers with the actions to perform, in order, as
    /// the transition table `next` gives them.
    pub fn handle(&mut self, ev: Event) -> (r: Vec<Action>)
        ensures
            (*final(self), r@) == next(*old(self), ev),
            old(self).wf() ==> final(self).wf(),
    {
        let role = self.config.role;
        match (self.phase, ev) {
            (Phase::Idle, Event::Start) => {
                self.phase = Phase::Joining;
                vec![Action::SetIndicator(false), Action::Join]
            },
            (Phase::Joining, Event::JoinFailed) => vec![Action::Join],
            (Phase::Joining, Event::Joined) => {
                self.phase = Phase::LinkPending;
                vec![Action::WaitLinkUp]
            },
            (Phase::LinkPending, Event::LinkUp) => match role {
                Role::Listener => {
                    self.phase = Phase::Listening;
                    vec![Action::OpenStream, Action::Accept(self.config.listen_port)]
                },
                Role::Connector => {
                    self.phase = Phase::Connecting;
                    self.connect_failures = 0;
                    vec![Action::OpenStream, Action::Connect(self.config.peer)]
                },
            },
            (Phase::Listening, Event::OpenFailed) => {
                vec![Action::OpenStream, Action::Accept(self.config.listen_port)]
            },
            (Phase::Connecting, Event::OpenFailed) => {
                let failures: u64 = if self.connect_failures < u64::MAX {
                    self.connect_failures + 1
                } else {
                    u64::MAX
                };
                let give_up = match self.config.max_connect_failures {
                    None => false,
                    Some(m) => self.connect_failures >= m || failures >= m,
                };
                if give_up {
                    self.phase = Phase::Joining;
                    self.connect_failures = 0;
                    vec![Action::Leave, Action::Join]
                } else {
                    self.connect_failures = failures;
                    vec![Action::Delay(self.config.retry_delay_ms), Action::Connect(self.config.peer)]
                }
            },
            (Phase::Listening, Event::Opened) | (Phase::Connecting, Event::Opened) => {
                self.phase = Phase::Connected;
                self.rendering = false;
                if self.config.window_per_session {
                    self.debounce.reset();
                    self.limiter.reset();
                }
                let live = match role {
                    Role::Listener => Action::WaitEdge,
                    Role::Connector => Action::Read,
                };
                vec![Action::SetIndicator(true), live]
            },
            (Phase::Connected, Event::Edge(now)) => {
                if role == Role::Listener {
                    if self.debounce.try_pass(now) {
                        vec![Action::Write]
                    } else {
                        vec![Action::WaitEdge]
                    }
                } else {
                    Vec::new()
                }
            },
            (Phase::Connected, Event::Written) => vec![Action::WaitEdge],
            (Phase::Connected, Event::WriteFailed) => self.tear_down(),
            (Phase::Connected, Event::Received(n, now)) => {
                if role == Role::Connector && !self.rendering {
                    if n == 0 {
                        self.tear_down()
                    } else if self.limiter.try_pass(now) {
                        self.rendering = true;
                        vec![Action::Render]
                    } else {
                        vec![Action::Read]
                    }
                } else {
                    Vec::new()
                }
            },
            (Phase::Connected, Event::ReadFailed) => self.tear_down(),
            (Phase::Connected, Event::Rendered) => {
                if self.rendering {
                    self.rendering = false;
                    vec![Action::Read]
                } else {
                    Vec::new()
                }
            },
            _ => Vec::new(),
        }
    }
}

} // verus!
