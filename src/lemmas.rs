//! Facts about whole runs of the session state machine.
use vstd::prelude::*;
use crate::session::{next, run, Action, Endpoint, Event, Phase, Role, Session};

verus! {

/// Whether an action touches the stream.
pub open spec fn is_stream_io(a: Action) -> bool {
    a == Action::Read || a == Action::Write
}

/// Every read or write in `acts` comes after a fresh stream was asked for.
pub open spec fn io_only_on_fresh_stream(acts: Seq<Action>) -> bool {
    forall|i: int|
        0 <= i < acts.len() && is_stream_io(#[trigger] acts[i]) ==> exists|j: int|
            0 <= j < i && acts[j] == Action::OpenStream
}

/// Phases in which no stream is open.
pub open spec fn streamless(p: Phase) -> bool {
    p == Phase::Idle || p == Phase::Joining || p == Phase::LinkPending
}

proof fn lemma_io_only_after_open(t: Session, evs: Seq<Event>)
    requires
        streamless(t.phase),
    ensures
        io_only_on_fresh_stream(run(t, evs).1),
    decreases evs.len(),
{
    if evs.len() > 0 {
        let (t1, a1) = next(t, evs[0]);
        let rest = run(t1, evs.drop_first());
        let acts = run(t, evs).1;
        assert(acts == a1 + rest.1);
        assert(forall|i: int| 0 <= i < a1.len() ==> !is_stream_io(#[trigger] a1[i]));
        if streamless(t1.phase) {
            lemma_io_only_after_open(t1, evs.drop_first());
            assert forall|i: int| 0 <= i < acts.len() && is_stream_io(#[trigger] acts[i]) implies exists|j: int|
                0 <= j < i && acts[j] == Action::OpenStream by {
                let i2 = i - a1.len();
                assert(rest.1[i2] == acts[i]);
                let j2 = choose|j: int| 0 <= j < i2 && rest.1[j] == Action::OpenStream;
                assert(acts[j2 + a1.len()] == Action::OpenStream);
            }
        } else {
            assert(a1[0] == Action::OpenStream);
            assert forall|i: int| 0 <= i < acts.len() && is_stream_io(#[trigger] acts[i]) implies exists|j: int|
                0 <= j < i && acts[j] == Action::OpenStream by {
                assert(acts[0] == Action::OpenStream);
            }
        }
    }
}

/// Once a write on a live stream fails, whatever events follow, no read and
/// no write is asked for until a brand-new stream has been asked for.
pub proof fn lemma_no_io_after_write_failure(s: Session, evs: Seq<Event>)
    requires
        s.phase == Phase::Connected,
    ensures
        io_only_on_fresh_stream(run(s, seq![Event::WriteFailed] + evs).1),
{
    let all = seq![Event::WriteFailed] + evs;
    assert(all.drop_first() =~= evs);
    let (t1, a1) = next(s, Event::WriteFailed);
    let rest = run(t1, evs);
    let acts = run(s, all).1;
    assert(acts == a1 + rest.1);
    match s.config.role {
        Role::Listener => {
            assert(acts[1] == Action::OpenStream);
            assert forall|i: int| 0 <= i < acts.len() && is_stream_io(#[trigger] acts[i]) implies exists|j: int|
                0 <= j < i && acts[j] == Action::OpenStream by {
                assert(i >= 2);
            }
        },
        Role::Connector => {
            lemma_io_only_after_open(t1, evs);
            assert forall|i: int| 0 <= i < acts.len() && is_stream_io(#[trigger] acts[i]) implies exists|j: int|
                0 <= j < i && acts[j] == Action::OpenStream by {
                let i2 = i - 3;
                assert(rest.1[i2] == acts[i]);
                let j2 = choose|j: int| 0 <= j < i2 && rest.1[j] == Action::OpenStream;
                assert(acts[j2 + 3] == Action::OpenStream);
            }
        },
    }
}

/// A zero-length read on a live alert connection ends it exactly once: the
/// indicator goes off, the node leaves and rejoins the network once, and no
/// alert is rendered.
pub proof fn lemma_zero_read_reconnects_once(s: Session, now: u64)
    requires
        s.config.role == Role::Connector,
        s.phase == Phase::Connected,
        !s.rendering,
    ensures
        next(s, Event::Received(0, now)).0.phase == Phase::Joining,
        next(s, Event::Received(0, now)).0.limiter == s.limiter,
        next(s, Event::Received(0, now)).1 == seq![Action::SetIndicator(false), Action::Leave, Action::Join],
        !next(s, Event::Received(0, now)).1.contains(Action::Render),
{
    let acts = next(s, Event::Received(0, now)).1;
    assert(acts[0] != Action::Render && acts[1] != Action::Render && acts[2] != Action::Render);
}

/// `n` failed connect attempts followed by one that succeeds.
pub open spec fn failures_then_success(n: nat) -> Seq<Event> {
    Seq::new(n, |i: int| Event::OpenFailed).push(Event::Opened)
}

/// `n` retries, each a delay followed by a new attempt to dial `peer`.
pub open spec fn retries(n: nat, delay: u64, peer: Endpoint) -> Seq<Action>
    decreases n,
{
    if n == 0 {
        Seq::empty()
    } else {
        seq![Action::Delay(delay), Action::Connect(peer)] + retries((n - 1) as nat, delay, peer)
    }
}

/// Whether the give-up policy still allows `n` more failures after `failures`.
pub open spec fn allows_failures(max: Option<u64>, failures: u64, n: nat) -> bool {
    match max {
        None => true,
        Some(m) => failures + n < m,
    }
}

proof fn lemma_retry_until_connected(s: Session, n: nat)
    requires
        s.config.role == Role::Connector,
        s.phase == Phase::Connecting,
        allows_failures(s.config.max_connect_failures, s.connect_failures, n),
    ensures
        run(s, failures_then_success(n)).0.phase == Phase::Connected,
        run(s, failures_then_success(n)).1 == retries(n, s.config.retry_delay_ms, s.config.peer)
            + seq![Action::SetIndicator(true), Action::Read],
    decreases n,
{
    let evs = failures_then_success(n);
    if n == 0 {
        assert(evs =~= seq![Event::Opened]);
        assert(evs.drop_first() =~= Seq::<Event>::empty());
        let (t1, a1) = next(s, Event::Opened);
        assert(run(t1, Seq::<Event>::empty()) == (t1, Seq::<Action>::empty()));
        assert(a1 + Seq::<Action>::empty() =~= a1);
        assert(t1.phase == Phase::Connected);
        assert(retries(0, s.config.retry_delay_ms, s.config.peer) + seq![Action::SetIndicator(true), Action::Read]
            =~= seq![Action::SetIndicator(true), Action::Read]);
    } else {
        assert(evs[0] == Event::OpenFailed);
        assert(evs.drop_first() =~= failures_then_success((n - 1) as nat));
        let (t1, a1) = next(s, Event::OpenFailed);
        assert(t1.config == s.config);
        lemma_retry_until_connected(t1, (n - 1) as nat);
        assert(a1 == seq![Action::Delay(s.config.retry_delay_ms), Action::Connect(s.config.peer)]);
        assert(run(s, evs) == (run(t1, failures_then_success((n - 1) as nat)).0,
            a1 + run(t1, failures_then_success((n - 1) as nat)).1));
        let tail = seq![Action::SetIndicator(true), Action::Read];
        let more = retries((n - 1) as nat, s.config.retry_delay_ms, s.config.peer);
        assert(a1 + (more + tail) =~= (a1 + more) + tail);
    }
}

/// Once the link is up, a connecting node whose dial fails `n` times and then
/// succeeds asks for exactly `n` retries, each after the fixed delay, before
/// it is connected; the give-up policy must allow `n` failures.
pub proof fn lemma_connect_convergence(s: Session, n: nat)
    requires
        s.config.role == Role::Connector,
        s.phase == Phase::LinkPending,
        allows_failures(s.config.max_connect_failures, 0, n),
    ensures
        run(s, seq![Event::LinkUp] + failures_then_success(n)).0.phase == Phase::Connected,
        run(s, seq![Event::LinkUp] + failures_then_success(n)).1 == seq![Action::OpenStream, Action::Connect(s.config.peer)]
            + retries(n, s.config.retry_delay_ms, s.config.peer)
            + seq![Action::SetIndicator(true), Action::Read],
{
    let evs = seq![Event::LinkUp] + failures_then_success(n);
    assert(evs.drop_first() =~= failures_then_success(n));
    let (t1, a1) = next(s, Event::LinkUp);
    lemma_retry_until_connected(t1, n);
    let tail = seq![Action::SetIndicator(true), Action::Read];
    let more = retries(n, s.config.retry_delay_ms, s.config.peer);
    assert(a1 + (more + tail) =~= (a1 + more) + tail);
}

/// At most one alert render is in flight: a render is asked for only when
/// none is in progress, and the session then records one as in progress.
pub proof fn lemma_single_render_in_flight(s: Session, ev: Event)
    ensures
        next(s, ev).1.contains(Action::Render) ==> !s.rendering && next(s, ev).0.rendering,
{
    let acts = next(s, ev).1;
    if acts.contains(Action::Render) {
        let i = choose|i: int| 0 <= i < acts.len() && acts[i] == Action::Render;
    }
}

} // verus!
