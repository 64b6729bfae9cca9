//! The relay engine's reconnect state machine.
//!
//! Each side of the bridge runs one engine forever: it discovers the serial
//! device (the serial side only), connects, relays until the epoch's first
//! transport failure, sleeps a fixed backoff, and starts over. The engine
//! decides; performing the discovery, the connection, the relaying and the
//! sleep is the surrounding process's work. The machine has no terminal
//! state: every failure leads to backoff and every backoff leads back to a
//! fresh attempt.

use vstd::prelude::*;

verus! {

/// Where the engine stands in its reconnect cycle.
#[derive(Clone, Copy, Debug, PartialEq, Eq, Structural)]
pub enum RelayState {
    /// Enumerating ports and resolving the configured device (serial side only).
    Discovering,
    /// Opening the serial device, or performing the WebSocket handshake.
    Connecting,
    /// Both forwarding directions of a live epoch are active.
    Relaying,
    /// Sleeping the fixed delay before the next attempt.
    Backoff,
}

/// What the surrounding process reports back to the engine.
#[derive(Clone, Copy, Debug, PartialEq, Eq, Structural)]
pub enum RelayEvent {
    /// The configured device was found among the enumerated ports.
    DiscoverSucceeded,
    /// Enumeration failed, found no ports, or the configured device is absent.
    DiscoverFailed,
    /// The device opened, or the handshake completed.
    ConnectSucceeded,
    /// The open or the handshake failed.
    ConnectFailed,
    /// A forwarding direction of the live epoch failed; the epoch is over.
    TransportFailed,
    /// The backoff delay has elapsed.
    BackoffElapsed,
}

/// What the surrounding process is to do next.
#[derive(Clone, Copy, Debug, PartialEq, Eq, Structural)]
pub enum RelayAction {
    /// Enumerate the ports and resolve the configured device.
    Discover,
    /// Open the device, or perform the handshake.
    Connect,
    /// Run both forwarding directions until one fails.
    Relay,
    /// Sleep the fixed backoff delay.
    Sleep,
}

/// The next state: failures in discovery, connection or relaying lead to
/// backoff, successes advance the cycle, and an elapsed backoff starts the
/// next attempt, at discovery on the side that discovers its device and at
/// connection on the other. An event that does not belong to the current
/// state changes nothing.
pub open spec fn spec_step(discovers: bool, s: RelayState, e: RelayEvent) -> RelayState {
    match (s, e) {
        (RelayState::Discovering, RelayEvent::DiscoverSucceeded) => RelayState::Connecting,
        (RelayState::Discovering, RelayEvent::DiscoverFailed) => RelayState::Backoff,
        (RelayState::Connecting, RelayEvent::ConnectSucceeded) => RelayState::Relaying,
        (RelayState::Connecting, RelayEvent::ConnectFailed) => RelayState::Backoff,
        (RelayState::Relaying, RelayEvent::TransportFailed) => RelayState::Backoff,
        (RelayState::Backoff, RelayEvent::BackoffElapsed) => if discovers {
            RelayState::Discovering
        } else {
            RelayState::Connecting
        },
        _ => s,
    }
}

/// The work each state asks of the surrounding process.
pub open spec fn spec_action(s: RelayState) -> RelayAction {
    match s {
        RelayState::Discovering => RelayAction::Discover,
        RelayState::Connecting => RelayAction::Connect,
        RelayState::Relaying => RelayAction::Relay,
        RelayState::Backoff => RelayAction::Sleep,
    }
}

/// The state after running the machine over a whole sequence of events.
pub open spec fn spec_run(discovers: bool, s: RelayState, events: Seq<RelayEvent>) -> RelayState
    decreases events.len(),
{
    if events.len() == 0 {
        s
    } else {
        spec_run(discovers, spec_step(discovers, s, events[0]), events.drop_first())
    }
}

/// How many steps of the run land in the backoff state, that is, how many
/// backoff intervals the run sleeps.
pub open spec fn spec_backoffs(discovers: bool, s: RelayState, events: Seq<RelayEvent>) -> nat
    decreases events.len(),
{
    if events.len() == 0 {
        0
    } else {
        let s2 = spec_step(discovers, s, events[0]);
        (if s2 is Backoff {
            1nat
        } else {
            0nat
        }) + spec_backoffs(discovers, s2, events.drop_first())
    }
}

/// The state an engine starts in: the side that discovers its device starts
/// by discovering, the other by connecting.
pub open spec fn start_state(discovers: bool) -> RelayState {
    if discovers {
        RelayState::Discovering
    } else {
        RelayState::Connecting
    }
}

/// One failed attempt and the backoff after it, as the surrounding process
/// reports it: the attempt fails at its first step, then the backoff elapses.
pub open spec fn failed_attempt(discovers: bool) -> Seq<RelayEvent> {
    if discovers {
        seq![RelayEvent::DiscoverFailed, RelayEvent::BackoffElapsed]
    } else {
        seq![RelayEvent::ConnectFailed, RelayEvent::BackoffElapsed]
    }
}

/// `n` failed attempts in a row, each followed by its backoff.
pub open spec fn failed_attempts(discovers: bool, n: nat) -> Seq<RelayEvent>
    decreases n,
{
    if n == 0 {
        Seq::<RelayEvent>::empty()
    } else {
        failed_attempt(discovers) + failed_attempts(discovers, (n - 1) as nat)
    }
}

/// One attempt that succeeds throughout: discovery (where the side
/// discovers) and then connection.
pub open spec fn successful_attempt(discovers: bool) -> Seq<RelayEvent> {
    if discovers {
        seq![RelayEvent::DiscoverSucceeded, RelayEvent::ConnectSucceeded]
    } else {
        seq![RelayEvent::ConnectSucceeded]
    }
}

/// One engine: whether its side discovers its device, and where it stands.
pub struct RelayEngine {
    pub discovers: bool,
    pub state: RelayState,
}

impl RelayEngine {
    /// The engine of the side that owns the serial device and must first
    /// discover it.
    pub fn new_serial() -> (r: RelayEngine)
        ensures
            r.discovers,
            r.state == start_state(true),
    {
        RelayEngine { discovers: true, state: RelayState::Discovering }
    }

    /// The engine of the side that owns the WebSocket connection, whose
    /// endpoint is configured rather than discovered.
    pub fn new_socket() -> (r: RelayEngine)
        ensures
            !r.discovers,
            r.state == start_state(false),
    {
        RelayEngine { discovers: false, state: RelayState::Connecting }
    }

    /// The work the engine's current state asks of the surrounding process.
    pub fn next_action(&self) -> (a: RelayAction)
        ensures
            a == spec_action(self.state),
    {
        match self.state {
            RelayState::Discovering => RelayAction::Discover,
            RelayState::Connecting => RelayAction::Connect,
            RelayState::Relaying => RelayAction::Relay,
            RelayState::Backoff => RelayAction::Sleep,
        }
    }

    /// Advances the machine by one reported event and says what to do next.
    pub fn on_event(&mut self, e: RelayEvent) -> (a: RelayAction)
        ensures
            final(self).discovers == old(self).discovers,
            final(self).state == spec_step(old(self).discovers, old(self).state, e),
            a == spec_action(final(self).state),
    {
        let next = match (self.state, e) {
            (RelayState::Discovering, RelayEvent::DiscoverSucceeded) => RelayState::Connecting,
            (RelayState::Discovering, RelayEvent::DiscoverFailed) => RelayState::Backoff,
            (RelayState::Connecting, RelayEvent::ConnectSucceeded) => RelayState::Relaying,
            (RelayState::Connecting, RelayEvent::ConnectFailed) => RelayState::Backoff,
            (RelayState::Relaying, RelayEvent::TransportFailed) => RelayState::Backoff,
            (RelayState::Backoff, RelayEvent::BackoffElapsed) => if self.discovers {
                RelayState::Discovering
            } else {
                RelayState::Connecting
            },
            (s, _) => s,
        };
        self.state = next;
        self.next_action()
    }
}

/// Running the machine over one event sequence and then another is running
/// it over their concatenation.
pub proof fn lemma_run_append(discovers: bool, s: RelayState, a: Seq<RelayEvent>, b: Seq<
    RelayEvent,
>)
    ensures
        spec_run(discovers, s, a + b) == spec_run(discovers, spec_run(discovers, s, a), b),
    decreases a.len(),
{
    if a.len() == 0 {
        assert(a + b =~= b);
    } else {
        assert((a + b).drop_first() =~= a.drop_first() + b);
        lemma_run_append(discovers, spec_step(discovers, s, a[0]), a.drop_first(), b);
    }
}

/// Backoff intervals add up over a concatenation of event sequences.
pub proof fn lemma_backoffs_append(discovers: bool, s: RelayState, a: Seq<RelayEvent>, b: Seq<
    RelayEvent,
>)
    ensures
        spec_backoffs(discovers, s, a + b) == spec_backoffs(discovers, s, a) + spec_backoffs(
            discovers,
            spec_run(discovers, s, a),
            b,
        ),
    decreases a.len(),
{
    if a.len() == 0 {
        assert(a + b =~= b);
    } else {
        assert((a + b).drop_first() =~= a.drop_first() + b);
        lemma_backoffs_append(discovers, spec_step(discovers, s, a[0]), a.drop_first(), b);
    }
}

/// One failed attempt puts the engine back where it started and sleeps
/// exactly one backoff interval.
pub proof fn lemma_failed_attempt(discovers: bool)
    ensures
        spec_run(discovers, start_state(discovers), failed_attempt(discovers)) == start_state(
            discovers,
        ),
        spec_backoffs(discovers, start_state(discovers), failed_attempt(discovers)) == 1,
{
    reveal_with_fuel(spec_run, 3);
    reveal_with_fuel(spec_backoffs, 3);
    let a = failed_attempt(discovers);
    assert(a.drop_first() =~= seq![RelayEvent::BackoffElapsed]);
    assert(a.drop_first().drop_first() =~= Seq::<RelayEvent>::empty());
}

/// Reconnect liveness: when the first `n` attempts fail and the next one
/// succeeds, the engine reaches the relaying state, and it has slept
/// exactly `n` backoff intervals on the way — recovery costs one interval
/// per failure and nothing more.
pub proof fn lemma_reconnect_liveness(discovers: bool, n: nat)
    ensures
        spec_run(
            discovers,
            start_state(discovers),
            failed_attempts(discovers, n) + successful_attempt(discovers),
        ) == RelayState::Relaying,
        spec_backoffs(
            discovers,
            start_state(discovers),
            failed_attempts(discovers, n) + successful_attempt(discovers),
        ) == n,
    decreases n,
{
    let start = start_state(discovers);
    let win = successful_attempt(discovers);
    if n == 0 {
        reveal_with_fuel(spec_run, 3);
        reveal_with_fuel(spec_backoffs, 3);
        assert(failed_attempts(discovers, 0) + win =~= win);
        if discovers {
            assert(win.drop_first() =~= seq![RelayEvent::ConnectSucceeded]);
            assert(win.drop_first().drop_first() =~= Seq::<RelayEvent>::empty());
        } else {
            assert(win.drop_first() =~= Seq::<RelayEvent>::empty());
        }
    } else {
        let cycle = failed_attempt(discovers);
        let rest = failed_attempts(discovers, (n - 1) as nat) + win;
        assert(failed_attempts(discovers, n) + win =~= cycle + rest);
        lemma_run_append(discovers, start, cycle, rest);
        lemma_backoffs_append(discovers, start, cycle, rest);
        lemma_failed_attempt(discovers);
        lemma_reconnect_liveness(discovers, (n - 1) as nat);
    }
}

} // verus!
