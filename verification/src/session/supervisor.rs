//! The reconnect policy of a supervised WebSocket connection: how long to
//! wait after a failure, which state to announce, and when to stop.
use vstd::prelude::*;
use crate::types::ws::ConnectionState;

verus! {

/// `b` to the power `e`.
pub open spec fn power(b: nat, e: nat) -> nat
    decreases e,
{
    if e == 0 {
        1
    } else {
        b * power(b, (e - 1) as nat)
    }
}

/// Powers of a base of at least one grow with the exponent.
pub proof fn lemma_power_monotone(b: nat, i: nat, j: nat)
    requires
        b >= 1,
        i <= j,
    ensures
        power(b, i) <= power(b, j),
    decreases j,
{
    if i < j {
        lemma_power_monotone(b, i, (j - 1) as nat);
        assert(power(b, (j - 1) as nat) <= b * power(b, (j - 1) as nat)) by (nonlinear_arith)
            requires
                b >= 1,
        ;
    }
}

/// Powers add their exponents.
proof fn lemma_power_add(b: nat, i: nat, j: nat)
    ensures
        power(b, i + j) == power(b, i) * power(b, j),
    decreases j,
{
    if j == 0 {
        assert(power(b, i) * 1 == power(b, i)) by (nonlinear_arith);
    } else {
        lemma_power_add(b, i, (j - 1) as nat);
        let x = power(b, i);
        let y = power(b, (j - 1) as nat);
        let z = power(b, (i + j - 1) as nat);
        assert(z == x * y);
        assert(power(b, i + j) == b * z);
        assert(power(b, j) == b * y);
        assert(b * z == x * (b * y)) by (nonlinear_arith)
            requires
                z == x * y,
        ;
    }
}

/// The powers the delays reach: 3^4 and 2^63.
proof fn lemma_power_values()
    ensures
        power(3, 4) == 81,
        power(2, 63) == 0x8000_0000_0000_0000,
{
    reveal_with_fuel(power, 9);
    assert(power(3, 4) == 81);
    assert(power(2, 8) == 256);
    assert(power(2, 7) == 128);
    lemma_power_add(2, 8, 7);
    assert(power(2, 15) == 32768);
    lemma_power_add(2, 8, 8);
    assert(power(2, 16) == 65536);
    lemma_power_add(2, 16, 15);
    assert(power(2, 31) == 0x8000_0000);
    lemma_power_add(2, 16, 16);
    assert(power(2, 32) == 0x1_0000_0000);
    lemma_power_add(2, 32, 31);
    assert(power(2, 63) == 0x8000_0000_0000_0000);
}

/// `b` to the power `e`, when it fits in 64 bits.
fn pow_u64(b: u64, e: u32) -> (r: u64)
    requires
        b >= 1,
        power(b as nat, e as nat) <= u64::MAX,
    ensures
        r == power(b as nat, e as nat),
{
    let mut r: u64 = 1;
    let mut i: u32 = 0;
    while i < e
        invariant
            i <= e,
            b >= 1,
            power(b as nat, e as nat) <= u64::MAX,
            r == power(b as nat, i as nat),
        decreases e - i,
    {
        proof {
            lemma_power_monotone(b as nat, (i + 1) as nat, e as nat);
            assert(power(b as nat, (i + 1) as nat) == b * power(b as nat, i as nat));
            assert(r * b == b * r) by (nonlinear_arith);
        }
        r = r * b;
        i = i + 1;
    }
    r
}

/// Seconds to wait before retrying a failed token refresh, after the
/// `attempts`-th consecutive failure: 3 to the power `attempts`, capped at
/// the fourth power (81 s).
pub open spec fn token_retry_delay(attempts: nat) -> nat {
    power(3, if attempts < 4 { attempts } else { 4 })
}

/// Seconds to wait before reconnecting after the `attempts`-th consecutive
/// failure: 2 to the power `attempts`.
pub open spec fn reconnect_delay(attempts: nat) -> nat {
    power(2, attempts)
}

/// What the supervisor does after an outcome.
#[derive(Debug, Clone, Copy, PartialEq, Eq, Structural)]
pub enum SupervisorStep {
    /// Stop supervising, announcing the state if there is one.
    Exit { announce: Option<ConnectionState> },
    /// Announce the state if there is one, wait, then try again.
    Retry { announce: Option<ConnectionState>, delay_secs: u64 },
}

/// The supervisor's count of consecutive failed attempts.
#[derive(Debug, Clone, Copy, PartialEq, Eq, Structural)]
pub struct Supervisor {
    pub attempts: u32,
}

impl Supervisor {
    /// No failures yet.
    pub fn new() -> (r: Supervisor)
        ensures
            r.attempts == 0,
    {
        Supervisor { attempts: 0 }
    }

    /// A token refresh failed: one more failure; stop when shutting down (or
    /// the command channel is closed), else retry after the token delay.
    pub fn on_token_failure(&mut self, stopping: bool) -> (r: SupervisorStep)
        requires
            old(self).attempts < u32::MAX,
        ensures
            final(self).attempts == old(self).attempts + 1,
            stopping ==> r == (SupervisorStep::Exit { announce: None }),
            !stopping ==> r == (SupervisorStep::Retry {
                announce: None,
                delay_secs: token_retry_delay(final(self).attempts as nat) as u64,
            }),
            r matches SupervisorStep::Retry { delay_secs, .. } ==> 1 <= delay_secs <= 81,
    {
        self.attempts = self.attempts + 1;
        if stopping {
            return SupervisorStep::Exit { announce: None };
        }
        let e: u32 = if self.attempts < 4 { self.attempts } else { 4 };
        proof {
            lemma_power_values();
            lemma_power_monotone(3, e as nat, 4);
            lemma_power_monotone(3, 0, e as nat);
        }
        let d = pow_u64(3, e);
        SupervisorStep::Retry { announce: None, delay_secs: d }
    }

    /// The connection came up: the failures are forgotten and the state is
    /// announced as connected.
    pub fn on_connected(&mut self) -> (r: ConnectionState)
        ensures
            final(self).attempts == 0,
            r == ConnectionState::Connected,
    {
        self.attempts = 0;
        ConnectionState::Connected
    }

    /// The connection ended: cleanly, which stops the supervisor as exited;
    /// with an error while shutting down, which stops it silently; or with an
    /// error otherwise, which announces a disconnection and retries after the
    /// reconnect delay.
    pub fn on_connection_ended(&mut self, clean: bool, stopping: bool) -> (r: SupervisorStep)
        requires
            old(self).attempts < 63,
        ensures
            clean ==> r == (SupervisorStep::Exit { announce: Some(ConnectionState::Exited) }) && final(self).attempts
                == old(self).attempts,
            !clean && stopping ==> r == (SupervisorStep::Exit { announce: None }) && final(self).attempts
                == old(self).attempts,
            !clean && !stopping ==> final(self).attempts == old(self).attempts + 1 && r == (SupervisorStep::Retry {
                announce: Some(ConnectionState::Disconnected),
                delay_secs: reconnect_delay(final(self).attempts as nat) as u64,
            }),
    {
        if clean {
            return SupervisorStep::Exit { announce: Some(ConnectionState::Exited) };
        }
        if stopping {
            return SupervisorStep::Exit { announce: None };
        }
        self.retry_after_failure()
    }

    /// Connecting failed: stop silently when shutting down, else announce a
    /// disconnection and retry after the reconnect delay.
    pub fn on_connect_failed(&mut self, stopping: bool) -> (r: SupervisorStep)
        requires
            old(self).attempts < 63,
        ensures
            stopping ==> r == (SupervisorStep::Exit { announce: None }) && final(self).attempts == old(self).attempts,
            !stopping ==> final(self).attempts == old(self).attempts + 1 && r == (SupervisorStep::Retry {
                announce: Some(ConnectionState::Disconnected),
                delay_secs: reconnect_delay(final(self).attempts as nat) as u64,
            }),
    {
        if stopping {
            return SupervisorStep::Exit { announce: None };
        }
        self.retry_after_failure()
    }

    fn retry_after_failure(&mut self) -> (r: SupervisorStep)
        requires
            old(self).attempts < 63,
        ensures
            final(self).attempts == old(self).attempts + 1,
            r == (SupervisorStep::Retry {
                announce: Some(ConnectionState::Disconnected),
                delay_secs: reconnect_delay(final(self).attempts as nat) as u64,
            }),
    {
        self.attempts = self.attempts + 1;
        proof {
            lemma_power_values();
            lemma_power_monotone(2, self.attempts as nat, 63);
        }
        let d = pow_u64(2, self.attempts);
        SupervisorStep::Retry { announce: Some(ConnectionState::Disconnected), delay_secs: d }
    }
}

/// Each consecutive failure doubles the reconnect delay, and the token retry
/// delay stops growing at 81 s.
pub proof fn lemma_backoff_laws(n: nat)
    ensures
        reconnect_delay(n + 1) == 2 * reconnect_delay(n),
        n >= 4 ==> token_retry_delay(n) == 81,
        token_retry_delay(n) <= 81,
{
    lemma_power_values();
    if n < 4 {
        lemma_power_monotone(3, n, 4);
    }
}

/// What a state watcher does with a state it received: report it when it
/// differs from the last one reported (and remember it), else keep waiting;
/// a closed channel is reported as `Exited`.
pub fn watch_step(received: Option<ConnectionState>, current: &mut ConnectionState) -> (r: Option<ConnectionState>)
    ensures
        received is None ==> r == Some(ConnectionState::Exited) && *final(current) == *old(current),
        received matches Some(s) ==> (s != *old(current) ==> r == Some(s) && *final(current) == s),
        received matches Some(s) ==> (s == *old(current) ==> r is None && *final(current) == *old(current)),
{
    match received {
        None => Some(ConnectionState::Exited),
        Some(s) => {
            if s != *current {
                *current = s;
                Some(s)
            } else {
                None
            }
        },
    }
}

/// Where waiting for a connection stands after a state change.
#[derive(Debug, Clone, Copy, PartialEq, Eq, Structural)]
pub enum WaitOutcome {
    /// The connection is up: the wait is over.
    Connected,
    /// The supervisor has exited without connecting: no connection will
    /// come, and the wait ends unfulfilled.
    Ended,
    /// Not connected yet: keep waiting.
    Waiting,
}

/// What a state means to a caller waiting for the connection: the wait is
/// fulfilled exactly on `Connected`; `Exited` ends it without a connection;
/// `Disconnected` keeps it going.
pub fn wait_outcome(state: ConnectionState) -> (r: WaitOutcome)
    ensures
        (r == WaitOutcome::Connected) <==> (state == ConnectionState::Connected),
        (r == WaitOutcome::Ended) <==> (state == ConnectionState::Exited),
        (r == WaitOutcome::Waiting) <==> (state == ConnectionState::Disconnected),
{
    match state {
        ConnectionState::Connected => WaitOutcome::Connected,
        ConnectionState::Exited => WaitOutcome::Ended,
        ConnectionState::Disconnected => WaitOutcome::Waiting,
    }
}

} // verus!
