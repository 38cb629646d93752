//! Reconnection policy of the relay client: exponential backoff with jitter,
//! a circuit breaker after repeated closures, and a hard stop when the relay
//! reports that the session limit is exceeded.
//!
//! The client's connection loop (in the application) asks this state machine
//! what to do before each connection attempt and after each outcome.
use vstd::arithmetic::power2::{lemma2_to64, lemma_pow2_strictly_increases, pow2};
use vstd::prelude::*;

verus! {

/// Closures in a row tolerated before the circuit breaker opens.
pub const MAX_RECONNECT_ATTEMPTS: u32 = 5;

/// Backoff before the first retry.
pub const BASE_RECONNECT_DELAY_MS: u64 = 2000;

/// Upper bound of the backoff (jitter excluded).
pub const MAX_RECONNECT_DELAY_MS: u64 = 60000;

/// How long the circuit breaker stays open.
pub const CIRCUIT_BREAKER_DURATION_MS: u64 = 120000;

/// Close code by which the relay says that the session limit is exceeded.
pub const SESSION_LIMIT_CLOSE_CODE: u16 = 1013;

/// How a connection ended.
#[derive(Clone, Copy, Debug, PartialEq, Eq)]
pub enum ConnectionOutcome {
    /// The socket was closed with this close code.
    Closed(u16),
    /// Connecting, or reading from the socket, failed.
    Failed,
}

/// What the connection loop does before connecting.
#[derive(Clone, Copy, Debug, PartialEq, Eq)]
pub enum BreakerCheck {
    /// Connect now.
    Connect,
    /// The circuit breaker is open: sleep this long, then go round the loop
    /// again.
    Wait(u64),
}

/// What the connection loop does after a connection ended.
#[derive(Clone, Copy, Debug, PartialEq, Eq)]
pub enum ReconnectAction {
    /// Leave the loop (reconnection disabled or the client stopped).
    Stop,
    /// The relay refused the session: stop the client for good.
    SessionLimitExceeded,
    /// The circuit breaker has just opened: go round the loop again at once.
    OpenBreaker,
    /// Sleep this long, then go round the loop again.
    Retry(u64),
}

/// The backoff before retry number `attempt` (counted from one):
/// `BASE * 2^(attempt - 1)`, capped at `MAX_RECONNECT_DELAY_MS`.
pub open spec fn backoff_ms(attempt: nat) -> nat {
    let d = (BASE_RECONNECT_DELAY_MS as nat) * pow2((attempt - 1) as nat);
    if d < MAX_RECONNECT_DELAY_MS {
        d
    } else {
        MAX_RECONNECT_DELAY_MS as nat
    }
}

/// The jitter added to a backoff of `delay`, from a random draw `r`.
pub open spec fn jitter_ms(delay: nat, r: nat) -> nat {
    (r % delay) / 2
}

/// The state that the connection loop keeps between attempts.
#[derive(Clone, Copy, Debug, PartialEq, Eq)]
pub struct ReconnectPolicy {
    /// Failed or closed connections since the last reset.
    pub attempts: u32,
    /// While set, no connection is tried before this time (ms since the epoch).
    pub circuit_breaker_until: Option<u64>,
}

/// The effect of `check_breaker` on the state, and what it answers.
pub open spec fn breaker_step(p: ReconnectPolicy, now: u64) -> (ReconnectPolicy, BreakerCheck) {
    match p.circuit_breaker_until {
        Some(until) if now < until => (
            ReconnectPolicy { attempts: 0, circuit_breaker_until: None },
            BreakerCheck::Wait((until - now) as u64),
        ),
        _ => (p, BreakerCheck::Connect),
    }
}

/// The effect of `on_outcome` on the state, and what it answers.
pub open spec fn outcome_step(
    p: ReconnectPolicy,
    outcome: ConnectionOutcome,
    auto_reconnect: bool,
    running: bool,
    now: u64,
    random: u64,
) -> (ReconnectPolicy, ReconnectAction) {
    if !auto_reconnect || !running {
        (p, ReconnectAction::Stop)
    } else {
        match outcome {
            ConnectionOutcome::Closed(code) => {
                if code == SESSION_LIMIT_CLOSE_CODE {
                    (p, ReconnectAction::SessionLimitExceeded)
                } else {
                    let attempts = p.attempts + 1;
                    if attempts > MAX_RECONNECT_ATTEMPTS {
                        (
                            ReconnectPolicy {
                                attempts: 0,
                                circuit_breaker_until: Some(
                                    (now + CIRCUIT_BREAKER_DURATION_MS) as u64,
                                ),
                            },
                            ReconnectAction::OpenBreaker,
                        )
                    } else {
                        let delay = backoff_ms(attempts as nat);
                        (
                            ReconnectPolicy { attempts: attempts as u32, ..p },
                            ReconnectAction::Retry((delay + jitter_ms(delay, random as nat)) as u64),
                        )
                    }
                }
            },
            ConnectionOutcome::Failed => {
                let attempts = p.attempts + 1;
                (
                    ReconnectPolicy { attempts: attempts as u32, ..p },
                    ReconnectAction::Retry(backoff_ms(attempts as nat) as u64),
                )
            },
        }
    }
}

/// Where `on_outcome` would overflow: the retry counter past its range, the
/// backoff past `u64` (from the 55th failure in a row), or the breaker's
/// deadline past `u64`.
pub open spec fn outcome_in_range(
    p: ReconnectPolicy,
    outcome: ConnectionOutcome,
    auto_reconnect: bool,
    running: bool,
    now: u64,
) -> bool {
    auto_reconnect && running ==> match outcome {
        ConnectionOutcome::Closed(code) => code != SESSION_LIMIT_CLOSE_CODE ==> {
            &&& p.attempts < u32::MAX
            &&& p.attempts + 1 > MAX_RECONNECT_ATTEMPTS ==> now + CIRCUIT_BREAKER_DURATION_MS
                <= u64::MAX
        },
        ConnectionOutcome::Failed => p.attempts <= 53,
    }
}

proof fn lemma_backoff(attempt: nat)
    requires
        1 <= attempt,
    ensures
        BASE_RECONNECT_DELAY_MS <= backoff_ms(attempt) <= MAX_RECONNECT_DELAY_MS,
        attempt <= 5 ==> backoff_ms(attempt) == BASE_RECONNECT_DELAY_MS * pow2((attempt - 1) as nat),
        attempt > 5 ==> backoff_ms(attempt) == MAX_RECONNECT_DELAY_MS,
{
    lemma2_to64();
    if attempt > 6 {
        lemma_pow2_strictly_increases(5, (attempt - 1) as nat);
    }
}

/// The capped exponential backoff before retry number `attempt`.
pub fn backoff_delay(attempt: u32) -> (d: u64)
    requires
        1 <= attempt,
    ensures
        d == backoff_ms(attempt as nat),
{
    proof {
        lemma_backoff(attempt as nat);
        lemma2_to64();
    }
    if attempt == 1 {
        2000
    } else if attempt == 2 {
        4000
    } else if attempt == 3 {
        8000
    } else if attempt == 4 {
        16000
    } else if attempt == 5 {
        32000
    } else {
        MAX_RECONNECT_DELAY_MS
    }
}

impl ReconnectPolicy {
    /// No attempts yet, breaker closed.
    pub fn new() -> (p: Self)
        ensures
            p.attempts == 0,
            p.circuit_breaker_until is None,
    {
        ReconnectPolicy { attempts: 0, circuit_breaker_until: None }
    }

    /// Before connecting: while the circuit breaker is open, wait until it
    /// closes, forgetting the attempts; otherwise connect.
    pub fn check_breaker(&mut self, now: u64) -> (c: BreakerCheck)
        ensures
            (*final(self), c) == breaker_step(*old(self), now),
    {
        match self.circuit_breaker_until {
            Some(until) => {
                if now < until {
                    self.attempts = 0;
                    self.circuit_breaker_until = None;
                    BreakerCheck::Wait(until - now)
                } else {
                    BreakerCheck::Connect
                }
            },
            None => BreakerCheck::Connect,
        }
    }

    /// Whether `on_outcome` can take this outcome without overflowing (see
    /// `outcome_in_range`).
    pub fn outcome_fits(
        &self,
        outcome: ConnectionOutcome,
        auto_reconnect: bool,
        running: bool,
        now: u64,
    ) -> (b: bool)
        ensures
            b == outcome_in_range(*self, outcome, auto_reconnect, running, now),
    {
        if !(auto_reconnect && running) {
            return true;
        }
        match outcome {
            ConnectionOutcome::Closed(code) => {
                if code == SESSION_LIMIT_CLOSE_CODE {
                    true
                } else if self.attempts == u32::MAX {
                    false
                } else if self.attempts + 1 > MAX_RECONNECT_ATTEMPTS {
                    now <= u64::MAX - CIRCUIT_BREAKER_DURATION_MS
                } else {
                    true
                }
            },
            ConnectionOutcome::Failed => self.attempts <= 53,
        }
    }

    /// After a connection ended: stop when reconnection is off or the client
    /// was stopped; stop for good on a session-limit closure; after a
    /// closure, back off exponentially with jitter drawn from `random`, and
    /// open the circuit breaker once the closures in a row exceed the limit;
    /// after a failure, back off without jitter.
    pub fn on_outcome(
        &mut self,
        outcome: ConnectionOutcome,
        auto_reconnect: bool,
        running: bool,
        now: u64,
        random: u64,
    ) -> (a: ReconnectAction)
        requires
            outcome_in_range(*old(self), outcome, auto_reconnect, running, now),
        ensures
            (*final(self), a) == outcome_step(*old(self), outcome, auto_reconnect, running, now, random),
    {
        if !auto_reconnect || !running {
            return ReconnectAction::Stop;
        }
        match outcome {
            ConnectionOutcome::Closed(code) => {
                if code == SESSION_LIMIT_CLOSE_CODE {
                    return ReconnectAction::SessionLimitExceeded;
                }
                let attempts = self.attempts + 1;
                self.attempts = attempts;
                if attempts > MAX_RECONNECT_ATTEMPTS {
                    self.circuit_breaker_until = Some(now + CIRCUIT_BREAKER_DURATION_MS);
                    self.attempts = 0;
                    return ReconnectAction::OpenBreaker;
                }
                let delay = backoff_delay(attempts);
                proof {
                    lemma_backoff(attempts as nat);
                }
                let jitter = (random % delay) / 2;
                ReconnectAction::Retry(delay + jitter)
            },
            ConnectionOutcome::Failed => {
                let attempts = self.attempts + 1;
                self.attempts = attempts;
                ReconnectAction::Retry(backoff_delay(attempts))
            },
        }
    }
}

/// Whether a relay client is running, and whether it is connected.
#[derive(Clone, Copy, Debug, PartialEq, Eq)]
pub struct ClientFlags {
    pub running: bool,
    pub connected: bool,
}

/// The effect of `start` on the flags, and whether a connection task is to
/// be spawned.
pub open spec fn start_step(f: ClientFlags) -> (ClientFlags, bool) {
    if f.running {
        (f, false)
    } else {
        (ClientFlags { running: true, ..f }, true)
    }
}

/// The effect on the flags of the policy's answer `a` after a connection
/// ended, and whether the connection loop goes round again.
pub open spec fn action_step(f: ClientFlags, a: ReconnectAction) -> (ClientFlags, bool) {
    match a {
        ReconnectAction::Stop => (f, false),
        ReconnectAction::SessionLimitExceeded => (ClientFlags { running: false, ..f }, false),
        ReconnectAction::OpenBreaker => (f, true),
        ReconnectAction::Retry(_) => (f, true),
    }
}

impl ClientFlags {
    /// A client that has not started.
    pub fn new() -> (f: Self)
        ensures
            !f.running,
            !f.connected,
    {
        ClientFlags { running: false, connected: false }
    }

    /// Starts the client: `true` when its connection task is to be spawned,
    /// which happens only when it was not running already.
    pub fn start(&mut self) -> (spawn: bool)
        ensures
            (*final(self), spawn) == start_step(*old(self)),
    {
        if self.running {
            return false;
        }
        self.running = true;
        true
    }

    /// After a connection ended and the policy answered `a`: a session-limit
    /// refusal stops the client; `true` when the connection loop goes round
    /// again (a retry or a just-opened breaker).
    pub fn after_action(&mut self, a: ReconnectAction) -> (again: bool)
        ensures
            (*final(self), again) == action_step(*old(self), a),
    {
        match a {
            ReconnectAction::Stop => false,
            ReconnectAction::SessionLimitExceeded => {
                self.running = false;
                false
            },
            ReconnectAction::OpenBreaker => true,
            ReconnectAction::Retry(_) => true,
        }
    }

    /// Stops the client: neither running nor connected.
    pub fn stop(&mut self)
        ensures
            *final(self) == (ClientFlags { running: false, connected: false }),
    {
        self.running = false;
        self.connected = false;
    }
}

/// A client that was started, and not stopped since, is not started again:
/// a further start spawns no task and leaves the flags as they are.
pub proof fn lemma_start_once(f: ClientFlags)
    ensures
        start_step(start_step(f).0) == (start_step(f).0, false),
{
}

/// A close with the session-limit code clears the client's running flag and
/// ends its connection loop.
pub proof fn lemma_session_limit_clears_running(
    p: ReconnectPolicy,
    f: ClientFlags,
    now: u64,
    random: u64,
)
    ensures
        action_step(
            f,
            outcome_step(p, ConnectionOutcome::Closed(SESSION_LIMIT_CLOSE_CODE), true, true, now, random).1,
        ) == (ClientFlags { running: false, ..f }, false),
{
}

/// Without automatic reconnection, or once the client is stopped, the
/// connection loop ends at the first end of a connection, whatever the
/// outcome, leaving the flags as they are.
pub proof fn lemma_no_reconnect_stops(
    p: ReconnectPolicy,
    f: ClientFlags,
    outcome: ConnectionOutcome,
    auto_reconnect: bool,
    running: bool,
    now: u64,
    random: u64,
)
    requires
        !auto_reconnect || !running,
    ensures
        outcome_step(p, outcome, auto_reconnect, running, now, random) == (p, ReconnectAction::Stop),
        action_step(f, outcome_step(p, outcome, auto_reconnect, running, now, random).1) == (f, false),
{
}

/// Every wait that the policy asks for after an outcome lies between the base
/// backoff and one and a half times the cap.
pub proof fn lemma_retry_delay_bounded(
    p: ReconnectPolicy,
    outcome: ConnectionOutcome,
    auto_reconnect: bool,
    running: bool,
    now: u64,
    random: u64,
)
    ensures
        outcome_step(p, outcome, auto_reconnect, running, now, random).1 matches ReconnectAction::Retry(
            ms,
        ) ==> BASE_RECONNECT_DELAY_MS <= ms <= MAX_RECONNECT_DELAY_MS + MAX_RECONNECT_DELAY_MS / 2,
{
    if auto_reconnect && running {
        lemma_backoff((p.attempts + 1) as nat);
    }
}

/// A closure with the session-limit code always stops the client, whatever
/// the state.
pub proof fn lemma_session_limit_stops(
    p: ReconnectPolicy,
    now: u64,
    random: u64,
)
    ensures
        outcome_step(
            p,
            ConnectionOutcome::Closed(SESSION_LIMIT_CLOSE_CODE),
            true,
            true,
            now,
            random,
        ).1 == ReconnectAction::SessionLimitExceeded,
{
}

/// Closures alone never take the attempt counter past the limit: from a
/// counter within the limit, every outcome step and every breaker check
/// leaves it within the limit.
pub proof fn lemma_attempts_bounded_by_closures(
    p: ReconnectPolicy,
    code: u16,
    auto_reconnect: bool,
    running: bool,
    now: u64,
    random: u64,
)
    requires
        p.attempts <= MAX_RECONNECT_ATTEMPTS,
    ensures
        outcome_step(p, ConnectionOutcome::Closed(code), auto_reconnect, running, now, random).0.attempts
            <= MAX_RECONNECT_ATTEMPTS,
        breaker_step(p, now).0.attempts <= MAX_RECONNECT_ATTEMPTS,
{
}

/// The breaker opens exactly on the closure that follows
/// `MAX_RECONNECT_ATTEMPTS` closures, and it resets the counter.
pub proof fn lemma_breaker_opens_after_limit(
    p: ReconnectPolicy,
    code: u16,
    now: u64,
    random: u64,
)
    requires
        code != SESSION_LIMIT_CLOSE_CODE,
        p.attempts <= MAX_RECONNECT_ATTEMPTS,
    ensures
        (outcome_step(p, ConnectionOutcome::Closed(code), true, true, now, random).1
            == ReconnectAction::OpenBreaker) <==> p.attempts == MAX_RECONNECT_ATTEMPTS,
        p.attempts == MAX_RECONNECT_ATTEMPTS ==> outcome_step(
            p,
            ConnectionOutcome::Closed(code),
            true,
            true,
            now,
            random,
        ).0.attempts == 0,
{
}

/// Waiting out an open breaker ends with a closed breaker and no attempts,
/// and the next check connects.
pub proof fn lemma_breaker_wait_then_connect(p: ReconnectPolicy, now: u64, later: u64)
    requires
        p.circuit_breaker_until matches Some(until) && now < until,
    ensures
        breaker_step(p, now).0 == (ReconnectPolicy { attempts: 0, circuit_breaker_until: None }),
        breaker_step(breaker_step(p, now).0, later).1 == BreakerCheck::Connect,
{
}

} // verus!
