//! A three-state circuit breaker (closed → open → half-open → closed).
//!
//! Closed: requests flow; consecutive failures are counted.
//! Open: requests are rejected fast until the cooldown elapses.
//! HalfOpen: one trial request at a time is allowed; enough successes close the
//! breaker, any failure re-opens it.
//!
//! Every operation is stated as a step function on [`BreakerView`]; the time
//! since the breaker opened is the only input read from the clock, and the
//! steps are verified for every value of it.

use crate::clock::{instant_now, nanos_since};
use crate::config::{millis_to_nanos, nanos_from_millis, CircuitBreakerConfig};
use std::time::Instant;
use vstd::prelude::*;

verus! {

#[derive(Debug, Clone, Copy, PartialEq, Eq, Structural)]
pub enum State {
    Closed,
    Open,
    HalfOpen,
}

impl State {
    /// Numeric encoding for the breaker-state gauge.
    pub open spec fn gauge_code(self) -> i64 {
        match self {
            State::Closed => 0,
            State::HalfOpen => 1,
            State::Open => 2,
        }
    }

    /// Numeric encoding for the breaker-state gauge: 0 closed, 1 half-open, 2 open.
    pub fn code(self) -> (c: i64)
        ensures
            c == self.gauge_code(),
    {
        match self {
            State::Closed => 0,
            State::HalfOpen => 1,
            State::Open => 2,
        }
    }
}

/// The abstract state of a breaker. `opened_at` is the instant the breaker
/// last opened (a clock reading), while it is open or half-open.
pub struct BreakerView {
    pub state: State,
    pub consecutive_failures: usize,
    pub half_open_successes: usize,
    pub half_open_probe_inflight: bool,
    pub opened_at: Option<Instant>,
    pub failure_threshold: usize,
    pub open_cooldown_ms: u64,
    pub half_open_success_threshold: usize,
}

/// A breaker as configured: closed, nothing counted.
pub open spec fn initial_breaker(cfg: CircuitBreakerConfig) -> BreakerView {
    BreakerView {
        state: State::Closed,
        consecutive_failures: 0,
        half_open_successes: 0,
        half_open_probe_inflight: false,
        opened_at: None,
        failure_threshold: cfg.failure_threshold,
        open_cooldown_ms: cfg.open_cooldown_ms,
        half_open_success_threshold: cfg.half_open_success_threshold,
    }
}

impl BreakerView {
    /// The invariant every breaker keeps.
    pub open spec fn wf(self) -> bool {
        match self.state {
            State::Closed => {
                &&& self.opened_at is None
                &&& self.half_open_successes == 0
                &&& !self.half_open_probe_inflight
                &&& (self.consecutive_failures < self.failure_threshold
                    || self.consecutive_failures == 0)
            },
            State::Open => {
                &&& self.opened_at is Some
                &&& self.half_open_successes == 0
                &&& !self.half_open_probe_inflight
            },
            State::HalfOpen => {
                &&& self.opened_at is Some
                &&& (self.half_open_successes < self.half_open_success_threshold
                    || self.half_open_successes == 0)
            },
        }
    }

    /// The open cooldown has passed, `elapsed_ns` after the breaker opened.
    pub open spec fn cooldown_elapsed(self, elapsed_ns: u128) -> bool {
        self.opened_at is None || elapsed_ns >= millis_to_nanos(self.open_cooldown_ms)
    }

    /// A request asks to pass, `elapsed_ns` after the breaker opened: the new
    /// state and whether the request may proceed.
    pub open spec fn after_allow(self, elapsed_ns: u128) -> (BreakerView, bool) {
        match self.state {
            State::Closed => (self, true),
            State::HalfOpen => if !self.half_open_probe_inflight {
                (BreakerView { half_open_probe_inflight: true, ..self }, true)
            } else {
                (self, false)
            },
            State::Open => if self.cooldown_elapsed(elapsed_ns) {
                (
                    BreakerView {
                        state: State::HalfOpen,
                        half_open_successes: 0,
                        half_open_probe_inflight: true,
                        ..self
                    },
                    true,
                )
            } else {
                (self, false)
            },
        }
    }

    /// A request that passed succeeded.
    pub open spec fn after_success(self) -> BreakerView {
        match self.state {
            State::Closed => BreakerView { consecutive_failures: 0, ..self },
            State::HalfOpen => if self.half_open_successes + 1 >= self.half_open_success_threshold {
                BreakerView {
                    state: State::Closed,
                    consecutive_failures: 0,
                    half_open_successes: 0,
                    half_open_probe_inflight: false,
                    opened_at: None,
                    ..self
                }
            } else {
                BreakerView {
                    half_open_successes: (self.half_open_successes + 1) as usize,
                    half_open_probe_inflight: false,
                    ..self
                }
            },
            State::Open => self,
        }
    }

    /// A request that passed failed because of the backend, at instant `now`:
    /// when this opens the breaker (the threshold is reached while closed, or
    /// a half-open trial failed), the cooldown starts at `now`.
    pub open spec fn after_failure(self, now: Instant) -> BreakerView {
        match self.state {
            State::Closed => if self.consecutive_failures + 1 >= self.failure_threshold {
                BreakerView {
                    state: State::Open,
                    consecutive_failures: (self.consecutive_failures + 1) as usize,
                    opened_at: Some(now),
                    ..self
                }
            } else {
                BreakerView {
                    consecutive_failures: (self.consecutive_failures + 1) as usize,
                    ..self
                }
            },
            State::HalfOpen => BreakerView {
                state: State::Open,
                opened_at: Some(now),
                half_open_successes: 0,
                half_open_probe_inflight: false,
                ..self
            },
            State::Open => self,
        }
    }

    /// The state after `n` failures in a row, each at instant `now`.
    pub open spec fn after_failures(self, n: nat, now: Instant) -> BreakerView
        decreases n,
    {
        if n == 0 {
            self
        } else {
            self.after_failures((n - 1) as nat, now).after_failure(now)
        }
    }

    /// The state after `n` trials in a row, each asking to pass (at
    /// `elapsed_ns` after opening) and then succeeding.
    pub open spec fn after_trials(self, n: nat, elapsed_ns: u128) -> BreakerView
        decreases n,
    {
        if n == 0 {
            self
        } else {
            self.after_trials((n - 1) as nat, elapsed_ns).after_allow(elapsed_ns).0.after_success()
        }
    }
}

pub struct CircuitBreaker {
    state: State,
    consecutive_failures: usize,
    half_open_successes: usize,
    half_open_probe_inflight: bool,
    opened_at: Option<Instant>,
    failure_threshold: usize,
    open_cooldown_ms: u64,
    half_open_success_threshold: usize,
}

impl View for CircuitBreaker {
    type V = BreakerView;

    closed spec fn view(&self) -> BreakerView {
        BreakerView {
            state: self.state,
            consecutive_failures: self.consecutive_failures,
            half_open_successes: self.half_open_successes,
            half_open_probe_inflight: self.half_open_probe_inflight,
            opened_at: self.opened_at,
            failure_threshold: self.failure_threshold,
            open_cooldown_ms: self.open_cooldown_ms,
            half_open_success_threshold: self.half_open_success_threshold,
        }
    }
}

impl CircuitBreaker {
    /// The invariant of every breaker value (see [`BreakerView::wf`]).
    #[verifier::type_invariant]
    spec fn keeps_invariant(self) -> bool {
        self@.wf()
    }

    /// A closed breaker with the given thresholds and cooldown.
    pub fn new(cfg: &CircuitBreakerConfig) -> (cb: Self)
        ensures
            cb@ == initial_breaker(*cfg),
    {
        CircuitBreaker {
            state: State::Closed,
            consecutive_failures: 0,
            half_open_successes: 0,
            half_open_probe_inflight: false,
            opened_at: None,
            failure_threshold: cfg.failure_threshold,
            open_cooldown_ms: cfg.open_cooldown_ms,
            half_open_success_threshold: cfg.half_open_success_threshold,
        }
    }

    /// Decides whether a request may proceed, given the time since the breaker
    /// opened. Transitions Open → HalfOpen once the cooldown has elapsed and
    /// admits that first trial request.
    pub fn allow_after(&mut self, elapsed_ns: u128) -> (r: bool)
        ensures
            (final(self)@, r) == old(self)@.after_allow(elapsed_ns),
    {
        proof {
            use_type_invariant(&*self);
        }
        match self.state {
            State::Closed => true,
            State::HalfOpen => {
                if !self.half_open_probe_inflight {
                    self.half_open_probe_inflight = true;
                    true
                } else {
                    false
                }
            },
            State::Open => {
                let cooldown = nanos_from_millis(self.open_cooldown_ms);
                let elapsed = match &self.opened_at {
                    Some(_) => elapsed_ns,
                    None => cooldown,
                };
                if elapsed >= cooldown {
                    self.state = State::HalfOpen;
                    self.half_open_successes = 0;
                    self.half_open_probe_inflight = true;
                    true
                } else {
                    false
                }
            },
        }
    }

    /// Decides whether a request may proceed, reading the clock when the
    /// breaker is open. The decision is `after_allow` at the time elapsed since
    /// opening; outside the open state it does not depend on the clock.
    pub fn allow(&mut self) -> (r: bool)
        ensures
            exists|e: u128| (final(self)@, r) == #[trigger] old(self)@.after_allow(e),
            old(self)@.state != State::Open ==> (final(self)@, r) == old(self)@.after_allow(0),
    {
        let elapsed = if self.state == State::Open {
            match &self.opened_at {
                Some(t) => nanos_since(t),
                None => nanos_from_millis(self.open_cooldown_ms),
            }
        } else {
            0
        };
        let r = self.allow_after(elapsed);
        assert((final(self)@, r) == old(self)@.after_allow(elapsed));
        r
    }

    /// Records that a request that passed succeeded.
    pub fn on_success(&mut self)
        ensures
            final(self)@ == old(self)@.after_success(),
    {
        proof {
            use_type_invariant(&*self);
        }
        match self.state {
            State::Closed => {
                self.consecutive_failures = 0;
            },
            State::HalfOpen => {
                let successes = self.half_open_successes + 1;
                if successes >= self.half_open_success_threshold {
                    *self = CircuitBreaker {
                        state: State::Closed,
                        consecutive_failures: 0,
                        half_open_successes: 0,
                        half_open_probe_inflight: false,
                        opened_at: None,
                        failure_threshold: self.failure_threshold,
                        open_cooldown_ms: self.open_cooldown_ms,
                        half_open_success_threshold: self.half_open_success_threshold,
                    };
                } else {
                    self.half_open_probe_inflight = false;
                    self.half_open_successes = successes;
                }
            },
            State::Open => {},
        }
    }

    /// Records, at instant `now`, that a request that passed failed because
    /// of the backend; when this opens the breaker, its cooldown starts at
    /// `now`.
    pub fn on_failure_at(&mut self, now: Instant)
        ensures
            final(self)@ == old(self)@.after_failure(now),
    {
        proof {
            use_type_invariant(&*self);
        }
        match self.state {
            State::Closed => {
                let failures = self.consecutive_failures + 1;
                if failures >= self.failure_threshold {
                    *self = CircuitBreaker {
                        state: State::Open,
                        consecutive_failures: failures,
                        half_open_successes: 0,
                        half_open_probe_inflight: false,
                        opened_at: Some(now),
                        failure_threshold: self.failure_threshold,
                        open_cooldown_ms: self.open_cooldown_ms,
                        half_open_success_threshold: self.half_open_success_threshold,
                    };
                } else {
                    self.consecutive_failures = failures;
                }
            },
            State::HalfOpen => {
                // A failed trial immediately re-opens the breaker.
                *self = CircuitBreaker {
                    state: State::Open,
                    consecutive_failures: self.consecutive_failures,
                    half_open_successes: 0,
                    half_open_probe_inflight: false,
                    opened_at: Some(now),
                    failure_threshold: self.failure_threshold,
                    open_cooldown_ms: self.open_cooldown_ms,
                    half_open_success_threshold: self.half_open_success_threshold,
                };
            },
            State::Open => {},
        }
    }

    /// Records that a request that passed failed because of the backend; the
    /// instant, from which a cooldown starts when this opens the breaker, is
    /// read from the clock.
    pub fn on_failure(&mut self)
        ensures
            exists|now: Instant| final(self)@ == #[trigger] old(self)@.after_failure(now),
    {
        let now = instant_now();
        self.on_failure_at(now);
    }

    pub fn state(&self) -> (s: State)
        ensures
            s == self@.state,
    {
        self.state
    }
}

/// A freshly configured breaker satisfies the invariant.
pub proof fn lemma_initial_wf(cfg: CircuitBreakerConfig)
    ensures
        initial_breaker(cfg).wf(),
{
}

/// Every operation keeps the invariant: asking to pass (whatever the time
/// since opening), recording a success, and recording a failure.
pub proof fn lemma_steps_keep_wf(v: BreakerView, elapsed_ns: u128, now: Instant)
    requires
        v.wf(),
    ensures
        v.after_allow(elapsed_ns).0.wf(),
        v.after_success().wf(),
        v.after_failure(now).wf(),
{
}

/// A closed breaker lets every request pass and changes nothing.
pub proof fn lemma_closed_always_allows(v: BreakerView, elapsed_ns: u128)
    requires
        v.state == State::Closed,
    ensures
        v.after_allow(elapsed_ns) == (v, true),
{
}

/// Starting closed with no failures counted, the breaker stays closed through
/// `failure_threshold - 1` consecutive failures and opens at the
/// `failure_threshold`-th, its cooldown starting at that failure.
pub proof fn lemma_opens_after_threshold_failures(v: BreakerView, n: nat, now: Instant)
    requires
        v.wf(),
        v.state == State::Closed,
        v.consecutive_failures == 0,
        v.failure_threshold >= 1,
        n <= v.failure_threshold,
    ensures
        n < v.failure_threshold ==> v.after_failures(n, now) == (BreakerView {
            consecutive_failures: n as usize,
            ..v
        }),
        n == v.failure_threshold ==> v.after_failures(n, now).state == State::Open
            && v.after_failures(n, now).opened_at == Some(now),
    decreases n,
{
    if n > 0 {
        lemma_opens_after_threshold_failures(v, (n - 1) as nat, now);
    }
}

/// An open breaker rejects every request until the cooldown has elapsed; once
/// it has, the next request is admitted as the single half-open trial.
pub proof fn lemma_open_rejects_until_cooldown(v: BreakerView, elapsed_ns: u128)
    requires
        v.wf(),
        v.state == State::Open,
    ensures
        elapsed_ns < millis_to_nanos(v.open_cooldown_ms) ==> v.after_allow(elapsed_ns) == (
            v,
            false,
        ),
        elapsed_ns >= millis_to_nanos(v.open_cooldown_ms) ==> {
            let (w, admitted) = v.after_allow(elapsed_ns);
            &&& admitted
            &&& w.state == State::HalfOpen
            &&& w.half_open_probe_inflight
            &&& w.half_open_successes == 0
        },
{
}

/// Half-open admits one trial at a time: right after a request is admitted
/// into a half-open breaker, the next request is rejected (whatever the time),
/// until the trial reports.
pub proof fn lemma_half_open_single_probe(v: BreakerView, e1: u128, e2: u128)
    requires
        v.wf(),
        v.after_allow(e1).1,
        v.after_allow(e1).0.state == State::HalfOpen,
    ensures
        v.after_allow(e1).0.after_allow(e2) == (v.after_allow(e1).0, false),
{
}

/// A failed trial re-opens a half-open breaker and restarts the cooldown at
/// the failure: right after it, with less than the cooldown elapsed since that
/// instant, requests are rejected again.
pub proof fn lemma_half_open_failure_reopens(v: BreakerView, now: Instant, elapsed_ns: u128)
    requires
        v.wf(),
        v.state == State::HalfOpen,
    ensures
        v.after_failure(now).state == State::Open,
        v.after_failure(now).opened_at == Some(now),
        v.after_failure(now).half_open_successes == 0,
        !v.after_failure(now).half_open_probe_inflight,
        elapsed_ns < millis_to_nanos(v.open_cooldown_ms) ==> v.after_failure(now).after_allow(
            elapsed_ns,
        ) == (v.after_failure(now), false),
{
}

/// A failure reported while the breaker is already open changes nothing: in
/// particular the cooldown is not restarted.
pub proof fn lemma_open_failure_keeps_cooldown(v: BreakerView, now: Instant)
    requires
        v.state == State::Open,
    ensures
        v.after_failure(now) == v,
{
}

/// A success while closed clears the count of consecutive failures.
pub proof fn lemma_success_resets_failures(v: BreakerView)
    requires
        v.state == State::Closed,
    ensures
        v.after_success() == (BreakerView { consecutive_failures: 0, ..v }),
{
}

/// Starting half-open with no successes counted, the breaker stays half-open
/// through `half_open_success_threshold - 1` successful trials and closes,
/// with failures cleared, at the `half_open_success_threshold`-th.
pub proof fn lemma_half_open_recovers(v: BreakerView, n: nat, elapsed_ns: u128)
    requires
        v.wf(),
        v.state == State::HalfOpen,
        v.half_open_successes == 0,
        v.half_open_success_threshold >= 1,
        n <= v.half_open_success_threshold,
    ensures
        n < v.half_open_success_threshold ==> v.after_trials(n, elapsed_ns).state
            == State::HalfOpen && v.after_trials(n, elapsed_ns).half_open_successes == n,
        0 < n < v.half_open_success_threshold ==> v.after_trials(n, elapsed_ns) == (BreakerView {
            half_open_successes: n as usize,
            half_open_probe_inflight: false,
            ..v
        }),
        n == v.half_open_success_threshold ==> v.after_trials(n, elapsed_ns).state
            == State::Closed && v.after_trials(n, elapsed_ns).consecutive_failures == 0,
    decreases n,
{
    if n > 0 {
        lemma_half_open_recovers(v, (n - 1) as nat, elapsed_ns);
    }
}

} // verus!
