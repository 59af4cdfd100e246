//! Reconnect policy and the decisions of the gateway runtime loop.
//!
//! The runtime itself (sockets, timers, shutdown signal) runs outside this
//! library; it asks these functions what to do next.
use core::time::Duration;
use vstd::arithmetic::power2::pow2;
use vstd::prelude::*;

use crate::gateway::{
    actions_view, parse_event, spec_can_resume, spec_on_event, spec_parsed_event, GatewayActionView,
    GatewayError, GatewayEvent, GatewayEventView, GatewayStateAction, GatewayStateMachine,
};
use crate::time::{
    clamp_duration_ms, duration_from_millis, spec_clamp_duration_ms, spec_duration_as_millis,
    spec_duration_from_millis,
    unix_time_nanos,
};

verus! {

/// What the runtime reports to its observer.
#[derive(Debug)]
pub enum GatewayRuntimeEvent {
    GatewayEvent(GatewayEvent),
    ReconnectScheduled { attempt: u32, resumable: bool, delay: Duration },
    Shutdown,
}

pub enum GatewayRuntimeEventView {
    GatewayEvent(GatewayEventView),
    ReconnectScheduled { attempt: u32, resumable: bool, delay: Duration },
    Shutdown,
}

impl View for GatewayRuntimeEvent {
    type V = GatewayRuntimeEventView;

    open spec fn view(&self) -> GatewayRuntimeEventView {
        match self {
            GatewayRuntimeEvent::GatewayEvent(e) => GatewayRuntimeEventView::GatewayEvent(e@),
            GatewayRuntimeEvent::ReconnectScheduled { attempt, resumable, delay } => {
                GatewayRuntimeEventView::ReconnectScheduled {
                    attempt: *attempt,
                    resumable: *resumable,
                    delay: *delay,
                }
            },
            GatewayRuntimeEvent::Shutdown => GatewayRuntimeEventView::Shutdown,
        }
    }
}

impl Clone for GatewayRuntimeEvent {
    fn clone(&self) -> (res: Self)
        ensures
            res@ == self@,
    {
        match self {
            GatewayRuntimeEvent::GatewayEvent(e) => GatewayRuntimeEvent::GatewayEvent(e.clone()),
            GatewayRuntimeEvent::ReconnectScheduled { attempt, resumable, delay } => {
                GatewayRuntimeEvent::ReconnectScheduled {
                    attempt: *attempt,
                    resumable: *resumable,
                    delay: delay.clone(),
                }
            },
            GatewayRuntimeEvent::Shutdown => GatewayRuntimeEvent::Shutdown,
        }
    }
}

/// Reconnect back-off: the delay starts at `reconnect_base_delay`, doubles
/// with each failed attempt up to `reconnect_max_delay`, and gets up to
/// `reconnect_jitter` of random extra.
#[derive(Debug)]
pub struct GatewayRuntimeOptions {
    pub reconnect_base_delay: Duration,
    pub reconnect_max_delay: Duration,
    pub reconnect_jitter: Duration,
}

impl Clone for GatewayRuntimeOptions {
    fn clone(&self) -> (res: Self)
        ensures
            res == *self,
    {
        GatewayRuntimeOptions {
            reconnect_base_delay: self.reconnect_base_delay.clone(),
            reconnect_max_delay: self.reconnect_max_delay.clone(),
            reconnect_jitter: self.reconnect_jitter.clone(),
        }
    }
}

/// The default first reconnect delay, in milliseconds.
pub const DEFAULT_RECONNECT_BASE_MS: u64 = 500;

/// The default longest reconnect delay before jitter, in milliseconds.
pub const DEFAULT_RECONNECT_MAX_MS: u64 = 30_000;

/// The default largest jitter, in milliseconds.
pub const DEFAULT_RECONNECT_JITTER_MS: u64 = 250;

/// The multiplier that spreads the attempt number over the seed's bits.
pub const GATEWAY_JITTER_MIX: u64 = 0x9E37_79B1_85EB_CA87;

/// The largest doubling exponent of the back-off.
pub const MAX_BACKOFF_SHIFT: u32 = 10;

impl Default for GatewayRuntimeOptions {
    fn default() -> (res: Self)
        ensures
            res.reconnect_base_delay == spec_duration_from_millis(DEFAULT_RECONNECT_BASE_MS),
            res.reconnect_max_delay == spec_duration_from_millis(DEFAULT_RECONNECT_MAX_MS),
            res.reconnect_jitter == spec_duration_from_millis(DEFAULT_RECONNECT_JITTER_MS),
    {
        GatewayRuntimeOptions {
            reconnect_base_delay: duration_from_millis(DEFAULT_RECONNECT_BASE_MS),
            reconnect_max_delay: duration_from_millis(DEFAULT_RECONNECT_MAX_MS),
            reconnect_jitter: duration_from_millis(DEFAULT_RECONNECT_JITTER_MS),
        }
    }
}

/// The doubling exponent for an attempt: attempt 1 (and 0) uses none, each
/// later attempt one more, up to `MAX_BACKOFF_SHIFT`.
pub open spec fn spec_backoff_shift(attempt: u32) -> nat {
    if attempt <= 1 {
        0
    } else if attempt - 1 > MAX_BACKOFF_SHIFT {
        MAX_BACKOFF_SHIFT as nat
    } else {
        (attempt - 1) as nat
    }
}

/// The ceiling of the back-off: the larger of the base and the maximum.
pub open spec fn spec_backoff_cap(base_ms: u64, max_ms: u64) -> u64 {
    if max_ms < base_ms {
        base_ms
    } else {
        max_ms
    }
}

/// The back-off before jitter: `base * 2^shift`, capped.
pub open spec fn spec_backoff_ms(base_ms: u64, max_ms: u64, attempt: u32) -> u64 {
    let cap = spec_backoff_cap(base_ms, max_ms);
    let grown = base_ms * pow2(spec_backoff_shift(attempt));
    if grown > cap {
        cap
    } else {
        grown as u64
    }
}

/// The jitter drawn from a seed: the seed modulo `jitter_ms + 1`, or 0 when
/// no jitter is configured.
pub open spec fn spec_jitter_ms(seed: u64, jitter_ms: u64) -> u64 {
    if jitter_ms == 0 {
        0
    } else {
        (seed % ((jitter_ms + 1) as u64)) as u64
    }
}

/// Back-off plus jitter, saturating at `u64::MAX`.
pub open spec fn spec_reconnect_delay_ms(base_ms: u64, max_ms: u64, jitter_ms: u64, attempt: u32, seed: u64) -> u64 {
    let total = spec_backoff_ms(base_ms, max_ms, attempt) + spec_jitter_ms(seed, jitter_ms);
    if total > u64::MAX {
        u64::MAX
    } else {
        total as u64
    }
}

/// The back-off plus jitter, in milliseconds, for an attempt: the base
/// doubles with each attempt after the first (at most `MAX_BACKOFF_SHIFT`
/// times), is capped by the larger of the base and the maximum, and gets the
/// seed modulo `jitter_ms + 1` added (none when `jitter_ms` is 0), saturating.
pub fn reconnect_delay_ms(base_ms: u64, max_ms: u64, jitter_ms: u64, attempt: u32, seed: u64) -> (ms: u64)
    requires
        jitter_ms < u64::MAX,
    ensures
        ms == spec_reconnect_delay_ms(base_ms, max_ms, jitter_ms, attempt, seed),
{
    let cap = if max_ms < base_ms {
        base_ms
    } else {
        max_ms
    };
    let steps = attempt.saturating_sub(1);
    let shift: u64 = if steps > MAX_BACKOFF_SHIFT {
        MAX_BACKOFF_SHIFT as u64
    } else {
        steps as u64
    };
    proof {
        vstd::arithmetic::power2::lemma2_to64();
        if shift < 10 {
            vstd::arithmetic::power2::lemma_pow2_strictly_increases(shift as nat, 10);
        }
        vstd::bits::lemma_u64_shl_is_mul(1, shift);
    }
    let factor: u64 = 1u64 << shift;
    assert(factor == pow2(spec_backoff_shift(attempt)));
    let grown: u64 = match base_ms.checked_mul(factor) {
        Some(v) => v,
        None => u64::MAX,
    };
    let backoff = if grown < cap {
        grown
    } else {
        cap
    };
    let jitter = if jitter_ms == 0 {
        0
    } else {
        seed % (jitter_ms + 1)
    };
    backoff.saturating_add(jitter)
}

/// The jitter seed for an attempt at a clock reading (in nanoseconds).
pub open spec fn spec_jitter_seed(now_nanos: u64, attempt: u32) -> u64 {
    now_nanos ^ (((attempt as nat) * (GATEWAY_JITTER_MIX as nat)) % 0x1_0000_0000_0000_0000) as u64
}

/// Mixes a clock reading with the attempt number.
pub fn jitter_seed_at(now_nanos: u64, attempt: u32) -> (seed: u64)
    ensures
        seed == spec_jitter_seed(now_nanos, attempt),
{
    now_nanos ^ (attempt as u64).wrapping_mul(GATEWAY_JITTER_MIX)
}

/// A jitter seed for an attempt, mixed from the wall clock.
pub fn jitter_seed(attempt: u32) -> (seed: u64)
    ensures
        exists|now: u64| seed == spec_jitter_seed(now, attempt),
{
    jitter_seed_at(unix_time_nanos(), attempt)
}

impl GatewayRuntimeOptions {
    /// The configuration can draw jitter: its jitter, in milliseconds, is below `u64::MAX`.
    pub open spec fn jitter_in_range(&self) -> bool {
        spec_clamp_duration_ms(self.reconnect_jitter) < u64::MAX
    }

    /// The delay, in milliseconds, before reconnect attempt `attempt` with this seed.
    pub open spec fn spec_delay_ms(&self, attempt: u32, seed: u64) -> u64 {
        spec_reconnect_delay_ms(
            spec_clamp_duration_ms(self.reconnect_base_delay),
            spec_clamp_duration_ms(self.reconnect_max_delay),
            spec_clamp_duration_ms(self.reconnect_jitter),
            attempt,
            seed,
        )
    }

    /// The delay before reconnect attempt `attempt`, with the jitter drawn from `seed`.
    pub fn reconnect_delay_with_seed(&self, attempt: u32, seed: u64) -> (d: Duration)
        requires
            self.jitter_in_range(),
        ensures
            d == spec_duration_from_millis(self.spec_delay_ms(attempt, seed)),
            spec_duration_as_millis(d) == self.spec_delay_ms(attempt, seed) as u128,
    {
        duration_from_millis(
            reconnect_delay_ms(
                clamp_duration_ms(&self.reconnect_base_delay),
                clamp_duration_ms(&self.reconnect_max_delay),
                clamp_duration_ms(&self.reconnect_jitter),
                attempt,
                seed,
            ),
        )
    }

    /// The delay before reconnect attempt `attempt`, with jitter seeded from the clock.
    pub fn reconnect_delay(&self, attempt: u32) -> (d: Duration)
        requires
            self.jitter_in_range(),
        ensures
            exists|seed: u64|
                d == spec_duration_from_millis(#[trigger] self.spec_delay_ms(attempt, seed))
                    && spec_duration_as_millis(d) == self.spec_delay_ms(attempt, seed) as u128,
    {
        let seed = jitter_seed(attempt);
        self.reconnect_delay_with_seed(attempt, seed)
    }

    /// The delay before reconnect attempt `attempt`, or `None` when the
    /// configured jitter is too large to draw from (`u64::MAX` milliseconds
    /// or more).
    pub fn checked_reconnect_delay(&self, attempt: u32) -> (d: Option<Duration>)
        ensures
            d is None <==> !self.jitter_in_range(),
            d matches Some(v) ==> exists|seed: u64|
                v == spec_duration_from_millis(#[trigger] self.spec_delay_ms(attempt, seed))
                    && spec_duration_as_millis(v) == self.spec_delay_ms(attempt, seed) as u128,
    {
        if clamp_duration_ms(&self.reconnect_jitter) < u64::MAX {
            Some(self.reconnect_delay(attempt))
        } else {
            None
        }
    }
}

// ---------------------------------------------------------------------------
// Laws of the back-off
// ---------------------------------------------------------------------------

proof fn lemma_pow2_mono(s1: nat, s2: nat)
    requires
        s1 <= s2,
    ensures
        pow2(s1) <= pow2(s2),
{
    if s1 < s2 {
        vstd::arithmetic::power2::lemma_pow2_strictly_increases(s1, s2);
    }
}

/// The back-off never falls below the base delay nor exceeds the larger of
/// the base and the maximum.
pub proof fn law_backoff_within_bounds(base_ms: u64, max_ms: u64, attempt: u32)
    ensures
        base_ms <= spec_backoff_ms(base_ms, max_ms, attempt) <= spec_backoff_cap(base_ms, max_ms),
{
    let s = spec_backoff_shift(attempt);
    vstd::arithmetic::power2::lemma_pow2_pos(s);
    if base_ms > 0 {
        vstd::arithmetic::mul::lemma_mul_increases(pow2(s) as int, base_ms as int);
        vstd::arithmetic::mul::lemma_mul_is_commutative(pow2(s) as int, base_ms as int);
    }
}

/// The first attempt waits exactly the base delay (before jitter).
pub proof fn law_first_attempt_waits_base(base_ms: u64, max_ms: u64)
    ensures
        spec_backoff_ms(base_ms, max_ms, 1) == base_ms,
        spec_backoff_ms(base_ms, max_ms, 0) == base_ms,
{
    vstd::arithmetic::power2::lemma2_to64();
    assert(spec_backoff_shift(1) == 0);
    assert(spec_backoff_shift(0) == 0);
    assert(base_ms * pow2(0) == base_ms);
}

/// A later attempt never waits less than an earlier one (before jitter).
pub proof fn law_backoff_monotone(base_ms: u64, max_ms: u64, a1: u32, a2: u32)
    requires
        a1 <= a2,
    ensures
        spec_backoff_ms(base_ms, max_ms, a1) <= spec_backoff_ms(base_ms, max_ms, a2),
{
    let s1 = spec_backoff_shift(a1);
    let s2 = spec_backoff_shift(a2);
    lemma_pow2_mono(s1, s2);
    vstd::arithmetic::mul::lemma_mul_inequality(pow2(s1) as int, pow2(s2) as int, base_ms as int);
    vstd::arithmetic::mul::lemma_mul_is_commutative(pow2(s1) as int, base_ms as int);
    vstd::arithmetic::mul::lemma_mul_is_commutative(pow2(s2) as int, base_ms as int);
}

/// Each further attempt doubles the back-off until the cap or the tenth doubling.
pub proof fn law_backoff_doubles(base_ms: u64, max_ms: u64, attempt: u32)
    requires
        1 <= attempt <= MAX_BACKOFF_SHIFT,
        base_ms * pow2(attempt as nat) <= spec_backoff_cap(base_ms, max_ms),
    ensures
        spec_backoff_ms(base_ms, max_ms, (attempt + 1) as u32) == 2 * spec_backoff_ms(
            base_ms,
            max_ms,
            attempt,
        ),
{
    let s = (attempt - 1) as nat;
    vstd::arithmetic::power2::lemma_pow2_unfold(attempt as nat);
    lemma_pow2_mono(s, attempt as nat);
    vstd::arithmetic::mul::lemma_mul_inequality(pow2(s) as int, pow2(attempt as nat) as int, base_ms as int);
    vstd::arithmetic::mul::lemma_mul_is_commutative(pow2(s) as int, base_ms as int);
    vstd::arithmetic::mul::lemma_mul_is_commutative(pow2(attempt as nat) as int, base_ms as int);
    vstd::arithmetic::mul::lemma_mul_is_associative(base_ms as int, 2, pow2(s) as int);
    vstd::arithmetic::mul::lemma_mul_is_commutative(2, pow2(s) as int);
    vstd::arithmetic::mul::lemma_mul_is_associative(base_ms as int, pow2(s) as int, 2);
}

/// From the eleventh attempt on the back-off no longer grows.
pub proof fn law_backoff_stops_growing(base_ms: u64, max_ms: u64, attempt: u32)
    requires
        attempt > MAX_BACKOFF_SHIFT,
    ensures
        spec_backoff_ms(base_ms, max_ms, attempt) == spec_backoff_ms(
            base_ms,
            max_ms,
            (MAX_BACKOFF_SHIFT + 1) as u32,
        ),
{
}

/// The jitter never exceeds the configured jitter.
pub proof fn law_jitter_bounded(seed: u64, jitter_ms: u64)
    requires
        jitter_ms < u64::MAX,
    ensures
        spec_jitter_ms(seed, jitter_ms) <= jitter_ms,
{
}

/// With no jitter configured the delay is the back-off itself.
pub proof fn law_no_jitter_no_spread(base_ms: u64, max_ms: u64, attempt: u32, seed: u64)
    ensures
        spec_reconnect_delay_ms(base_ms, max_ms, 0, attempt, seed) == spec_backoff_ms(
            base_ms,
            max_ms,
            attempt,
        ),
{
}

/// The delay lies between the back-off and the back-off plus the configured
/// jitter (saturating at `u64::MAX`).
pub proof fn law_delay_within_jitter(base_ms: u64, max_ms: u64, jitter_ms: u64, attempt: u32, seed: u64)
    requires
        jitter_ms < u64::MAX,
    ensures
        spec_backoff_ms(base_ms, max_ms, attempt) <= spec_reconnect_delay_ms(
            base_ms,
            max_ms,
            jitter_ms,
            attempt,
            seed,
        ),
        spec_reconnect_delay_ms(base_ms, max_ms, jitter_ms, attempt, seed) <= spec_backoff_ms(
            base_ms,
            max_ms,
            attempt,
        ) + jitter_ms,
{
}

// ---------------------------------------------------------------------------
// Decisions of the runtime loop
// ---------------------------------------------------------------------------

/// The attempt number after one more failed connection (saturating).
pub fn next_reconnect_attempt(attempt: u32) -> (next: u32)
    ensures
        next == if attempt == u32::MAX {
            u32::MAX
        } else {
            (attempt + 1) as u32
        },
{
    attempt.saturating_add(1)
}

/// Where the actions of the state machine stop the connection: the actions
/// are carried out in order until the first reconnect request, which ends
/// the connection. Gives that request's position and whether it may resume,
/// or `None` when the connection goes on.
pub fn first_reconnect(actions: &Vec<GatewayStateAction>) -> (res: Option<(usize, bool)>)
    ensures
        match res {
            Some((i, resumable)) => {
                &&& i < actions@.len()
                &&& actions@[i as int]@ == (GatewayActionView::Reconnect { resumable })
                &&& forall|j: int| 0 <= j < i ==> !(#[trigger] actions@[j]@ is Reconnect)
            },
            None => forall|j: int| 0 <= j < actions@.len() ==> !(#[trigger] actions@[j]@ is Reconnect),
        },
{
    let mut i: usize = 0;
    while i < actions.len()
        invariant
            i <= actions@.len(),
            forall|j: int| 0 <= j < i ==> !(#[trigger] actions@[j]@ is Reconnect),
        decreases actions@.len() - i,
    {
        match &actions[i] {
            GatewayStateAction::Reconnect { resumable } => {
                return Some((i, *resumable));
            },
            _ => {},
        }
        i = i + 1;
    }
    None
}

/// Schedules the next reconnect after a lost connection: the attempt count
/// goes up by one and the observer is told the attempt, whether it will
/// resume, and the back-off delay for that attempt.
pub fn schedule_reconnect(options: &GatewayRuntimeOptions, attempt: u32, resumable: bool) -> (res: (
    u32,
    GatewayRuntimeEvent,
))
    requires
        options.jitter_in_range(),
    ensures
        res.0 == next_attempt_spec(attempt),
        res.1 matches GatewayRuntimeEvent::ReconnectScheduled { attempt: a, resumable: r, delay }
            && a == res.0 && r == resumable && exists|seed: u64|
            delay == spec_duration_from_millis(#[trigger] options.spec_delay_ms(res.0, seed))
                && spec_duration_as_millis(delay) == options.spec_delay_ms(res.0, seed) as u128,
{
    let next = next_reconnect_attempt(attempt);
    let delay = options.reconnect_delay(next);
    let res = (next, GatewayRuntimeEvent::ReconnectScheduled { attempt: next, resumable, delay });
    proof {
        let seed = choose|seed: u64|
            delay == spec_duration_from_millis(#[trigger] options.spec_delay_ms(next, seed))
                && spec_duration_as_millis(delay) == options.spec_delay_ms(next, seed) as u128;
        assert(delay == spec_duration_from_millis(options.spec_delay_ms(res.0, seed)));
    }
    res
}

/// The attempt number after one more failure.
pub open spec fn next_attempt_spec(attempt: u32) -> u32 {
    if attempt == u32::MAX {
        u32::MAX
    } else {
        (attempt + 1) as u32
    }
}

/// What the websocket handed the connection loop.
#[derive(Debug)]
pub enum SocketInput {
    /// A text frame.
    Text(String),
    /// A binary frame.
    Binary,
    /// The peer closed the connection.
    Close,
    /// A ping, with its payload.
    Ping(Vec<u8>),
    /// A pong or a raw frame: nothing to act on.
    Quiet,
    /// The socket failed or ended.
    Failed,
}

/// What the connection loop does with a socket input.
#[derive(Debug)]
pub enum ConnectionStep {
    /// Report the event to the observer, then carry out the actions in order.
    Handle { event: GatewayEvent, actions: Vec<GatewayStateAction> },
    /// Answer the ping with a pong carrying this payload.
    Pong(Vec<u8>),
    /// End the connection and reconnect.
    Reconnect { resumable: bool },
    /// Nothing to do.
    Ignore,
}

/// The connection loop's decision for one socket input: a text frame is
/// parsed (a frame that does not parse ends the run with its error) and
/// applied to the state machine; a binary frame is applied as a non-text
/// frame; a close or a socket failure reconnects, resuming when a session
/// is held; a ping is answered; anything else is ignored.
pub fn connection_step(machine: &mut GatewayStateMachine, input: SocketInput) -> (res: Result<ConnectionStep, GatewayError>)
    ensures
        match input {
            SocketInput::Text(t) => match res {
                Err(err) => spec_parsed_event(t@, Err(err)) && final(machine)@ == old(machine)@,
                Ok(ConnectionStep::Handle { event, actions }) => spec_parsed_event(t@, Ok(event))
                    && final(machine)@ == spec_on_event(old(machine)@, event@).0
                    && actions_view(actions@) == spec_on_event(old(machine)@, event@).1,
                Ok(_) => false,
            },
            SocketInput::Binary => res matches Ok(ConnectionStep::Handle { event, actions })
                && event@ == GatewayEventView::NonTextFrame
                && final(machine)@ == spec_on_event(old(machine)@, GatewayEventView::NonTextFrame).0
                && actions_view(actions@) == spec_on_event(old(machine)@, GatewayEventView::NonTextFrame).1,
            SocketInput::Close => res matches Ok(ConnectionStep::Reconnect { resumable })
                && resumable == spec_can_resume(old(machine)@) && final(machine)@ == old(machine)@,
            SocketInput::Failed => res matches Ok(ConnectionStep::Reconnect { resumable })
                && resumable == spec_can_resume(old(machine)@) && final(machine)@ == old(machine)@,
            SocketInput::Ping(p) => res matches Ok(ConnectionStep::Pong(q)) && q@ == p@
                && final(machine)@ == old(machine)@,
            SocketInput::Quiet => res matches Ok(ConnectionStep::Ignore) && final(machine)@ == old(machine)@,
        },
{
    match input {
        SocketInput::Text(t) => {
            let event = match parse_event(t.as_str()) {
                Ok(e) => e,
                Err(err) => return Err(err),
            };
            let actions = machine.on_event(&event);
            Ok(ConnectionStep::Handle { event, actions })
        },
        SocketInput::Binary => {
            let event = GatewayEvent::NonTextFrame;
            let actions = machine.on_event(&event);
            Ok(ConnectionStep::Handle { event, actions })
        },
        SocketInput::Close => Ok(ConnectionStep::Reconnect { resumable: machine.can_resume() }),
        SocketInput::Failed => Ok(ConnectionStep::Reconnect { resumable: machine.can_resume() }),
        SocketInput::Ping(p) => Ok(ConnectionStep::Pong(p)),
        SocketInput::Quiet => Ok(ConnectionStep::Ignore),
    }
}

} // verus!
