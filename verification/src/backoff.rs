//! Bounded exponential backoff protocol.
//!
//! A retryable action reports one of three outcomes per attempt
//! ([`BackoffMessage`]); the driver retries with capped exponential delays
//! until the action succeeds, gives up, or the retry budget is exhausted.
//! The protocol itself is a pure state machine ([`backoff_step`]); callers
//! that perform real waiting drive it one attempt at a time, and
//! [`run_backoff_script`] runs it over a pre-recorded sequence of attempt
//! outcomes.

use vstd::prelude::*;

verus! {

/// Number of consecutive `Retry` outcomes tolerated before giving up.
pub const MAX_RETRIES: u32 = 5;

/// What one attempt of a retryable action reports back to the driver.
pub enum BackoffMessage<T> {
    /// The attempt failed transiently; try again after a delay.
    Retry,
    /// The attempt failed permanently; stop at once.
    Exit,
    /// The attempt succeeded with this value.
    Return(T),
}

/// Why a backoff-driven operation failed as a whole.
#[derive(Debug, Clone, Copy, PartialEq, Eq, Structural)]
pub enum BackoffError {
    MaxRetries,
    Exit,
}

/// Driver state: how many consecutive `Retry` outcomes have been seen.
#[derive(Debug, Clone, Copy, PartialEq, Eq, Structural)]
pub struct BackoffState {
    pub try_count: u32,
}

/// What the driver decides after one attempt: sleep and retry, or finish.
pub enum BackoffStep<T> {
    /// Sleep for `wait_ms` milliseconds, then run the action again.
    Sleep { state: BackoffState, wait_ms: u64 },
    /// The operation is over with this result.
    Done { result: Result<T, BackoffError> },
}

/// 2^n as a mathematical integer.
pub open spec fn spec_pow2(n: nat) -> nat
    decreases n,
{
    if n == 0 {
        1
    } else {
        2 * spec_pow2((n - 1) as nat)
    }
}

pub proof fn lemma_pow2_le(a: nat, b: nat)
    requires
        a <= b,
    ensures
        spec_pow2(a) <= spec_pow2(b),
    decreases b,
{
    if a < b {
        lemma_pow2_le(a, (b - 1) as nat);
    }
}

/// Delay before retry number `try_count`: `min(2^min(try_count, 10) * 100, 30_000)`
/// milliseconds — capped exponential backoff with base 100 ms.
pub open spec fn spec_wait_ms(try_count: u32) -> u64 {
    let e: nat = if try_count < 10 {
        try_count as nat
    } else {
        10
    };
    let w = spec_pow2(e) * 100;
    if w < 30000 {
        w as u64
    } else {
        30000u64
    }
}

/// Computes the retry delay in milliseconds.
pub fn backoff_wait_ms(try_count: u32) -> (r: u64)
    ensures
        r == spec_wait_ms(try_count),
{
    let e: u32 = if try_count < 10 {
        try_count
    } else {
        10
    };
    let mut p: u64 = 1;
    let mut i: u32 = 0;
    while i < e
        invariant
            i <= e <= 10,
            p == spec_pow2(i as nat),
        decreases e - i,
    {
        proof {
            lemma_pow2_le(i as nat, 9);
            assert(spec_pow2(9) == 512) by {
                reveal_with_fuel(spec_pow2, 11);
            }
        }
        p = p * 2;
        i = i + 1;
    }
    proof {
        lemma_pow2_le(e as nat, 10);
        assert(spec_pow2(10) == 1024) by {
            reveal_with_fuel(spec_pow2, 11);
        }
    }
    let w: u64 = p * 100;
    if w < 30000 {
        w
    } else {
        30000
    }
}

/// The driver's decision after one attempt reported `msg` in state `state`.
pub open spec fn spec_backoff_step<T>(state: BackoffState, msg: BackoffMessage<T>) -> BackoffStep<
    T,
> {
    match msg {
        BackoffMessage::Return(v) => BackoffStep::Done { result: Ok(v) },
        BackoffMessage::Exit => BackoffStep::Done { result: Err(BackoffError::Exit) },
        BackoffMessage::Retry => {
            if state.try_count + 1 > MAX_RETRIES {
                BackoffStep::Done { result: Err(BackoffError::MaxRetries) }
            } else {
                BackoffStep::Sleep {
                    state: BackoffState { try_count: (state.try_count + 1) as u32 },
                    wait_ms: spec_wait_ms((state.try_count + 1) as u32),
                }
            }
        },
    }
}

/// Advances the backoff state machine by one attempt outcome.
///
/// `Return` ends with success at once; `Exit` ends with failure at once;
/// `Retry` either schedules a delay (and the incremented attempt counter)
/// or, past the retry budget, fails with `MaxRetries` without waiting.
pub fn backoff_step<T>(state: BackoffState, msg: BackoffMessage<T>) -> (r: BackoffStep<T>)
    requires
        state.try_count <= MAX_RETRIES,
    ensures
        r == spec_backoff_step(state, msg),
{
    match msg {
        BackoffMessage::Return(v) => BackoffStep::Done { result: Ok(v) },
        BackoffMessage::Exit => BackoffStep::Done { result: Err(BackoffError::Exit) },
        BackoffMessage::Retry => {
            let next: u32 = state.try_count + 1;
            if next > MAX_RETRIES {
                BackoffStep::Done { result: Err(BackoffError::MaxRetries) }
            } else {
                BackoffStep::Sleep {
                    state: BackoffState { try_count: next },
                    wait_ms: backoff_wait_ms(next),
                }
            }
        },
    }
}

/// Result of running the driver over a script of attempt outcomes starting
/// with `try_count` retries already consumed: the overall result and the
/// delays slept through, or `None` if the script ends before the driver does.
pub open spec fn spec_run_from<T>(script: Seq<BackoffMessage<T>>, try_count: nat) -> Option<
    (Result<T, BackoffError>, Seq<u64>),
>
    decreases script.len(),
{
    if script.len() == 0 {
        None
    } else {
        match script[0] {
            BackoffMessage::Return(v) => Some((Ok(v), Seq::<u64>::empty())),
            BackoffMessage::Exit => Some((Err(BackoffError::Exit), Seq::<u64>::empty())),
            BackoffMessage::Retry => {
                if try_count + 1 > MAX_RETRIES {
                    Some((Err(BackoffError::MaxRetries), Seq::<u64>::empty()))
                } else {
                    match spec_run_from(script.drop_first(), try_count + 1) {
                        None => None,
                        Some(rest) => Some(
                            (rest.0, seq![spec_wait_ms((try_count + 1) as u32)] + rest.1),
                        ),
                    }
                }
            },
        }
    }
}

/// Result of running the backoff driver over a script of attempt outcomes.
pub open spec fn spec_run_script<T>(script: Seq<BackoffMessage<T>>) -> Option<
    (Result<T, BackoffError>, Seq<u64>),
> {
    spec_run_from(script, 0)
}

/// Runs the backoff protocol over a pre-recorded script of attempt
/// outcomes, returning the overall result together with the sequence of
/// delays (in milliseconds) the driver would have slept, or `None` if the
/// script is exhausted before the driver reaches a decision.
#[verifier::loop_isolation(false)]
pub fn run_backoff_script<T>(script: Vec<BackoffMessage<T>>) -> (r: Option<
    (Result<T, BackoffError>, Vec<u64>),
>)
    ensures
        r is Some <==> spec_run_script(script@) is Some,
        r is Some ==> {
            &&& spec_run_script(script@)->Some_0.0 == r->Some_0.0
            &&& spec_run_script(script@)->Some_0.1 == r->Some_0.1@
        },
{
    let ghost orig = script@;
    let mut script = script;
    let mut delays: Vec<u64> = Vec::new();
    let mut state = BackoffState { try_count: 0 };
    proof {
        assert(delays@ + spec_run_from(orig, 0)->Some_0.1 =~= spec_run_from(orig, 0)->Some_0.1);
    }
    loop
        invariant
            state.try_count <= MAX_RETRIES,
            spec_run_from(orig, 0) is Some <==> spec_run_from(
                script@,
                state.try_count as nat,
            ) is Some,
            spec_run_from(orig, 0) is Some ==> {
                &&& spec_run_from(orig, 0)->Some_0.0 == spec_run_from(
                    script@,
                    state.try_count as nat,
                )->Some_0.0
                &&& spec_run_from(orig, 0)->Some_0.1 == delays@ + spec_run_from(
                    script@,
                    state.try_count as nat,
                )->Some_0.1
            },
        decreases script@.len(),
    {
        if script.len() == 0 {
            assert(spec_run_from(script@, state.try_count as nat) is None);
            return None;
        }
        let ghost pre = script@;
        let ghost c = state.try_count as nat;
        let msg = script.remove(0);
        proof {
            assert(script@ =~= pre.drop_first());
        }
        match backoff_step(state, msg) {
            BackoffStep::Done { result } => {
                proof {
                    assert(spec_run_from(pre, c)->Some_0.1 =~= Seq::<u64>::empty());
                    assert(delays@ + Seq::<u64>::empty() =~= delays@);
                }
                return Some((result, delays));
            },
            BackoffStep::Sleep { state: next, wait_ms } => {
                let ghost before = delays@;
                delays.push(wait_ms);
                proof {
                    if spec_run_from(script@, next.try_count as nat) is Some {
                        let rest = spec_run_from(script@, next.try_count as nat)->Some_0;
                        assert(before + (seq![wait_ms] + rest.1) =~= delays@ + rest.1);
                    }
                }
                state = next;
            },
        }
    }
}

} // verus!
