//! Resilient fetcher: retry with exponential backoff, as a state machine.
//!
//! The caller performs each attempt and each wait. After every attempt it hands
//! the outcome to [`RetryState::record`], which answers with what to do next.

use vstd::prelude::*;

verus! {

/// Attempt cap used for every source.
pub const DEFAULT_MAX_ATTEMPTS: u32 = 3;

/// Number of the last attempt up to which the delay doubles: the delay after
/// a later attempt no longer fits in 64 bits and stays at the largest value.
pub const MAX_ATTEMPT_CAP: u32 = 64;

/// What is said of an invocation that ends without an attempt, because none
/// was allowed.
pub const NO_ATTEMPT_ALLOWED: &'static str = "Request failed: no attempt is allowed";

/// Two to the power of `n`.
pub open spec fn pow2(n: nat) -> nat
    decreases n,
{
    if n == 0 {
        1
    } else {
        2 * pow2((n - 1) as nat)
    }
}

/// Seconds to wait after attempt number `attempt` (counted from 1) has failed:
/// 1, 2, 4, ..., doubling as far as 64 bits go and at the largest value from
/// there on.
pub open spec fn backoff_delay(attempt: nat) -> nat {
    if attempt <= MAX_ATTEMPT_CAP {
        pow2((attempt - 1) as nat)
    } else {
        u64::MAX as nat
    }
}

proof fn lemma_pow2_monotonic(a: nat, b: nat)
    requires
        a <= b,
    ensures
        pow2(a) <= pow2(b),
    decreases b,
{
    if a < b {
        lemma_pow2_monotonic(a, (b - 1) as nat);
    }
}

proof fn lemma_pow2_63()
    ensures
        pow2(63) == 0x8000_0000_0000_0000,
{
    reveal_with_fuel(pow2, 64);
}

/// What the caller does after an attempt.
#[derive(Debug)]
pub enum RetryDecision<T, E> {
    /// The attempt succeeded: hand `value` back at once. `attempts` were made.
    Done { value: T, attempts: u32 },
    /// Attempt number `failed_attempt` failed and more are allowed: report the
    /// retry, which is attempt number `next_attempt`, wait `delay_secs`
    /// seconds, then try again.
    RetryAfter { delay_secs: u64, failed_attempt: u32, next_attempt: u32, error: E },
    /// The last allowed attempt failed: hand its error back. `attempts` were made.
    Exhausted { error: E, attempts: u32 },
}

/// Attempt counter and current backoff delay of one invocation.
#[derive(Debug)]
pub struct RetryState {
    attempt: u32,
    delay: u64,
    max_attempts: u32,
}

/// The counter of a [`RetryState`], as numbers.
pub struct RetryView {
    /// Number of the attempt in flight, counted from 1.
    pub attempt: nat,
    /// Number of attempts allowed in all.
    pub max_attempts: nat,
}

/// The counter after an attempt with outcome `ok`: a failure with attempts left
/// moves on to the next attempt, anything else ends the invocation where it is.
pub open spec fn retry_step(s: RetryView, ok: bool) -> RetryView {
    if !ok && s.attempt < s.max_attempts {
        RetryView { attempt: s.attempt + 1, max_attempts: s.max_attempts }
    } else {
        s
    }
}

/// Whether an attempt with outcome `ok` in state `s` is followed by another.
pub open spec fn retries_after(s: RetryView, ok: bool) -> bool {
    !ok && s.attempt < s.max_attempts
}

/// Whether the attempt that state `s` stands at may be made. It may not under
/// a cap of no attempts: the invocation is then exhausted before it starts.
pub open spec fn allows_attempt(s: RetryView) -> bool {
    s.attempt <= s.max_attempts
}

impl View for RetryState {
    type V = RetryView;

    closed spec fn view(&self) -> RetryView {
        RetryView { attempt: self.attempt as nat, max_attempts: self.max_attempts as nat }
    }
}

impl RetryState {
    #[verifier::type_invariant]
    spec fn inv(self) -> bool {
        &&& Self::wf(self@)
        &&& self.delay == backoff_delay(self.attempt as nat)
    }

    /// What holds of the counter of every state: the attempt it stands at is
    /// within the cap, but for the first attempt under a cap of none.
    pub open spec fn wf(v: RetryView) -> bool {
        &&& 1 <= v.attempt
        &&& v.attempt <= v.max_attempts || (v.max_attempts == 0 && v.attempt == 1)
    }

    /// A fresh invocation, which stands at its first attempt. Under a cap of
    /// no attempts it is exhausted at once: [`RetryState::may_attempt`] says
    /// so before anything is tried.
    pub fn new(max_attempts: u32) -> (s: RetryState)
        ensures
            s@ == (RetryView { attempt: 1, max_attempts: max_attempts as nat }),
    {
        RetryState { attempt: 1, delay: 1, max_attempts }
    }

    /// Whether the attempt that the invocation stands at may be made. Where
    /// it may not, the invocation ends as exhausted, without an attempt and
    /// without an error of one.
    pub fn may_attempt(&self) -> (allowed: bool)
        ensures
            allowed == allows_attempt(self@),
            allowed == (self@.max_attempts > 0),
    {
        proof {
            use_type_invariant(self);
        }
        self.attempt <= self.max_attempts
    }

    /// Number of the attempt in flight, counted from 1.
    pub fn attempt(&self) -> (n: u32)
        ensures
            n == self@.attempt,
            Self::wf(self@),
    {
        proof {
            use_type_invariant(self);
        }
        self.attempt
    }

    /// Number of attempts allowed in all.
    pub fn max_attempts(&self) -> (n: u32)
        ensures
            n == self@.max_attempts,
    {
        self.max_attempts
    }

    /// Seconds to wait if the attempt in flight fails and another follows.
    pub fn delay_secs(&self) -> (d: u64)
        ensures
            d == backoff_delay(self@.attempt),
    {
        proof {
            use_type_invariant(self);
        }
        self.delay
    }

    /// Takes the outcome of the attempt in flight and says what follows.
    pub fn record<T, E>(&mut self, result: Result<T, E>) -> (d: RetryDecision<T, E>)
        ensures
            final(self)@ == retry_step(old(self)@, result is Ok),
            match result {
                Ok(v) => d == (RetryDecision::<T, E>::Done {
                    value: v,
                    attempts: old(self)@.attempt as u32,
                }),
                Err(e) => if retries_after(old(self)@, false) {
                    d == (RetryDecision::<T, E>::RetryAfter {
                        delay_secs: backoff_delay(old(self)@.attempt) as u64,
                        failed_attempt: old(self)@.attempt as u32,
                        next_attempt: (old(self)@.attempt + 1) as u32,
                        error: e,
                    })
                } else {
                    d == (RetryDecision::<T, E>::Exhausted {
                        error: e,
                        attempts: old(self)@.attempt as u32,
                    })
                },
            },
    {
        proof {
            use_type_invariant(&*self);
        }
        match result {
            Ok(value) => RetryDecision::Done { value, attempts: self.attempt },
            Err(error) => {
                if self.attempt < self.max_attempts {
                    let failed_attempt: u32 = self.attempt;
                    let delay_secs: u64 = self.delay;
                    let next_delay: u64 = if failed_attempt < MAX_ATTEMPT_CAP {
                        proof {
                            lemma_pow2_monotonic((failed_attempt - 1) as nat, 62);
                            lemma_pow2_63();
                        }
                        delay_secs * 2
                    } else {
                        u64::MAX
                    };
                    *self = RetryState {
                        attempt: failed_attempt + 1,
                        delay: next_delay,
                        max_attempts: self.max_attempts,
                    };
                    RetryDecision::RetryAfter {
                        delay_secs,
                        failed_attempt,
                        next_attempt: failed_attempt + 1,
                        error,
                    }
                } else {
                    RetryDecision::Exhausted { error, attempts: self.attempt }
                }
            },
        }
    }
}

/// Number of failures at the head of `outcomes`, each entry saying whether one
/// attempt succeeded.
pub open spec fn leading_failures(outcomes: Seq<bool>) -> nat
    decreases outcomes.len(),
{
    if outcomes.len() == 0 || outcomes[0] {
        0
    } else {
        1 + leading_failures(outcomes.skip(1))
    }
}

/// Number of attempts made from state `s` on, when the attempts turn out as
/// `outcomes` says, in order. None is made where none is allowed.
pub open spec fn attempts_made(s: RetryView, outcomes: Seq<bool>) -> nat
    decreases outcomes.len(),
{
    if outcomes.len() == 0 || !allows_attempt(s) {
        0
    } else if retries_after(s, outcomes[0]) {
        1 + attempts_made(retry_step(s, outcomes[0]), outcomes.skip(1))
    } else {
        1
    }
}

/// The waits between those attempts, in seconds.
pub open spec fn delays_waited(s: RetryView, outcomes: Seq<bool>) -> Seq<nat>
    decreases outcomes.len(),
{
    if outcomes.len() == 0 || !allows_attempt(s) {
        Seq::empty()
    } else if retries_after(s, outcomes[0]) {
        seq![backoff_delay(s.attempt)] + delays_waited(
            retry_step(s, outcomes[0]),
            outcomes.skip(1),
        )
    } else {
        Seq::empty()
    }
}

/// Whether the invocation ends in the success of an attempt; `None` where it
/// ends without an attempt, and where `outcomes` ends before the invocation
/// does.
pub open spec fn final_success(s: RetryView, outcomes: Seq<bool>) -> Option<bool>
    decreases outcomes.len(),
{
    if outcomes.len() == 0 || !allows_attempt(s) {
        None
    } else if retries_after(s, outcomes[0]) {
        final_success(retry_step(s, outcomes[0]), outcomes.skip(1))
    } else {
        Some(outcomes[0])
    }
}

/// Number of waits between `made` attempts.
pub open spec fn waits_between(made: nat) -> nat {
    if made == 0 {
        0
    } else {
        (made - 1) as nat
    }
}

/// The smaller of two numbers.
pub open spec fn min_nat(a: nat, b: nat) -> nat {
    if a <= b {
        a
    } else {
        b
    }
}

proof fn lemma_run_from(s: RetryView, outcomes: Seq<bool>)
    requires
        RetryState::wf(s),
        allows_attempt(s),
        outcomes.len() >= min_nat(leading_failures(outcomes) + 1, (s.max_attempts - s.attempt + 1) as nat),
    ensures
        attempts_made(s, outcomes) == min_nat(
            leading_failures(outcomes) + 1,
            (s.max_attempts - s.attempt + 1) as nat,
        ),
        delays_waited(s, outcomes).len() == attempts_made(s, outcomes) - 1,
        forall|i: int|
            0 <= i < delays_waited(s, outcomes).len() ==> delays_waited(s, outcomes)[i]
                == backoff_delay((s.attempt + i) as nat),
        final_success(s, outcomes) == Some(
            leading_failures(outcomes) + s.attempt <= s.max_attempts,
        ),
        attempts_made(s, outcomes) >= 1,
        outcomes[attempts_made(s, outcomes) - 1] == (leading_failures(outcomes) + s.attempt
            <= s.max_attempts),
    decreases outcomes.len(),
{
    if retries_after(s, outcomes[0]) {
        let rest = outcomes.skip(1);
        let next = retry_step(s, outcomes[0]);
        lemma_run_from(next, rest);
        let tail = delays_waited(next, rest);
        let all = delays_waited(s, outcomes);
        assert(all == seq![backoff_delay(s.attempt)] + tail);
        assert forall|i: int| 0 <= i < all.len() implies all[i] == backoff_delay(
            (s.attempt + i) as nat,
        ) by {
            if i > 0 {
                assert(all[i] == tail[i - 1]);
            }
        }
        assert(rest[attempts_made(next, rest) - 1] == outcomes[attempts_made(next, rest) as int]);
    }
}

/// When the first `n` attempts fail and the next one, if it is made, succeeds,
/// an invocation that allows `max_attempts` makes exactly `min(n + 1,
/// max_attempts)` attempts. It waits 1, 2, 4, ... seconds between them, ends
/// with the first success where there is one within the cap, and with the
/// failure of the last allowed attempt otherwise. Under a cap of no attempts
/// it makes none and ends as exhausted. Beyond 64 attempts the waits stay at
/// the largest value.
pub proof fn law_attempts_and_delays(max_attempts: nat, outcomes: Seq<bool>)
    requires
        outcomes.len() >= min_nat(leading_failures(outcomes) + 1, max_attempts),
    ensures
        ({
            let s = RetryView { attempt: 1, max_attempts };
            let n = leading_failures(outcomes);
            let made = attempts_made(s, outcomes);
            &&& made == min_nat(n + 1, max_attempts)
            &&& made <= max_attempts
            &&& delays_waited(s, outcomes) == Seq::new(
                waits_between(made),
                |i: int| backoff_delay((i + 1) as nat),
            )
            &&& max_attempts <= MAX_ATTEMPT_CAP ==> delays_waited(s, outcomes) == Seq::new(
                waits_between(made),
                |i: int| pow2(i as nat),
            )
            &&& final_success(s, outcomes) == (if max_attempts == 0 {
                None
            } else {
                Some(n < max_attempts)
            })
            &&& made >= 1 ==> outcomes[made - 1] == (n < max_attempts)
            &&& n >= max_attempts ==> made == min_nat(n, max_attempts)
        }),
{
    let s = RetryView { attempt: 1, max_attempts };
    let made = attempts_made(s, outcomes);
    if max_attempts > 0 {
        lemma_run_from(s, outcomes);
    }
    assert(delays_waited(s, outcomes) =~= Seq::new(
        waits_between(made),
        |i: int| backoff_delay((i + 1) as nat),
    ));
    if max_attempts <= MAX_ATTEMPT_CAP {
        assert(delays_waited(s, outcomes) =~= Seq::new(
            waits_between(made),
            |i: int| pow2(i as nat),
        ));
    }
}

/// With the cap of three attempts that every source uses, the waits are 1 s
/// after the first failure and 2 s after the second, and there is no third
/// wait.
pub proof fn law_three_attempts(outcomes: Seq<bool>)
    requires
        outcomes.len() >= 3,
    ensures
        ({
            let s = RetryView { attempt: 1, max_attempts: 3 };
            let made = attempts_made(s, outcomes);
            &&& 1 <= made <= 3
            &&& made == min_nat(leading_failures(outcomes) + 1, 3)
            &&& made == 1 ==> delays_waited(s, outcomes) == Seq::<nat>::empty()
            &&& made == 2 ==> delays_waited(s, outcomes) == seq![1nat]
            &&& made == 3 ==> delays_waited(s, outcomes) == seq![1nat, 2nat]
        }),
{
    let s = RetryView { attempt: 1, max_attempts: 3 };
    law_attempts_and_delays(3, outcomes);
    reveal_with_fuel(pow2, 3);
    let made = attempts_made(s, outcomes);
    let d = delays_waited(s, outcomes);
    if made == 1 {
        assert(d =~= Seq::<nat>::empty());
    } else if made == 2 {
        assert(d =~= seq![1nat]);
    } else {
        assert(d =~= seq![1nat, 2nat]);
    }
}

} // verus!
