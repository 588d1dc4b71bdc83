//! Retry logic for transient network errors.
use vstd::arithmetic::power2::pow2;
use vstd::prelude::*;

verus! {

/// gRPC status codes that indicate retryable errors:
/// UNKNOWN, DEADLINE_EXCEEDED, RESOURCE_EXHAUSTED, UNAVAILABLE.
pub const RETRYABLE_CODES: [i32; 4] = [2, 4, 8, 14];

/// A gRPC status code after which a call is tried again.
pub open spec fn is_retryable_code(code: i32) -> bool {
    code == 2 || code == 4 || code == 8 || code == 14
}

/// Check if an error is retryable: `status_code` is the gRPC status code of the error when
/// the error is a gRPC status, and `None` for any other error.
pub fn is_retryable(status_code: Option<i32>) -> (r: bool)
    ensures
        r == (status_code matches Some(code) && is_retryable_code(code)),
        r == (status_code matches Some(code) && RETRYABLE_CODES@.contains(code)),
{
    proof {
        if let Some(code) = status_code {
            lemma_retryable_codes_listed(code);
        }
    }
    match status_code {
        None => false,
        Some(code) => {
            let mut i: usize = 0;
            while i < 4
                invariant
                    0 <= i <= 4,
                    status_code == Some(code),
                    RETRYABLE_CODES@.len() == 4,
                    RETRYABLE_CODES@[0] == 2,
                    RETRYABLE_CODES@[1] == 4,
                    RETRYABLE_CODES@[2] == 8,
                    RETRYABLE_CODES@[3] == 14,
                    forall|j: int| 0 <= j < i ==> RETRYABLE_CODES@[j] != code,
                decreases 4 - i,
            {
                if RETRYABLE_CODES[i] == code {
                    assert(RETRYABLE_CODES@[i as int] == code);
                    return true;
                }
                i = i + 1;
            }
            false
        },
    }
}

/// The retryable codes are exactly those listed in `RETRYABLE_CODES`: UNKNOWN (2),
/// DEADLINE_EXCEEDED (4), RESOURCE_EXHAUSTED (8) and UNAVAILABLE (14).
pub proof fn lemma_retryable_codes_listed(code: i32)
    ensures
        is_retryable_code(code) <==> RETRYABLE_CODES@.contains(code),
        RETRYABLE_CODES@ =~= seq![2i32, 4i32, 8i32, 14i32],
{
    let codes = RETRYABLE_CODES@;
    assert(codes.len() == 4);
    assert(codes[0] == 2 && codes[1] == 4 && codes[2] == 8 && codes[3] == 14);
    if is_retryable_code(code) {
        if code == 2 {
            assert(codes[0] == code);
        } else if code == 4 {
            assert(codes[1] == code);
        } else if code == 8 {
            assert(codes[2] == code);
        } else {
            assert(codes[3] == code);
        }
    }
    if codes.contains(code) {
        let i = choose|i: int| 0 <= i < codes.len() && codes[i] == code;
        assert(i == 0 || i == 1 || i == 2 || i == 3);
    }
}

/// The pause, in milliseconds, after the failed attempt number `attempt` (counted from 0):
/// 100 ms, doubled after each attempt.
pub open spec fn retry_delay_ms(attempt: nat) -> nat {
    100 * pow2(attempt)
}

/// The last attempt number whose pause fits in a `u64`.
pub const MAX_BACKOFF_ATTEMPT: u32 = 57;

/// The pause after the failed attempt number `attempt`.
pub fn retry_delay(attempt: u32) -> (ms: u64)
    requires
        attempt <= MAX_BACKOFF_ATTEMPT,
    ensures
        ms == retry_delay_ms(attempt as nat),
{
    let mut ms: u64 = 100;
    let mut i: u32 = 0;
    proof {
        vstd::arithmetic::power2::lemma2_to64_rest();
        vstd::arithmetic::power2::lemma2_to64();
    }
    while i < attempt
        invariant
            i <= attempt <= MAX_BACKOFF_ATTEMPT,
            ms == retry_delay_ms(i as nat),
            pow2(57) == 0x200000000000000,
        decreases attempt - i,
    {
        proof {
            vstd::arithmetic::power2::lemma_pow2_unfold((i + 1) as nat);
            if i + 1 < 57 {
                vstd::arithmetic::power2::lemma_pow2_strictly_increases((i + 1) as nat, 57);
            }
        }
        ms = ms * 2;
        i = i + 1;
    }
    ms
}

/// What to do after an attempt failed.
#[derive(Debug, Clone, Copy, PartialEq, Eq, Structural)]
pub enum RetryAction {
    /// Wait this long, then make the next attempt.
    Backoff { delay_ms: u64 },
    /// Stop and report the last error.
    GiveUp,
}

/// The action after the failed attempt number `attempt` of `attempts`: back off and try again
/// while attempts are left and the error is retryable, else give up.
pub open spec fn retry_action_after(attempt: nat, attempts: nat, retryable: bool) -> RetryAction {
    if retryable && attempt + 1 < attempts {
        RetryAction::Backoff { delay_ms: retry_delay_ms(attempt) as u64 }
    } else {
        RetryAction::GiveUp
    }
}

/// Decide what follows the failed attempt number `attempt` (counted from 0) out of `attempts`,
/// given whether its error is retryable.
pub fn after_failed_attempt(attempt: u32, attempts: u32, retryable: bool) -> (a: RetryAction)
    requires
        attempt < attempts,
        retryable && attempt + 1 < attempts ==> attempt <= MAX_BACKOFF_ATTEMPT,
    ensures
        a == retry_action_after(attempt as nat, attempts as nat, retryable),
        a is Backoff <==> retryable && attempt + 1 < attempts,
        a matches RetryAction::Backoff { delay_ms } ==> delay_ms == 100 * pow2(attempt as nat),
{
    proof {
        if retryable && attempt + 1 < attempts {
            lemma_retry_backs_off(attempt as nat, attempts as nat, retryable);
        }
    }
    if retryable && attempt + 1 < attempts {
        RetryAction::Backoff { delay_ms: retry_delay(attempt) }
    } else {
        RetryAction::GiveUp
    }
}

/// A retryable failure with attempts left always backs off, by 100 ms times two to the
/// number of the failed attempt; otherwise the retries end.
pub proof fn lemma_retry_backs_off(attempt: nat, attempts: nat, retryable: bool)
    requires
        attempt < attempts,
        attempt <= MAX_BACKOFF_ATTEMPT,
    ensures
        retryable && attempt + 1 < attempts ==> retry_action_after(attempt, attempts, retryable)
            == (RetryAction::Backoff { delay_ms: (100 * pow2(attempt)) as u64 }),
        retryable && attempt + 1 < attempts ==> 100 * pow2(attempt) <= u64::MAX,
        !(retryable && attempt + 1 < attempts) ==> retry_action_after(attempt, attempts, retryable)
            == RetryAction::GiveUp,
{
    vstd::arithmetic::power2::lemma2_to64_rest();
    if attempt < 57 {
        vstd::arithmetic::power2::lemma_pow2_strictly_increases(attempt, 57);
    }
}

/// Each pause is twice the one before it, starting at 100 ms.
pub proof fn lemma_retry_delay_doubles(attempt: nat)
    ensures
        retry_delay_ms(0) == 100,
        retry_delay_ms(attempt + 1) == 2 * retry_delay_ms(attempt),
{
    vstd::arithmetic::power2::lemma2_to64();
    vstd::arithmetic::power2::lemma_pow2_unfold(attempt + 1);
}

/// A failure that is not retryable, or that of the last attempt, ends the retries: no more
/// than `attempts` attempts are ever made.
pub proof fn lemma_retries_end(attempt: nat, attempts: nat, retryable: bool)
    requires
        attempt < attempts,
        !retryable || attempt + 1 == attempts,
    ensures
        retry_action_after(attempt, attempts, retryable) == RetryAction::GiveUp,
{
}

} // verus!
