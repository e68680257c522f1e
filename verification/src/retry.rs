//! The retry rule shared by the embedding and chat providers: which
//! failures are retried, how long to wait, and when to give up.
use vstd::prelude::*;

verus! {

/// How a failed request is treated by the retry rule.
#[derive(Debug, Clone, Copy, PartialEq, Eq, Structural)]
pub enum FailureClass {
    /// Rate limited; the provider asked to wait this long before retrying
    RateLimited { retry_after_ms: u64 },
    /// A transport failure or a server error (5xx): worth retrying
    Transient,
    /// Anything else: retrying would not help
    Permanent,
}

/// How long to wait before the next attempt.
#[derive(Debug, Clone, Copy, PartialEq, Eq, Structural)]
pub enum RetryDelay {
    /// The wait the provider asked for
    Fixed { ms: u64 },
    /// The exponential backoff of the retry configuration for this attempt
    Backoff { attempt: u32 },
}

/// What to do after a failed attempt.
#[derive(Debug, Clone, Copy, PartialEq, Eq, Structural)]
pub enum RetryStep {
    /// Wait, then try again
    Retry(RetryDelay),
    /// Stop and report the failure itself
    GiveUp,
    /// Stop and report that all attempts were used
    Exhausted { attempts: u32 },
}

/// The step after failed attempt `attempt` (counted from 0) when at most
/// `max_retries` retries are allowed.
pub open spec fn retry_step(attempt: u32, max_retries: u32, class: FailureClass) -> RetryStep {
    let retryable = !(class is Permanent);
    if retryable && attempt < max_retries {
        match class {
            FailureClass::RateLimited { retry_after_ms } => RetryStep::Retry(
                RetryDelay::Fixed { ms: retry_after_ms },
            ),
            _ => RetryStep::Retry(RetryDelay::Backoff { attempt }),
        }
    } else if attempt >= max_retries {
        RetryStep::Exhausted { attempts: (attempt + 1) as u32 }
    } else {
        RetryStep::GiveUp
    }
}

/// Decides what follows failed attempt `attempt`.
pub fn next_retry_step(attempt: u32, max_retries: u32, class: FailureClass) -> (r: RetryStep)
    requires
        attempt <= max_retries,
        max_retries < u32::MAX,
    ensures
        r == retry_step(attempt, max_retries, class),
{
    let retryable = match class {
        FailureClass::Permanent => false,
        _ => true,
    };
    if retryable && attempt < max_retries {
        match class {
            FailureClass::RateLimited { retry_after_ms } => RetryStep::Retry(
                RetryDelay::Fixed { ms: retry_after_ms },
            ),
            _ => RetryStep::Retry(RetryDelay::Backoff { attempt }),
        }
    } else if attempt >= max_retries {
        RetryStep::Exhausted { attempts: attempt + 1 }
    } else {
        RetryStep::GiveUp
    }
}

/// The retry rule never allows more than `max_retries + 1` attempts: the
/// last allowed attempt always stops, reporting `max_retries + 1` attempts;
/// a permanent failure stops at once; a retryable failure before the last
/// attempt is always retried, after the wait the provider asked for when it
/// gave one.
pub proof fn retry_rule_is_bounded(attempt: u32, max_retries: u32, class: FailureClass)
    requires
        attempt <= max_retries,
        max_retries < u32::MAX,
    ensures
        attempt == max_retries ==> retry_step(attempt, max_retries, class)
            == (RetryStep::Exhausted { attempts: (max_retries + 1) as u32 }),
        retry_step(attempt, max_retries, class) is Retry ==> attempt + 1 <= max_retries,
        class is Permanent && attempt < max_retries ==> retry_step(attempt, max_retries, class)
            is GiveUp,
        !(class is Permanent) && attempt < max_retries ==> retry_step(
            attempt,
            max_retries,
            class,
        ) is Retry,
        class is RateLimited && attempt < max_retries ==> retry_step(attempt, max_retries, class)
            == RetryStep::Retry(RetryDelay::Fixed { ms: class->retry_after_ms }),
{
}

} // verus!
