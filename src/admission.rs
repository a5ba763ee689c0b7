//! Per-client admission control: the token-bucket settings that every
//! request passes before it reaches routing.

use vstd::prelude::*;
use actix_governor::GovernorConfigBuilder;

verus! {

/// The largest refill rate the limiter can represent: one token per nanosecond.
pub const MAX_PER_SECOND: u64 = 1_000_000_000;

/// Relies on actix-governor's `GovernorConfigBuilder` with
/// `requests_per_second(per_second)`, `burst_size(burst_size)` and `finish`:
/// the refill interval is one second divided by `per_second` in whole
/// nanoseconds, and `finish` builds a configuration exactly when that
/// interval and the burst size are both non-zero.
#[verifier::external_body]
fn governor_accepts(per_second: u64, burst_size: u32) -> (r: bool)
    requires
        per_second > 0,
    ensures
        r <==> (burst_size > 0 && per_second <= MAX_PER_SECOND),
{
    GovernorConfigBuilder::default().requests_per_second(per_second).burst_size(burst_size).finish().is_some()
}

/// Whether a refill rate and a bucket capacity make a usable token bucket.
pub open spec fn valid_rate_limit(per_second: u64, burst_size: u32) -> bool {
    0 < per_second <= MAX_PER_SECOND && burst_size > 0
}

/// Why an admission policy could not be built.
#[derive(Clone, Copy, Debug, PartialEq, Eq, Structural)]
pub enum AdmissionError {
    /// The refill rate is zero.
    ZeroRate,
    /// The refill rate is positive, but the limiter refused it together with
    /// the bucket capacity: the capacity is zero or the rate is too fine.
    Refused,
}

/// A token bucket per client: `burst_size` tokens at most, refilled at
/// `per_second` tokens a second, one token withdrawn per admitted request.
pub struct AdmissionPolicy {
    per_second: u64,
    burst_size: u32,
}

impl View for AdmissionPolicy {
    type V = (u64, u32);

    closed spec fn view(&self) -> (u64, u32) {
        (self.per_second, self.burst_size)
    }
}

impl AdmissionPolicy {
    #[verifier::type_invariant]
    spec fn inv(&self) -> bool {
        valid_rate_limit(self.per_second, self.burst_size)
    }

    /// Builds the policy for a refill rate and a bucket capacity, as the
    /// limiter accepts them.
    pub fn new(per_second: u64, burst_size: u32) -> (r: Result<AdmissionPolicy, AdmissionError>)
        ensures
            match r {
                Ok(p) => valid_rate_limit(per_second, burst_size) && p@ == (per_second, burst_size),
                Err(e) => !valid_rate_limit(per_second, burst_size) && (e == AdmissionError::ZeroRate
                    <==> per_second == 0),
            },
    {
        if per_second == 0 {
            Err(AdmissionError::ZeroRate)
        } else if governor_accepts(per_second, burst_size) {
            Ok(AdmissionPolicy { per_second, burst_size })
        } else {
            Err(AdmissionError::Refused)
        }
    }

    /// Tokens refilled per second.
    pub fn per_second(&self) -> (r: u64)
        ensures
            r == self@.0,
            0 < r <= MAX_PER_SECOND,
    {
        proof {
            use_type_invariant(self);
        }
        self.per_second
    }

    /// The bucket's capacity.
    pub fn burst_size(&self) -> (r: u32)
        ensures
            r == self@.1,
            r > 0,
    {
        proof {
            use_type_invariant(self);
        }
        self.burst_size
    }
}

} // verus!
