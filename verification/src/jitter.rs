//! Humanising jitter: when it applies, and what becomes of a perturbed delay.
//!
//! The perturbation itself is drawn by the host program from a random
//! source. This module decides whether one is drawn at all, and turns the
//! drawn offset into the delay that is waited.

use crate::interval::{
    duration_from_millis, duration_from_nanos, duration_of_millis, duration_of_nanos,
    NANOS_PER_MILLI,
};
use std::time::Duration;
use vstd::prelude::*;

verus! {

/// Whether delays are perturbed, and by how much.
#[derive(Clone, Copy, Debug, PartialEq, Eq, Structural)]
pub struct JitterConfig {
    pub enabled: bool,
    /// The scale of the perturbation in milliseconds.
    pub magnitude: u16,
}

/// How the host program gets the delay of one iteration.
#[derive(Clone, Copy, Debug, PartialEq, Eq, Structural)]
pub enum DelayRequest {
    /// Wait exactly this many nanoseconds.
    Exact(u64),
    /// Draw a perturbation of this magnitude around this many milliseconds.
    Jittered { base_millis: u64, magnitude: u16 },
}

impl JitterConfig {
    /// Jitter applies only where it is enabled with a magnitude above 0.
    pub open spec fn spec_is_active(self) -> bool {
        self.enabled && self.magnitude > 0
    }

    /// Whether delays are perturbed at all.
    pub fn is_active(&self) -> (active: bool)
        ensures
            active == self.spec_is_active(),
    {
        self.enabled && self.magnitude > 0
    }

    /// The request for a base delay: the base delay itself where jitter does
    /// not apply, else a draw around its whole milliseconds.
    pub open spec fn spec_request(self, base_nanos: u64) -> DelayRequest {
        if self.spec_is_active() {
            DelayRequest::Jittered {
                base_millis: base_nanos / 1_000_000,
                magnitude: self.magnitude,
            }
        } else {
            DelayRequest::Exact(base_nanos)
        }
    }

    /// How the delay of the next iteration is to be had.
    pub fn request(&self, base_nanos: u64) -> (req: DelayRequest)
        ensures
            req == self.spec_request(base_nanos),
            !self.spec_is_active() ==> req == DelayRequest::Exact(base_nanos),
    {
        if self.is_active() {
            DelayRequest::Jittered {
                base_millis: base_nanos / NANOS_PER_MILLI,
                magnitude: self.magnitude,
            }
        } else {
            DelayRequest::Exact(base_nanos)
        }
    }
}

/// A base delay moved by an offset, both in milliseconds: their sum, raised
/// to 1 where it is less and cut at the largest `u64`.
pub open spec fn spec_perturbed_millis(base_millis: u64, offset_millis: i64) -> int {
    let sum = base_millis + offset_millis;
    if sum < 1 {
        1
    } else if sum > u64::MAX {
        u64::MAX as int
    } else {
        sum
    }
}

/// A base delay moved by a drawn offset, in milliseconds. It is never 0,
/// whatever was drawn.
pub fn perturbed_millis(base_millis: u64, offset_millis: i64) -> (millis: u64)
    ensures
        millis == spec_perturbed_millis(base_millis, offset_millis),
        millis >= 1,
{
    let sum: i128 = (base_millis as i128) + (offset_millis as i128);
    if sum < 1 {
        1
    } else if sum > (u64::MAX as i128) {
        u64::MAX
    } else {
        sum as u64
    }
}

/// The `Duration` that a request comes to once the offset is drawn: an exact
/// request is waited to the nanosecond, a jittered one in whole
/// milliseconds.
pub fn resolve(req: DelayRequest, offset_millis: i64) -> (d: Duration)
    ensures
        match req {
            DelayRequest::Exact(nanos) => d == duration_of_nanos(nanos),
            DelayRequest::Jittered { base_millis, .. } => d == duration_of_millis(
                spec_perturbed_millis(base_millis, offset_millis) as u64,
            ),
        },
{
    match req {
        DelayRequest::Exact(nanos) => duration_from_nanos(nanos),
        DelayRequest::Jittered { base_millis, .. } => duration_from_millis(
            perturbed_millis(base_millis, offset_millis),
        ),
    }
}

/// Without jitter, or with a magnitude of 0, the delay that is asked for is
/// the base delay exactly, and no offset is drawn.
pub proof fn lemma_inactive_jitter_keeps_base(config: JitterConfig, base_nanos: u64)
    requires
        !config.enabled || config.magnitude == 0,
    ensures
        config.spec_request(base_nanos) == DelayRequest::Exact(base_nanos),
{
}

/// A perturbed delay is at least one millisecond, and it follows the offset:
/// a larger offset never gives a shorter delay, and an offset of 0 leaves a
/// base of at least one millisecond unchanged.
pub proof fn lemma_perturbed_millis_bounds(base_millis: u64, low: i64, high: i64)
    requires
        low <= high,
    ensures
        1 <= spec_perturbed_millis(base_millis, low) <= spec_perturbed_millis(base_millis, high)
            <= u64::MAX,
        base_millis >= 1 ==> spec_perturbed_millis(base_millis, 0) == base_millis,
{
}

} // verus!
