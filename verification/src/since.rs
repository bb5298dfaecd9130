//! Time-lock values and their order.
//!
//! A time lock is a 64-bit word. Bit 63 tells a relative lock from an
//! absolute one, bits 61 and 62 select the metric (block number, epoch with
//! fraction, timestamp), and the low 56 bits hold the value. Two locks are
//! ordered only if they agree on both.

use vstd::prelude::*;

verus! {

pub const LOCK_TYPE_FLAG: u64 = 0x8000_0000_0000_0000;

pub const METRIC_TYPE_FLAG_MASK: u64 = 0x6000_0000_0000_0000;

pub const VALUE_MASK: u64 = 0x00ff_ffff_ffff_ffff;

pub const LOCK_BY_BLOCK_NUMBER: u64 = 0x0000_0000_0000_0000;

pub const LOCK_BY_EPOCH: u64 = 0x2000_0000_0000_0000;

pub const LOCK_BY_TIMESTAMP: u64 = 0x4000_0000_0000_0000;

/// Largest timestamp, in seconds, whose count of milliseconds fits in 64 bits.
pub const MAX_TIMESTAMP_SECONDS: u64 = 18_446_744_073_709_551;

/// Whether the lock counts from a fixed origin and not from the input's own
/// block.
pub open spec fn is_absolute(since: u64) -> bool {
    since & LOCK_TYPE_FLAG == 0
}

/// The metric bits of the lock.
pub open spec fn metric(since: u64) -> u64 {
    since & METRIC_TYPE_FLAG_MASK
}

/// The 56 value bits of the lock.
pub open spec fn value(since: u64) -> u64 {
    since & VALUE_MASK
}

/// The whole number of epochs in an epoch value.
pub open spec fn epoch_number(value: u64) -> u64 {
    (value >> 0) & 0xff_ffff
}

/// The numerator of the fraction in an epoch value. A fraction with the
/// denominator zero counts as zero.
pub open spec fn epoch_index(value: u64) -> u64 {
    if (value >> 40) & 0xffff == 0 {
        0
    } else {
        (value >> 24) & 0xffff
    }
}

/// The denominator of the fraction in an epoch value. A fraction with the
/// denominator zero counts as zero over one.
pub open spec fn epoch_length(value: u64) -> u64 {
    if (value >> 40) & 0xffff == 0 {
        1
    } else {
        (value >> 40) & 0xffff
    }
}

/// Whether the epoch value `a` is no earlier than the epoch value `b`.
pub open spec fn epoch_ge(a: u64, b: u64) -> bool {
    epoch_number(a) > epoch_number(b) || (epoch_number(a) == epoch_number(b) && epoch_index(a)
        * epoch_length(b) >= epoch_index(b) * epoch_length(a))
}

/// Whether `since` and `bound` can be compared and `since` has reached
/// `bound`.
pub open spec fn since_ge(since: u64, bound: u64) -> bool {
    &&& is_absolute(since) == is_absolute(bound)
    &&& metric(since) == metric(bound)
    &&& if metric(since) == LOCK_BY_BLOCK_NUMBER {
        value(since) >= value(bound)
    } else if metric(since) == LOCK_BY_EPOCH {
        epoch_ge(value(since), value(bound))
    } else if metric(since) == LOCK_BY_TIMESTAMP {
        value(since) >= value(bound)
    } else {
        false
    }
}

/// Whether the lock, if it is a timestamp, counts milliseconds that fit in 64
/// bits.
pub open spec fn millis_fit(since: u64) -> bool {
    metric(since) == LOCK_BY_TIMESTAMP ==> value(since) <= MAX_TIMESTAMP_SECONDS
}

/// Compares two locks with `>=` of `ckb_std::since::Since`. Trusted: that
/// comparison holds exactly when the two agree on the relative flag and on the
/// metric, the metric is one of the three known ones, and the values are in
/// order (block numbers and timestamps as integers, epochs as number and
/// fraction). It turns a timestamp into milliseconds first, so timestamps
/// past `MAX_TIMESTAMP_SECONDS` are left out.
#[verifier::external_body]
pub(crate) fn since_ge_checked(since: u64, bound: u64) -> (reached: bool)
    requires
        millis_fit(since),
        millis_fit(bound),
    ensures
        reached == since_ge(since, bound),
{
    ckb_std::since::Since::new(since) >= ckb_std::since::Since::new(bound)
}

/// Whether the time lock `since` of an input has reached `bound`. Locks that
/// differ in the relative flag or in the metric are not comparable, and
/// nothing is reached then.
pub fn since_reached(since: u64, bound: u64) -> (reached: bool)
    ensures
        reached == since_ge(since, bound),
{
    let since_fits = since & METRIC_TYPE_FLAG_MASK != LOCK_BY_TIMESTAMP || since & VALUE_MASK
        <= MAX_TIMESTAMP_SECONDS;
    let bound_fits = bound & METRIC_TYPE_FLAG_MASK != LOCK_BY_TIMESTAMP || bound & VALUE_MASK
        <= MAX_TIMESTAMP_SECONDS;
    if since_fits && bound_fits {
        since_ge_checked(since, bound)
    } else {
        (since & LOCK_TYPE_FLAG == 0) == (bound & LOCK_TYPE_FLAG == 0) && since
            & METRIC_TYPE_FLAG_MASK == LOCK_BY_TIMESTAMP && bound & METRIC_TYPE_FLAG_MASK
            == LOCK_BY_TIMESTAMP && since & VALUE_MASK >= bound & VALUE_MASK
    }
}

} // verus!
