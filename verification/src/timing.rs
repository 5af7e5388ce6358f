//! Wall-clock span collection.
//!
//! A [`TimeCollection`] records a series of timed spans: `start`
//! takes a reading of the monotonic clock, `end` appends the
//! nanoseconds elapsed since the last reading, and `average` folds
//! the recorded spans into their mean.  The clock itself is opaque
//! and nondeterministic, so nothing is promised about the recorded
//! magnitudes; the bookkeeping around them — what is recorded, kept
//! and averaged — is verified.

use vstd::prelude::*;
use std::time::Duration;
use std::time::Instant;

verus! {

#[verifier::external_type_specification]
#[verifier::external_body]
pub struct ExInstant(Instant);

/// Relies on `std::time::Instant::now`: an opaque reading of the
/// monotonic clock.  The clock decides the value, so nothing is
/// promised of it.
#[verifier::external_body]
fn instant_now() -> Instant {
    Instant::now()
}

/// Relies on `std::time::Instant::elapsed`: the span between the
/// reading and now.  The clock decides the value, so nothing is
/// promised of it.
#[verifier::external_body]
fn instant_elapsed(i: &Instant) -> Duration {
    i.elapsed()
}

/// Relies on `std::time::Duration::as_nanos`: the span in whole
/// nanoseconds.  The duration is opaque here, so nothing is promised
/// of the value.
#[verifier::external_body]
fn duration_as_nanos(d: &Duration) -> u128 {
    d.as_nanos()
}

/// The sum of a series of recorded spans.
pub open spec fn spec_span_sum(s: Seq<u64>) -> int
    decreases s.len(),
{
    if s.len() == 0 {
        0
    } else {
        spec_span_sum(s.drop_last()) + s.last()
    }
}

/// A series of timed spans in nanoseconds, together with the last
/// clock reading.
pub struct TimeCollection {
    /// The recorded spans, in nanoseconds, saturated at the widest
    /// representable span.
    pub times: Vec<u64>,
    /// The reading the next recorded span is measured from.
    pub current_time: Instant,
}

impl TimeCollection {
    /// An empty collection with room for the given number of spans,
    /// measuring from the moment of its creation.
    pub fn with_capacity(capacity: usize) -> (r: Self)
        ensures
            r.times@.len() == 0,
    {
        TimeCollection { times: Vec::with_capacity(capacity), current_time: instant_now() }
    }

    /// Takes a fresh clock reading; the next recorded span measures
    /// from here.  The recorded spans are untouched.
    pub fn start(&mut self)
        ensures
            final(self).times@ == old(self).times@,
    {
        self.current_time = instant_now();
    }

    /// Records the span since the last reading: exactly one span is
    /// appended and the earlier ones are kept.  The clock decides the
    /// appended magnitude.
    pub fn end(&mut self)
        ensures
            final(self).times@.len() == old(self).times@.len() + 1,
            forall|i: int|
                0 <= i < old(self).times@.len() ==> final(self).times@[i] == old(self).times@[i],
    {
        let d = instant_elapsed(&self.current_time);
        let n = duration_as_nanos(&d);
        let capped: u64 = if n > 0xFFFF_FFFF_FFFF_FFFFu128 {
            u64::MAX
        } else {
            n as u64
        };
        self.times.push(capped);
    }

    /// The mean of the recorded spans: their sum divided by their
    /// count, in nanoseconds.  At least one span must have been
    /// recorded (the mean of nothing is undefined).
    pub fn average(&self) -> (r: u64)
        requires
            self.times@.len() >= 1,
        ensures
            r as int == spec_span_sum(self.times@) / (self.times@.len() as int),
    {
        let n = self.times.len();
        let mut total: u128 = 0;
        let mut i: usize = 0;
        while i < n
            invariant
                n == self.times@.len(),
                i <= n,
                total as int == spec_span_sum(self.times@.take(i as int)),
                total as int <= (i as int) * 0xFFFF_FFFF_FFFF_FFFF,
            decreases n - i,
        {
            proof {
                let pre = self.times@.take(i as int + 1);
                assert(pre.drop_last() =~= self.times@.take(i as int));
                assert(pre.last() == self.times@[i as int]);
                assert((i as int + 1) * 0xFFFF_FFFF_FFFF_FFFF == (i as int) * 0xFFFF_FFFF_FFFF_FFFF
                    + 0xFFFF_FFFF_FFFF_FFFF) by (nonlinear_arith);
                assert((i as int + 1) * 0xFFFF_FFFF_FFFF_FFFF < (0x1_0000_0000_0000_0000int)
                    * 0xFFFF_FFFF_FFFF_FFFF) by (nonlinear_arith)
                    requires
                        (i as int) + 1 < 0x1_0000_0000_0000_0000int,
                ;
            }
            total = total + (self.times[i] as u128);
            i = i + 1;
        }
        proof {
            assert(self.times@.take(n as int) =~= self.times@);
            assert((total as int) / (n as int) <= 0xFFFF_FFFF_FFFF_FFFF) by (nonlinear_arith)
                requires
                    1 <= n as int,
                    0 <= total as int,
                    total as int <= (n as int) * 0xFFFF_FFFF_FFFF_FFFF,
            ;
        }
        (total / (n as u128)) as u64
    }

    /// Forgets every recorded span; the collection starts over.
    pub fn clear(&mut self)
        ensures
            final(self).times@.len() == 0,
    {
        self.times.clear();
    }
}

} // verus!
