//! Decision logic of the two reporters.
//!
//! Each reporter's clock reads and console writes happen outside the
//! library; the functions here take the readings as plain values, pick the
//! success or error outcome, and fix the value the reporter hands back.

use vstd::prelude::*;
use vstd::arithmetic::div_mod::lemma_div_is_ordered;
use vstd::arithmetic::div_mod::lemma_div_multiples_vanish;
use vstd::arithmetic::div_mod::lemma_fundamental_div_mod_converse;

use crate::time::Duration;
use crate::time::Instant;
use crate::time::NANOS_PER_SEC;
use crate::time::TimeError;

verus! {

/// Seconds the elapsed-time reporter waits between its two clock readings.
pub const REPORT_WAIT_SECS: u64 = 2;

/// The elapsed-time reporter's outcome, given the reading taken before the
/// wait and the reading taken after it: the instant handed back is always
/// the first reading, and the span between the readings is reported unless
/// the clock regressed.
pub fn report_elapsed_outcome(start: &Instant, now: &Instant) -> (r: (
    Instant,
    Result<Duration, TimeError>,
))
    requires
        start.wf(),
        now.wf(),
    ensures
        r.0 == *start,
        r.1 is Ok <==> start.since_epoch_nanos() <= now.since_epoch_nanos(),
        (r.1 matches Ok(d) ==> d.wf() && d.as_nanos() == now.since_epoch_nanos()
            - start.since_epoch_nanos()),
        (r.1 matches Err(e) ==> e == TimeError::ClockComparisonFailure),
{
    (*start, now.duration_since(start))
}

/// The epoch-offset reporter's outcome for a span `n`: the instant handed
/// back is always the epoch itself, whatever `n` is; the offset `epoch - n`
/// is the epoch again for a zero span and underflows the representable
/// range for any positive one.
pub fn report_epoch_offset_outcome(n: &Duration) -> (r: (
    Instant,
    Result<Instant, TimeError>,
))
    requires
        n.wf(),
    ensures
        r.0.wf() && r.0.since_epoch_nanos() == 0,
        (n.as_nanos() == 0 ==> (r.1 matches Ok(t) && t == r.0)),
        (n.as_nanos() > 0 ==> (r.1 matches Err(e) && e == TimeError::TimeRangeUnderflow)),
{
    let epoch = Instant::epoch();
    let offset = epoch.checked_sub(n);
    (epoch, offset)
}

/// When the clock does not regress during the elapsed-time report, the
/// whole-second count of the reported span is the non-negative floor of the
/// nanosecond difference between the two readings; in particular, whenever
/// the second reading is at least the full wait after the first, that count
/// is at least the wait itself.
pub proof fn lemma_elapsed_whole_seconds(start: Instant, now: Instant, d: Duration)
    requires
        start.wf(),
        now.wf(),
        d.wf(),
        start.since_epoch_nanos() <= now.since_epoch_nanos(),
        d.as_nanos() == now.since_epoch_nanos() - start.since_epoch_nanos(),
    ensures
        d.secs == (now.since_epoch_nanos() - start.since_epoch_nanos()) / (NANOS_PER_SEC as int),
        now.since_epoch_nanos() - start.since_epoch_nanos() >= REPORT_WAIT_SECS * (
        NANOS_PER_SEC as int) ==> d.secs >= REPORT_WAIT_SECS,
{
    let k = NANOS_PER_SEC as int;
    let diff = now.since_epoch_nanos() - start.since_epoch_nanos();
    lemma_fundamental_div_mod_converse(diff, k, d.secs as int, d.nanos as int);
    if diff >= REPORT_WAIT_SECS * k {
        lemma_div_is_ordered(REPORT_WAIT_SECS * k, diff, k);
        lemma_div_multiples_vanish(REPORT_WAIT_SECS as int, k);
    }
}

} // verus!
