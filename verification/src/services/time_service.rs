use vstd::prelude::*;

use crate::timestamp::{
    is_representable, local_unix_seconds, midnight_of_local_date, midnight_utc, representable, Timestamp, MAX_UNIX_SECONDS,
    MIN_UNIX_SECONDS, NANOS_PER_DAY, NANOS_PER_SECOND,
};

verus! {

/// Knows at which time of day (UTC) the day's data is cleaned up.
pub struct TimeService {
    /// Time of day of the cleanup, in nanoseconds after midnight UTC.
    pub day_data_cleanup_time_utc: i128,
}

/// The cleanup instant that `get_previous_cleanup_time_in_utc` gives for `now`.
pub open spec fn previous_cleanup(now: Timestamp, cleanup_time: int) -> int {
    let candidate = midnight_of_local_date(now) + cleanup_time;
    if candidate > now.unix_nanos {
        candidate - NANOS_PER_DAY as int
    } else {
        candidate
    }
}

/// The `time` crate can hold the candidate cleanup instant and, where it is stepped back by a
/// day, the result as well (the arithmetic on `OffsetDateTime` panics otherwise).
pub open spec fn cleanup_in_range(now: Timestamp, cleanup_time: int) -> bool {
    let candidate = midnight_of_local_date(now) + cleanup_time;
    &&& MIN_UNIX_SECONDS * NANOS_PER_SECOND <= candidate < (MAX_UNIX_SECONDS + 1) * NANOS_PER_SECOND
    &&& candidate > now.unix_nanos ==> MIN_UNIX_SECONDS * NANOS_PER_SECOND <= candidate
        - NANOS_PER_DAY
}

impl TimeService {
    pub fn new(day_data_cleanup_time_utc: i128) -> (r: Self)
        ensures
            r.day_data_cleanup_time_utc == day_data_cleanup_time_utc,
    {
        Self { day_data_cleanup_time_utc }
    }

    /// Whether [`Self::get_previous_cleanup_time_in_utc`] can be asked about `now`: the
    /// `time` crate holds `now` and the cleanup instants computed from it.
    pub fn can_compute_previous_cleanup(&self, now: Timestamp) -> (r: bool)
        ensures
            r == (representable(now) && cleanup_in_range(now, self.day_data_cleanup_time_utc as int)),
    {
        if !is_representable(now) {
            return false;
        }
        let d = self.day_data_cleanup_time_utc;
        let bound: i128 = 10_000_000_000_000_000_000_000;
        if d < -bound || d > bound {
            return false;
        }
        let midnight = midnight_utc(now).unix_nanos;
        let candidate = midnight + d;
        let low = MIN_UNIX_SECONDS * NANOS_PER_SECOND;
        let high = (MAX_UNIX_SECONDS + 1) * NANOS_PER_SECOND;
        if candidate < low || candidate >= high {
            return false;
        }
        !(candidate > now.unix_nanos && candidate - NANOS_PER_DAY < low)
    }

    /// The last cleanup at or before `now`: midnight UTC of `now`'s local date plus the
    /// cleanup time of day, one day earlier when that lies after `now`.
    pub fn get_previous_cleanup_time_in_utc(&self, now: Timestamp) -> (r: Timestamp)
        requires
            representable(now),
            cleanup_in_range(now, self.day_data_cleanup_time_utc as int),
        ensures
            r.unix_nanos == previous_cleanup(now, self.day_data_cleanup_time_utc as int),
            r.offset_seconds == 0,
    {
        let midnight = midnight_utc(now);
        let mut previous_cleanup = midnight.unix_nanos + self.day_data_cleanup_time_utc;
        if previous_cleanup > now.unix_nanos {
            previous_cleanup = previous_cleanup - NANOS_PER_DAY;
        }
        Timestamp { unix_nanos: previous_cleanup, offset_seconds: 0 }
    }
}

/// For a UTC clock reading and a cleanup time of day within one day, the previous cleanup
/// is at or before `now`, less than a day before it, and falls at the cleanup time of day.
pub proof fn lemma_previous_cleanup_is_latest_before(now: Timestamp, cleanup_time: int)
    requires
        now.offset_seconds == 0,
        0 <= cleanup_time < NANOS_PER_DAY,
    ensures
        previous_cleanup(now, cleanup_time) <= now.unix_nanos,
        now.unix_nanos < previous_cleanup(now, cleanup_time) + NANOS_PER_DAY,
        previous_cleanup(now, cleanup_time) % (NANOS_PER_DAY as int) == cleanup_time,
{
    let n = now.unix_nanos as int;
    let day = NANOS_PER_DAY as int;
    let m = midnight_of_local_date(now);
    assert(m == (n / day) * day);
    vstd::arithmetic::div_mod::lemma_fundamental_div_mod(n, day);
    assert(m <= n < m + day);
    let p = previous_cleanup(now, cleanup_time);
    if m + cleanup_time > n {
        assert(p == (n / day - 1) * day + cleanup_time) by (nonlinear_arith)
            requires p == m + cleanup_time - day, m == (n / day) * day;
        vstd::arithmetic::div_mod::lemma_mod_multiples_vanish(n / day - 1, cleanup_time, day);
        vstd::arithmetic::div_mod::lemma_small_mod(cleanup_time as nat, day as nat);
    } else {
        vstd::arithmetic::div_mod::lemma_mod_multiples_vanish(n / day, cleanup_time, day);
        vstd::arithmetic::div_mod::lemma_small_mod(cleanup_time as nat, day as nat);
    }
}

/// A cleanup instant is its own previous cleanup: for a UTC clock reading and a cleanup time
/// of day within one day, asking again at the previous cleanup gives that same instant, and
/// the time service can be asked there.
pub proof fn lemma_previous_cleanup_is_fixed(now: Timestamp, cleanup_time: int)
    requires
        now.offset_seconds == 0,
        0 <= cleanup_time < NANOS_PER_DAY,
        representable(now),
        cleanup_in_range(now, cleanup_time),
    ensures
        ({
            let p = previous_cleanup(now, cleanup_time);
            let at_p = Timestamp { unix_nanos: p as i128, offset_seconds: 0 };
            &&& at_p.unix_nanos == p
            &&& representable(at_p)
            &&& cleanup_in_range(at_p, cleanup_time)
            &&& previous_cleanup(at_p, cleanup_time) == p
        }),
{
    let p = previous_cleanup(now, cleanup_time);
    let day = NANOS_PER_DAY as int;
    lemma_previous_cleanup_is_latest_before(now, cleanup_time);
    assert(MIN_UNIX_SECONDS * NANOS_PER_SECOND <= p < (MAX_UNIX_SECONDS + 1) * NANOS_PER_SECOND);
    let at_p = Timestamp { unix_nanos: p as i128, offset_seconds: 0 };
    assert(at_p.unix_nanos == p);
    vstd::arithmetic::div_mod::lemma_fundamental_div_mod(p, day);
    assert(midnight_of_local_date(at_p) == (p / day) * day);
    assert(midnight_of_local_date(at_p) + cleanup_time == p);
    crate::timestamp::lemma_seconds_bounds(p, MIN_UNIX_SECONDS as int, MAX_UNIX_SECONDS as int);
    assert(local_unix_seconds(at_p) == p / NANOS_PER_SECOND as int);
}

} // verus!
