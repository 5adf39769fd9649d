use vstd::prelude::*;

verus! {

/// Nanoseconds in one second.
pub const NANOS_PER_SECOND: i128 = 1_000_000_000;

/// Nanoseconds in one day.
pub const NANOS_PER_DAY: i128 = 86_400_000_000_000;

/// Smallest Unix time, in seconds, of a date-time the `time` crate can hold (-9999-01-01T00:00:00).
pub const MIN_UNIX_SECONDS: i128 = -377_705_116_800;

/// Largest Unix time, in seconds, of a date-time the `time` crate can hold (9999-12-31T23:59:59).
pub const MAX_UNIX_SECONDS: i128 = 253_402_300_799;

/// Largest absolute UTC offset, in seconds, the `time` crate accepts (25:59:59).
pub const MAX_OFFSET_SECONDS: i32 = 93_599;

/// An instant together with the UTC offset it was written in.
///
/// `unix_nanos` is the number of nanoseconds since 1970-01-01T00:00:00Z;
/// `offset_seconds` is the offset from UTC of the local clock. Two timestamps
/// are ordered by their instant, whatever their offsets.
#[derive(Clone, Copy, Debug, PartialEq, Eq)]
pub struct Timestamp {
    pub unix_nanos: i128,
    pub offset_seconds: i32,
}

/// Unix time, in seconds, of the local clock reading of `t` (floor).
pub open spec fn local_unix_seconds(t: Timestamp) -> int {
    (t.unix_nanos as int + t.offset_seconds as int * NANOS_PER_SECOND as int) / NANOS_PER_SECOND as int
}

/// The `time` crate can hold `t`: the instant and its local reading are in range.
pub open spec fn representable(t: Timestamp) -> bool {
    &&& -(MAX_OFFSET_SECONDS as int) <= t.offset_seconds <= MAX_OFFSET_SECONDS
    &&& MIN_UNIX_SECONDS <= t.unix_nanos as int / NANOS_PER_SECOND as int <= MAX_UNIX_SECONDS
    &&& MIN_UNIX_SECONDS <= local_unix_seconds(t) <= MAX_UNIX_SECONDS
}

/// Unix time, in nanoseconds, of midnight UTC at the start of the local calendar date of `t`.
pub open spec fn midnight_of_local_date(t: Timestamp) -> int {
    ((t.unix_nanos as int + t.offset_seconds as int * NANOS_PER_SECOND as int) / NANOS_PER_DAY as int)
        * NANOS_PER_DAY as int
}

/// Calls `OffsetDateTime::date`, `Date::midnight` and `assume_offset(UtcOffset::UTC)` of the
/// `time` crate: the local calendar date of `t`, at 00:00, read as UTC. The contract states
/// the `time` crate's documented calendar arithmetic (days of 86 400 s, no leap seconds).
#[verifier::external_body]
fn utc_midnight_of_date(t: Timestamp) -> (r: i128)
    requires
        representable(t),
    ensures
        r == midnight_of_local_date(t),
{
    let offset = time::UtcOffset::from_whole_seconds(t.offset_seconds).unwrap();
    let dt = time::OffsetDateTime::from_unix_timestamp_nanos(t.unix_nanos).unwrap().to_offset(offset);
    dt.date().midnight().assume_offset(time::UtcOffset::UTC).unix_timestamp_nanos()
}

/// Midnight UTC of the local calendar date of `t`.
pub fn midnight_utc(t: Timestamp) -> (r: Timestamp)
    requires
        representable(t),
    ensures
        r.unix_nanos == midnight_of_local_date(t),
        r.offset_seconds == 0,
{
    Timestamp { unix_nanos: utc_midnight_of_date(t), offset_seconds: 0 }
}

} // verus!

verus! {

/// Unix time, in seconds, of 0000-01-01T00:00:00Z.
pub const YEAR_ZERO_UNIX_SECONDS: i128 = -62_167_219_200;

/// Unix time, in seconds, of 9999-12-31T23:59:59Z.
pub const YEAR_9999_END_UNIX_SECONDS: i128 = 253_402_300_799;

/// The default ISO 8601 format of the `time` crate can write `t`: a four-digit year
/// (0 to 9999) in its local reading and an offset of whole minutes.
pub open spec fn iso8601_writable(t: Timestamp) -> bool {
    &&& representable(t)
    &&& t.offset_seconds % 60 == 0
    &&& YEAR_ZERO_UNIX_SECONDS <= local_unix_seconds(t) <= YEAR_9999_END_UNIX_SECONDS
}

/// The text `OffsetDateTime::format(&Iso8601::DEFAULT)` of the `time` crate writes for the
/// instant `unix_nanos` read at UTC offset `offset_seconds`.
pub uninterp spec fn iso8601_text(unix_nanos: int, offset_seconds: int) -> Seq<char>;

/// Calls `OffsetDateTime::format` of the `time` crate with `Iso8601::DEFAULT`. The text is
/// named, not spelled out: it is a function of the instant and the offset alone.
#[verifier::external_body]
pub(crate) fn format_iso8601(t: Timestamp) -> (r: String)
    requires
        iso8601_writable(t),
    ensures
        r@ == iso8601_text(t.unix_nanos as int, t.offset_seconds as int),
{
    let offset = time::UtcOffset::from_whole_seconds(t.offset_seconds).unwrap();
    time::OffsetDateTime::from_unix_timestamp_nanos(t.unix_nanos).unwrap().to_offset(offset).format(
        &time::format_description::well_known::Iso8601::DEFAULT,
    ).unwrap()
}


pub(crate) proof fn lemma_seconds_bounds(n: int, lo: int, hi: int)
    ensures
        (lo <= n / 1_000_000_000 <= hi) <==> (lo * 1_000_000_000 <= n < (hi + 1) * 1_000_000_000),
{
    vstd::arithmetic::div_mod::lemma_fundamental_div_mod(n, 1_000_000_000);
}

/// Whether the `time` crate can hold `t` (see [`representable`]).
pub fn is_representable(t: Timestamp) -> (r: bool)
    ensures
        r == representable(t),
{
    proof {
        lemma_seconds_bounds(t.unix_nanos as int, MIN_UNIX_SECONDS as int, MAX_UNIX_SECONDS as int);
        lemma_seconds_bounds(
            t.unix_nanos as int + t.offset_seconds as int * NANOS_PER_SECOND as int,
            MIN_UNIX_SECONDS as int,
            MAX_UNIX_SECONDS as int,
        );
    }
    if t.offset_seconds < -MAX_OFFSET_SECONDS || t.offset_seconds > MAX_OFFSET_SECONDS {
        return false;
    }
    if t.unix_nanos < MIN_UNIX_SECONDS * NANOS_PER_SECOND
        || t.unix_nanos >= (MAX_UNIX_SECONDS + 1) * NANOS_PER_SECOND {
        return false;
    }
    let local_nanos = t.unix_nanos + (t.offset_seconds as i128) * NANOS_PER_SECOND;
    MIN_UNIX_SECONDS * NANOS_PER_SECOND <= local_nanos && local_nanos < (MAX_UNIX_SECONDS + 1)
        * NANOS_PER_SECOND
}

/// Whether the default ISO 8601 format can write `t` (see [`iso8601_writable`]).
pub fn is_iso8601_writable(t: Timestamp) -> (r: bool)
    ensures
        r == iso8601_writable(t),
{
    if !is_representable(t) || t.offset_seconds % 60 != 0 {
        return false;
    }
    proof {
        lemma_seconds_bounds(
            t.unix_nanos as int + t.offset_seconds as int * NANOS_PER_SECOND as int,
            YEAR_ZERO_UNIX_SECONDS as int,
            YEAR_9999_END_UNIX_SECONDS as int,
        );
    }
    let local_nanos = t.unix_nanos + (t.offset_seconds as i128) * NANOS_PER_SECOND;
    YEAR_ZERO_UNIX_SECONDS * NANOS_PER_SECOND <= local_nanos && local_nanos < (
    YEAR_9999_END_UNIX_SECONDS + 1) * NANOS_PER_SECOND
}

} // verus!
