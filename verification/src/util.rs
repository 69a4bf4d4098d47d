//! Timestamps. Instants are held as Unix time in nanoseconds and written
//! as RFC 3339 text, which is how the database stores them.

use vstd::prelude::*;
use crate::text::opt_text;

verus! {

/// Nanoseconds per second.
pub const NANOS_PER_SECOND: i128 = 1_000_000_000;

/// First second that an `OffsetDateTime` can hold (-9999-01-01T00:00:00Z).
pub const MIN_INSTANT_SECONDS: i128 = -377705203200;

/// Last second that an `OffsetDateTime` can hold (9999-12-31T23:59:59Z).
pub const MAX_INSTANT_SECONDS: i128 = 253402300799;

/// First second that RFC 3339 can write (0000-01-01T00:00:00Z).
pub const MIN_RFC3339_SECONDS: i128 = -62167219200;

/// Whether `t` (Unix nanoseconds) lies in the range of `OffsetDateTime`.
pub open spec fn is_instant(t: int) -> bool {
    MIN_INSTANT_SECONDS * NANOS_PER_SECOND <= t < (MAX_INSTANT_SECONDS + 1) * NANOS_PER_SECOND
}

/// Whether `t` lies in years 0 to 9999, which RFC 3339 can write.
pub open spec fn is_rfc3339_instant(t: int) -> bool {
    MIN_RFC3339_SECONDS * NANOS_PER_SECOND <= t < (MAX_INSTANT_SECONDS + 1) * NANOS_PER_SECOND
}

/// The RFC 3339 text, in UTC, of the instant `t` (Unix nanoseconds).
pub uninterp spec fn rfc3339_text(t: int) -> Seq<char>;

/// The instant (Unix nanoseconds) that RFC 3339 text denotes, if it
/// parses.
pub uninterp spec fn rfc3339_instant(text: Seq<char>) -> Option<int>;

/// `OffsetDateTime::now_utc` from the time crate, as Unix nanoseconds. The
/// reading itself is left unsaid; it is always a value `OffsetDateTime`
/// can hold.
#[verifier::external_body]
pub fn now() -> (t: i128)
    ensures
        is_instant(t as int),
{
    time::OffsetDateTime::now_utc().unix_timestamp_nanos()
}

/// `OffsetDateTime::format` with the `Rfc3339` description from the time
/// crate, on the UTC instant `t`. Formatting only fails for years outside
/// 0 to 9999 or for offsets with seconds, which `requires` rules out. The
/// text carries every nonzero digit of the nanoseconds, so parsing it
/// gives `t` back.
#[verifier::external_body]
pub fn to_rfc3339(t: i128) -> (r: String)
    requires
        is_rfc3339_instant(t as int),
    ensures
        r@ == rfc3339_text(t as int),
        rfc3339_instant(r@) == Some(t as int),
{
    match time::OffsetDateTime::from_unix_timestamp_nanos(t) {
        Ok(d) => d.format(&time::format_description::well_known::Rfc3339).unwrap_or_default(),
        Err(_) => String::new(),
    }
}

/// Seconds in a day: the most an RFC 3339 offset can move an instant.
pub const SECONDS_PER_DAY: i128 = 86400;

/// Whether `t` lies within a day of the range of `OffsetDateTime`: where
/// a parsed local date and time with its offset can fall.
pub open spec fn is_offset_instant(t: int) -> bool {
    (MIN_INSTANT_SECONDS - SECONDS_PER_DAY) * NANOS_PER_SECOND <= t < (MAX_INSTANT_SECONDS + 1
        + SECONDS_PER_DAY) * NANOS_PER_SECOND
}

/// `OffsetDateTime::parse` with the `Rfc3339` description from the time
/// crate: the instant, as Unix nanoseconds, or nothing when the text does
/// not parse. The parsed date lies in the range of `OffsetDateTime` and
/// its offset is under a day, so the instant is within a day of it.
#[verifier::external_body]
pub fn parse_rfc3339(s: &str) -> (r: Option<i128>)
    ensures
        opt_int(r) == rfc3339_instant(s@),
        r matches Some(t) ==> is_offset_instant(t as int),
{
    match time::OffsetDateTime::parse(s, &time::format_description::well_known::Rfc3339) {
        Ok(d) => Some(d.unix_timestamp_nanos()),
        Err(_) => None,
    }
}

/// An optional instant as a mathematical integer.
pub open spec fn opt_int(o: Option<i128>) -> Option<int> {
    match o {
        Some(t) => Some(t as int),
        None => None,
    }
}

/// The RFC 3339 text of `t`, when RFC 3339 can write it.
pub open spec fn spec_rfc3339_of(t: int) -> Option<Seq<char>> {
    if is_rfc3339_instant(t) {
        Some(rfc3339_text(t))
    } else {
        None
    }
}

/// `t` as RFC 3339 text, or nothing outside years 0 to 9999.
pub fn rfc3339_of(t: i128) -> (r: Option<String>)
    ensures
        r matches Some(s) ==> spec_rfc3339_of(t as int) == Some(s@) && rfc3339_instant(s@) == Some(
            t as int,
        ),
        r is None ==> spec_rfc3339_of(t as int) is None,
{
    if MIN_RFC3339_SECONDS * NANOS_PER_SECOND <= t && t < (MAX_INSTANT_SECONDS + 1)
        * NANOS_PER_SECOND {
        Some(to_rfc3339(t))
    } else {
        None
    }
}

/// The current time as RFC 3339 text. Nothing when the clock reads a year
/// outside 0 to 9999; the text is that of some instant the clock may read,
/// and parses back to exactly that instant.
pub fn now_rfc3339() -> (r: Option<String>)
    ensures
        exists|t: int| is_instant(t) && #[trigger] spec_rfc3339_of(t) == opt_text(r),
        exists|t: int|
            is_instant(t) && #[trigger] spec_rfc3339_of(t) == opt_text(r) && (r matches Some(s) ==> rfc3339_instant(
                s@,
            ) == Some(t)),
{
    let t = now();
    let r = rfc3339_of(t);
    proof {
        assert(spec_rfc3339_of(t as int) == opt_text(r));
    }
    r
}

/// The instant `seconds` after `t`.
pub open spec fn after(t: int, seconds: int) -> int {
    t + seconds * NANOS_PER_SECOND
}

/// RFC 3339 text for the instant `seconds` from now; nothing when that
/// instant falls outside years 0 to 9999.
pub fn rfc3339_after(seconds: i64) -> (r: Option<String>)
    ensures
        exists|t: int| is_instant(t) && #[trigger] spec_rfc3339_of(after(t, seconds as int))
            == opt_text(r),
{
    let t = now();
    let u = t + (seconds as i128) * NANOS_PER_SECOND;
    let r = rfc3339_of(u);
    proof {
        assert(spec_rfc3339_of(after(t as int, seconds as int)) == opt_text(r));
    }
    r
}

/// Whether a stored expiry counts as passed at the instant `now`: text
/// that does not parse counts as passed, so a corrupt row cannot keep a
/// request waiting on it.
pub open spec fn spec_is_past_at(expiry: Option<int>, now: int) -> bool {
    match expiry {
        Some(t) => t <= now,
        None => true,
    }
}

/// `spec_is_past_at` on a parsed expiry.
pub fn is_past_at(expiry: Option<i128>, now: i128) -> (r: bool)
    ensures
        r == spec_is_past_at(opt_int(expiry), now as int),
{
    match expiry {
        Some(t) => t <= now,
        None => true,
    }
}

/// Whether the RFC 3339 instant `rfc3339` has passed, by the clock read
/// during the call.
pub fn is_past(rfc3339: &str) -> (r: bool)
    ensures
        exists|n: int| is_instant(n) && r == #[trigger] spec_is_past_at(rfc3339_instant(rfc3339@), n),
{
    let parsed = parse_rfc3339(rfc3339);
    let n = now();
    let r = is_past_at(parsed, n);
    proof {
        assert(opt_int(parsed) == rfc3339_instant(rfc3339@));
        assert(r == spec_is_past_at(rfc3339_instant(rfc3339@), n as int));
    }
    r
}

/// Whole Unix seconds of the instant `t` (rounded down).
pub open spec fn unix_seconds(t: int) -> int {
    t / 1_000_000_000int
}

/// `OffsetDateTime::unix_timestamp` for an instant held as nanoseconds.
pub fn unix_timestamp(t: i128) -> (r: i64)
    requires
        is_offset_instant(t as int),
    ensures
        r as int == unix_seconds(t as int),
{
    let q = if t >= 0 {
        t / NANOS_PER_SECOND
    } else {
        -((-t + NANOS_PER_SECOND - 1) / NANOS_PER_SECOND)
    };
    proof {
        if t < 0 {
            let m: int = -(t as int);
            let d: int = 1000000000;
            let c: int = (m + d - 1) / d;
            assert(-c == (-m) / d) by (nonlinear_arith)
                requires
                    m > 0,
                    d == 1000000000,
                    c == (m + d - 1) / d,
            ;
        }
    }
    q as i64
}

} // verus!
