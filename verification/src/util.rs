//! Timestamps, through the `time` crate, integers with thousands
//! separators, and the order in which numbered log files are read.
use crate::text::{bytes_of, bytes_start_with, ends_with, is_prefix, is_suffix, starts_with};
use crate::number::{is_digit, parse_uint_bytes, parse_uint_spec};
use crate::types::{LogFiles, ParseInt, TimestampError};
use time::Error as TimeError;
use vstd::prelude::*;

verus! {

/// The `time` crate's error type.
#[verifier::external_type_specification]
#[verifier::external_body]
pub struct ExTimeError(TimeError);

/// Clock time with a fraction of a second, as in `14:30:10.237`.
pub const CLOCK_TIME_FORMAT: &'static str = "[hour]:[minute]:[second].[subsecond]";

/// Day, month and year, as in `11-02-2026`.
pub const DAY_MONTH_YEAR_FORMAT: &'static str = "[day]-[month]-[year]";

/// What `time::Time::parse(input, &format_description::parse(description))`
/// gives: hour, minute, second and nanosecond.
pub uninterp spec fn spec_time_parse(input: Seq<char>, description: Seq<char>) -> Option<
    (u8, u8, u8, u32),
>;

/// What `time::Date::parse(input, &format_description::parse(description))`
/// gives: year, month number and day.
pub uninterp spec fn spec_date_parse(input: Seq<char>, description: Seq<char>) -> Option<
    (i32, u8, u8),
>;

/// What `time::PlainDateTime::parse(input, &format_description::parse(description))`
/// gives: the date and the time of day.
pub uninterp spec fn spec_date_time_parse(input: Seq<char>, description: Seq<char>) -> Option<
    ((i32, u8, u8), (u8, u8, u8, u32)),
>;

/// What `time::OffsetDateTime::parse(input, &format_description::parse(description))`
/// gives: the date, the time of day and the offset from UTC in seconds.
pub uninterp spec fn spec_offset_date_time_parse(input: Seq<char>, description: Seq<char>) -> Option<
    ((i32, u8, u8), (u8, u8, u8, u32), i32),
>;

/// The number of days from 1970-01-01 to the given date of the proleptic
/// Gregorian calendar (year, month, day; year 0 is 1 BC).
pub open spec fn days_from_civil(y: int, m: int, d: int) -> int {
    let y2 = if m <= 2 { y - 1 } else { y };
    let era = y2 / 400;
    let yoe = y2 - era * 400;
    let mp = if m > 2 { m - 3 } else { m + 9 };
    let doy = (153 * mp + 2) / 5 + d - 1;
    let doe = yoe * 365 + yoe / 4 - yoe / 100 + doy;
    era * 146097 + doe - 719468
}

/// The Unix timestamp in nanoseconds of a date and a time of day (hour,
/// minute, second, nanosecond) at an offset from UTC in seconds.
pub open spec fn unix_nanos(date: (i32, u8, u8), time: (u8, u8, u8, u32), offset_seconds: i32) -> int {
    (days_from_civil(date.0 as int, date.1 as int, date.2 as int) * 86400 + time.0 * 3600 + time.1 * 60
        + time.2 - offset_seconds) * 1_000_000_000 + time.3
}

pub open spec fn is_leap_year(y: int) -> bool {
    y % 4 == 0 && (y % 100 != 0 || y % 400 == 0)
}

pub open spec fn days_in_month(y: int, m: int) -> int {
    if m == 2 {
        if is_leap_year(y) {
            29
        } else {
            28
        }
    } else if m == 4 || m == 6 || m == 9 || m == 11 {
        30
    } else {
        31
    }
}

/// A calendar date the `time` crate can hold (without its `large-dates`
/// feature: years -9999 to 9999).
pub open spec fn valid_date(d: (i32, u8, u8)) -> bool {
    &&& -9999 <= d.0 <= 9999
    &&& 1 <= d.1 <= 12
    &&& 1 <= d.2 <= days_in_month(d.0 as int, d.1 as int)
}

/// A time of day `time::Time` can hold.
pub open spec fn valid_time(t: (u8, u8, u8, u32)) -> bool {
    t.0 < 24 && t.1 < 60 && t.2 < 60 && t.3 < 1_000_000_000
}

/// An offset `time::UtcOffset` can hold (up to 25:59:59 either way).
pub open spec fn valid_offset(o: i32) -> bool {
    -93599 <= o <= 93599
}

/// `time::Time::parse` with a format description given as text. Its result
/// is named `spec_time_parse`; a `Time` is always a valid time of day.
#[verifier::external_body]
fn time_parse(input: &str, description: &str) -> (r: Result<(u8, u8, u8, u32), TimeError>)
    ensures
        r is Ok <==> spec_time_parse(input@, description@) is Some,
        r matches Ok(t) ==> spec_time_parse(input@, description@) == Some(t) && valid_time(t),
{
    let items = time::format_description::parse(description)?;
    let t = time::Time::parse(input, &items)?;
    Ok((t.hour(), t.minute(), t.second(), t.nanosecond()))
}

/// `time::Date::parse` with a format description given as text. Its result
/// is named `spec_date_parse`; a `Date` is always a valid calendar date.
#[verifier::external_body]
fn date_parse(input: &str, description: &str) -> (r: Result<(i32, u8, u8), TimeError>)
    ensures
        r is Ok <==> spec_date_parse(input@, description@) is Some,
        r matches Ok(d) ==> spec_date_parse(input@, description@) == Some(d) && valid_date(d),
{
    let items = time::format_description::parse(description)?;
    let d = time::Date::parse(input, &items)?;
    Ok((d.year(), d.month() as u8, d.day()))
}

/// `time::PlainDateTime::parse` with a format description given as text.
#[verifier::external_body]
fn date_time_parse(input: &str, description: &str) -> (r: Result<
    ((i32, u8, u8), (u8, u8, u8, u32)),
    TimeError,
>)
    ensures
        r is Ok <==> spec_date_time_parse(input@, description@) is Some,
        r matches Ok(dt) ==> spec_date_time_parse(input@, description@) == Some(dt) && valid_date(
            dt.0,
        ) && valid_time(dt.1),
{
    let items = time::format_description::parse(description)?;
    let dt = time::PlainDateTime::parse(input, &items)?;
    Ok(((dt.year(), dt.month() as u8, dt.day()), (dt.hour(), dt.minute(), dt.second(), dt.nanosecond())))
}

/// `time::OffsetDateTime::parse` with a format description given as text.
#[verifier::external_body]
fn offset_date_time_parse(input: &str, description: &str) -> (r: Result<
    ((i32, u8, u8), (u8, u8, u8, u32), i32),
    TimeError,
>)
    ensures
        r is Ok <==> spec_offset_date_time_parse(input@, description@) is Some,
        r matches Ok(dt) ==> spec_offset_date_time_parse(input@, description@) == Some(dt)
            && valid_date(dt.0) && valid_time(dt.1) && valid_offset(dt.2),
{
    let items = time::format_description::parse(description)?;
    let dt = time::OffsetDateTime::parse(input, &items)?;
    Ok(((dt.year(), dt.month() as u8, dt.day()), (dt.hour(), dt.minute(), dt.second(), dt.nanosecond()), dt.offset().whole_seconds()))
}

/// `OffsetDateTime::unix_timestamp_nanos` of the given date and time at the
/// given offset from UTC: the days since 1970-01-01 (the crate counts them
/// from the Julian day number) times 86400, plus the seconds of the day,
/// minus the offset, in nanoseconds, plus the nanosecond.
#[verifier::external_body]
fn unix_timestamp_nanos(date: (i32, u8, u8), time: (u8, u8, u8, u32), offset_seconds: i32) -> (r: i128)
    requires
        valid_date(date),
        valid_time(time),
        valid_offset(offset_seconds),
    ensures
        r as int == unix_nanos(date, time, offset_seconds),
{
    let month = time::Month::try_from(date.1).unwrap();
    let d = time::Date::from_calendar_date(date.0, month, date.2).unwrap();
    let t = time::Time::from_hms_nano(time.0, time.1, time.2, time.3).unwrap();
    let offset = time::UtcOffset::from_whole_seconds(offset_seconds).unwrap();
    time::PlainDateTime::new(d, t).assume_offset(offset).unix_timestamp_nanos()
}

/// Nanoseconds to milliseconds, rounding toward zero as Rust's `/` does.
pub open spec fn nanos_to_millis(n: int) -> int {
    if n >= 0 {
        n / 1_000_000
    } else {
        -((-n) / 1_000_000)
    }
}

/// `u64::try_from(nanos / 1_000_000)`.
pub open spec fn millis_of_nanos(n: int) -> Result<u64, ()> {
    let m = nanos_to_millis(n);
    if 0 <= m <= u64::MAX {
        Ok(m as u64)
    } else {
        Err(())
    }
}

fn millis_from_nanos(n: i128) -> (r: Result<u64, TimestampError>)
    ensures
        r matches Ok(v) ==> millis_of_nanos(n as int) == Ok::<u64, ()>(v),
        r matches Err(e) ==> millis_of_nanos(n as int) is Err && e is Conversion,
{
    if n >= 0 {
        let m = (n as u128) / 1_000_000;
        if m <= u64::MAX as u128 {
            Ok(m as u64)
        } else {
            Err(TimestampError::Conversion)
        }
    } else if n > -1_000_000 {
        Ok(0)
    } else {
        Err(TimestampError::Conversion)
    }
}

/// The Unix timestamp in milliseconds of a date and a time of day given as
/// text in two format descriptions, taken as UTC.
pub open spec fn unix_timestamp_millis_spec(
    time: Seq<char>,
    date: Seq<char>,
    time_fmt: Seq<char>,
    date_fmt: Seq<char>,
) -> Option<Result<u64, ()>> {
    match spec_time_parse(time, time_fmt) {
        None => None,
        Some(t) => match spec_date_parse(date, date_fmt) {
            None => None,
            Some(d) => Some(millis_of_nanos(unix_nanos(d, t, 0))),
        },
    }
}

/// The Unix timestamp in milliseconds of `time` and `date`, read with the
/// format descriptions `time_fmt` and `date_fmt` and taken as UTC. Fails
/// with `Parse` when either text does not match its format (the time is
/// read first) and with `Conversion` when the instant is before 1970 by a
/// millisecond or more, or too late for a `u64`.
pub fn unix_timestamp_millis(time: &str, date: &str, time_fmt: &str, date_fmt: &str) -> (r: Result<
    u64,
    TimestampError,
>)
    ensures
        r matches Ok(v) ==> unix_timestamp_millis_spec(time@, date@, time_fmt@, date_fmt@) == Some(
            Ok::<u64, ()>(v),
        ),
        r matches Err(e) ==> match e {
            TimestampError::Parse(_) => unix_timestamp_millis_spec(time@, date@, time_fmt@, date_fmt@) is None,
            TimestampError::Conversion => unix_timestamp_millis_spec(time@, date@, time_fmt@, date_fmt@)
                == Some(Err::<u64, ()>(())),
        },
{
    let t = match time_parse(time, time_fmt) {
        Ok(t) => t,
        Err(e) => return Err(TimestampError::Parse(e)),
    };
    let d = match date_parse(date, date_fmt) {
        Ok(d) => d,
        Err(e) => return Err(TimestampError::Parse(e)),
    };
    millis_from_nanos(unix_timestamp_nanos(d, t, 0))
}

/// The Unix timestamp in milliseconds of a date and time read with one
/// format description, taken as UTC.
pub open spec fn utc_unix_timestamp_millis_spec(text: Seq<char>, fmt: Seq<char>) -> Option<Result<u64, ()>> {
    match spec_date_time_parse(text, fmt) {
        None => None,
        Some((d, t)) => Some(millis_of_nanos(unix_nanos(d, t, 0))),
    }
}

/// The Unix timestamp in milliseconds of a date and time given as text in
/// one format description, taken as UTC (an offset in the text is not
/// applied).
pub fn utc_unix_timestamp_millis(text: &str, fmt: &str) -> (r: Result<u64, TimestampError>)
    ensures
        r matches Ok(v) ==> utc_unix_timestamp_millis_spec(text@, fmt@) == Some(Ok::<u64, ()>(v)),
        r matches Err(e) ==> match e {
            TimestampError::Parse(_) => utc_unix_timestamp_millis_spec(text@, fmt@) is None,
            TimestampError::Conversion => utc_unix_timestamp_millis_spec(text@, fmt@) == Some(
                Err::<u64, ()>(()),
            ),
        },
{
    let (d, t) = match date_time_parse(text, fmt) {
        Ok(dt) => dt,
        Err(e) => return Err(TimestampError::Parse(e)),
    };
    millis_from_nanos(unix_timestamp_nanos(d, t, 0))
}

/// `(nanos / 1_000_000) as u64`: milliseconds, wrapped into a `u64`.
pub open spec fn wrapped_millis(n: int) -> u64 {
    nanos_to_millis(n) as u64
}

/// The Unix timestamp in milliseconds of a date and time with an offset,
/// given as text in one format description.
pub open spec fn offset_unix_timestamp_millis_spec(text: Seq<char>, fmt: Seq<char>) -> Option<u64> {
    match spec_offset_date_time_parse(text, fmt) {
        None => None,
        Some((d, t, o)) => Some(wrapped_millis(unix_nanos(d, t, o))),
    }
}

/// The Unix timestamp in milliseconds of a date and time with an offset from
/// UTC, converted with `as u64` (an instant before 1970 wraps around).
pub fn offset_unix_timestamp_millis(text: &str, fmt: &str) -> (r: Result<u64, TimeError>)
    ensures
        r is Ok <==> offset_unix_timestamp_millis_spec(text@, fmt@) is Some,
        r matches Ok(v) ==> offset_unix_timestamp_millis_spec(text@, fmt@) == Some(v),
{
    let (d, t, o) = offset_date_time_parse(text, fmt)?;
    let n = unix_timestamp_nanos(d, t, o);
    let m: i128 = if n >= 0 {
        ((n as u128) / 1_000_000) as i128
    } else {
        -((((0 - (n + 1)) as u128 + 1) / 1_000_000) as i128)
    };
    #[verifier::truncate]
    let r = m as u64;
    Ok(r)
}

/// Reads the decimal digits of `s` from left to right, skipping commas, with
/// the arithmetic wrapping around at 2^64 as a release build's `*=` and `+=`
/// do. A byte that is neither a digit nor a comma is reported.
pub open spec fn comma_separated_spec(s: Seq<u8>, acc: u64) -> Result<u64, ParseInt>
    decreases s.len(),
{
    if s.len() == 0 {
        Ok(acc)
    } else if is_digit(s[0]) {
        comma_separated_spec(
            s.drop_first(),
            ((acc * 10 + (s[0] - 48)) % 0x1_0000_0000_0000_0000) as u64,
        )
    } else if s[0] == 44 {
        comma_separated_spec(s.drop_first(), acc)
    } else {
        Err(ParseInt::InvalidDigit(s[0]))
    }
}

proof fn lemma_wrapping_step(acc: int, d: int, m: int, next: int)
    requires
        0 <= acc < 0x1_0000_0000_0000_0000,
        0 <= d <= 9,
        m == (acc * 10) % 0x1_0000_0000_0000_0000,
        next == if m + d > 0xffff_ffff_ffff_ffff {
            m + d - 0x1_0000_0000_0000_0000
        } else {
            m + d
        },
    ensures
        next == (acc * 10 + d) % 0x1_0000_0000_0000_0000,
{
    let r = 0x1_0000_0000_0000_0000int;
    vstd::arithmetic::div_mod::lemma_fundamental_div_mod(acc * 10, r);
    let q = (acc * 10) / r;
    assert(acc * 10 == q * r + m);
    assert(acc * 10 + d == q * r + (m + d));
    if m + d >= r {
        assert(acc * 10 + d == (q + 1) * r + (m + d - r)) by (nonlinear_arith)
            requires acc * 10 + d == q * r + (m + d);
        vstd::arithmetic::div_mod::lemma_fundamental_div_mod_converse(acc * 10 + d, r, q + 1, m + d - r);
    } else {
        vstd::arithmetic::div_mod::lemma_fundamental_div_mod_converse(acc * 10 + d, r, q, m + d);
    }
}

/// Reads an integer written with thousands separators, such as `12,345`.
pub fn parse_comma_separated_u64(value: &str) -> (r: Result<u64, ParseInt>)
    ensures
        r == comma_separated_spec(bytes_of(value), 0),
{
    let d = value.as_bytes();
    let mut result: u64 = 0;
    let mut i: usize = 0;
    assert(d@.subrange(0, d@.len() as int) =~= d@);
    while i < d.len()
        invariant
            i <= d@.len(),
            d@ == bytes_of(value),
            comma_separated_spec(d@, 0) == comma_separated_spec(
                d@.subrange(i as int, d@.len() as int),
                result,
            ),
        decreases d@.len() - i,
    {
        let c = d[i];
        let ghost rest = d@.subrange(i as int, d@.len() as int);
        assert(rest[0] == c);
        assert(rest.drop_first() =~= d@.subrange(i + 1, d@.len() as int));
        if 48 <= c && c <= 57 {
            let m = result.wrapping_mul(10);
            let next = m.wrapping_add((c - 48) as u64);
            proof {
                lemma_wrapping_step(result as int, (c - 48) as int, m as int, next as int);
            }
            result = next;
        } else if c == 44 {
        } else {
            return Err(ParseInt::InvalidDigit(c));
        }
        i += 1;
    }
    assert(d@.subrange(i as int, d@.len() as int).len() == 0);
    Ok(result)
}


/// The number in a log file name `<prefix><n><suffix>`, such as 49 in
/// `serverout49.txt`: the suffix is taken off first, then the prefix, and
/// what is left must be a `u8`.
pub open spec fn log_file_number_spec(name: Seq<u8>, prefix: Seq<u8>, suffix: Seq<u8>) -> Option<u8> {
    if is_suffix(suffix, name) {
        let s = name.subrange(0, name.len() - suffix.len());
        if is_prefix(prefix, s) {
            match parse_uint_spec(s.subrange(prefix.len() as int, s.len() as int), u8::MAX as int) {
                Ok(v) => Some(v as u8),
                Err(_) => None,
            }
        } else {
            None
        }
    } else {
        None
    }
}

/// The number in a log file name `<prefix><n><suffix>`.
pub fn log_file_number(name: &str, prefix: &str, suffix: &str) -> (r: Option<u8>)
    ensures
        r == log_file_number_spec(bytes_of(name), bytes_of(prefix), bytes_of(suffix)),
{
    if !ends_with(name, suffix) {
        return None;
    }
    let h = name.as_bytes();
    let (s, _) = h.split_at(h.len() - suffix.as_bytes().len());
    if !bytes_start_with(s, prefix.as_bytes()) {
        return None;
    }
    let (_, digits) = s.split_at(prefix.as_bytes().len());
    match parse_uint_bytes(digits, 255) {
        Ok(v) => Some(v as u8),
        Err(_) => None,
    }
}

/// Where a log file is read: files with larger numbers first, files without
/// a number last.
pub open spec fn log_rank(name: Seq<u8>, prefix: Seq<u8>, suffix: Seq<u8>) -> int {
    match log_file_number_spec(name, prefix, suffix) {
        Some(v) => v + 1,
        None => 0,
    }
}

/// The UTF-8 bytes of each name.
pub open spec fn names_bytes(names: Seq<String>) -> Seq<Seq<u8>> {
    names.map_values(|n: String| vstd::utf8::encode_utf8(n@))
}

/// File `i` is read before file `j`: it has the larger rank, or the same
/// rank and comes later in the listing.
pub open spec fn read_before(names: Seq<Seq<u8>>, prefix: Seq<u8>, suffix: Seq<u8>, i: int, j: int) -> bool {
    let ri = log_rank(names[i], prefix, suffix);
    let rj = log_rank(names[j], prefix, suffix);
    ri > rj || (ri == rj && i > j)
}

/// `o` lists the positions in `nb` of the names that start with `p`, each
/// once, in the order in which the files are read.
pub open spec fn is_read_order(nb: Seq<Seq<u8>>, p: Seq<u8>, x: Seq<u8>, o: Seq<usize>) -> bool {
    &&& forall|k: int| 0 <= k < o.len() ==> {
        &&& #[trigger] o[k] < nb.len()
        &&& is_prefix(p, nb[o[k] as int])
    }
    &&& forall|i: int| 0 <= i < nb.len() && is_prefix(p, #[trigger] nb[i]) ==> o.contains(i as usize)
    &&& forall|a: int, b: int| 0 <= a < b < o.len() ==> read_before(nb, p, x, #[trigger] o[a] as int, #[trigger] o[b] as int)
}

/// The positions in `names` of the log files `<prefix><n><suffix>`, in the
/// order in which they are read: oldest (largest number) first. Files whose
/// name starts with `prefix` but holds no number come last; files of equal
/// rank come in the reverse of their order in `names`.
pub fn log_file_order(names: &Vec<String>, prefix: &str, suffix: &str) -> (r: Vec<usize>)
    ensures
        is_read_order(names_bytes(names@), bytes_of(prefix), bytes_of(suffix), r@),
{
    let ghost nb = names_bytes(names@);
    let ghost p = bytes_of(prefix);
    let ghost x = bytes_of(suffix);
    let mut order: Vec<usize> = Vec::new();
    let mut ranks: Vec<u16> = Vec::new();
    let mut i: usize = 0;
    while i < names.len()
        invariant
            i <= names@.len(),
            nb == names_bytes(names@),
            p == bytes_of(prefix),
            x == bytes_of(suffix),
            ranks@.len() == order@.len(),
            forall|k: int| 0 <= k < order@.len() ==> {
                &&& #[trigger] order@[k] < i
                &&& is_prefix(p, nb[order@[k] as int])
                &&& ranks@[k] == log_rank(nb[order@[k] as int], p, x)
            },
            forall|j: int| 0 <= j < i && is_prefix(p, #[trigger] nb[j]) ==> order@.contains(j as usize),
            forall|a: int, b: int| 0 <= a < b < order@.len() ==> read_before(nb, p, x, #[trigger] order@[a] as int, #[trigger] order@[b] as int),
        decreases names@.len() - i,
    {
        let name = names[i].as_str();
        assert(bytes_of(name) == nb[i as int]);
        if starts_with(name, prefix) {
            let rank: u16 = match log_file_number(name, prefix, suffix) {
                Some(v) => v as u16 + 1,
                None => 0,
            };
            let mut pos: usize = 0;
            while pos < order.len() && ranks[pos] > rank
                invariant
                    pos <= order@.len(),
                    ranks@.len() == order@.len(),
                    forall|k: int| 0 <= k < pos ==> #[trigger] ranks@[k] > rank,
                decreases order@.len() - pos,
            {
                pos += 1;
            }
            let ghost old_order = order@;
            let ghost old_ranks = ranks@;
            order.insert(pos, i);
            ranks.insert(pos, rank);
            proof {
                assert forall|a: int, b: int| 0 <= a < b < order@.len() implies read_before(nb, p, x, #[trigger] order@[a] as int, #[trigger] order@[b] as int) by {
                    if b < pos {
                        assert(order@[a] == old_order[a] && order@[b] == old_order[b]);
                    } else if b == pos {
                        assert(order@[a] == old_order[a]);
                        assert(old_ranks[a] > rank);
                    } else if a < pos {
                        assert(order@[a] == old_order[a] && order@[b] == old_order[b - 1]);
                    } else if a == pos {
                        assert(order@[b] == old_order[b - 1]);
                        assert(!(old_ranks[b - 1] > rank));
                    } else {
                        assert(order@[a] == old_order[a - 1] && order@[b] == old_order[b - 1]);
                    }
                }
                assert forall|j: int| 0 <= j < i + 1 && is_prefix(p, #[trigger] nb[j]) implies order@.contains(j as usize) by {
                    if j == i {
                        assert(order@[pos as int] == i);
                    } else {
                        let k = choose|k: int| 0 <= k < old_order.len() && old_order[k] == j as usize;
                        if k < pos {
                            assert(order@[k] == j as usize);
                        } else {
                            assert(order@[k + 1] == j as usize);
                        }
                    }
                }
                assert forall|k: int| 0 <= k < order@.len() implies {
                    &&& #[trigger] order@[k] < i + 1
                    &&& is_prefix(p, nb[order@[k] as int])
                    &&& ranks@[k] == log_rank(nb[order@[k] as int], p, x)
                } by {
                    if k < pos {
                    } else if k == pos {
                    } else {
                        assert(order@[k] == old_order[k - 1]);
                    }
                }
            }
        } else {
            proof {
                assert forall|j: int| 0 <= j < i + 1 && is_prefix(p, #[trigger] nb[j]) implies order@.contains(j as usize) by {
                }
            }
        }
        i += 1;
    }
    order
}

/// The names at the positions `order`.
fn select(names: &Vec<String>, order: Vec<usize>) -> (r: Vec<String>)
    requires
        forall|k: int| 0 <= k < order@.len() ==> #[trigger] order@[k] < names@.len(),
    ensures
        r@ == order@.map_values(|k: usize| names@[k as int]),
{
    let mut out: Vec<String> = Vec::new();
    let mut k: usize = 0;
    while k < order.len()
        invariant
            k <= order@.len(),
            forall|j: int| 0 <= j < order@.len() ==> #[trigger] order@[j] < names@.len(),
            out@ == order@.take(k as int).map_values(|i: usize| names@[i as int]),
        decreases order@.len() - k,
    {
        out.push(names[order[k]].clone());
        assert(order@.take(k as int + 1).map_values(|i: usize| names@[i as int]) =~= order@.take(k as int).map_values(|i: usize| names@[i as int]).push(names@[order@[k as int] as int]));
        k += 1;
    }
    assert(order@.take(k as int) =~= order@);
    out
}

/// The log files of one kind, in the order in which they are read.
pub open spec fn is_log_files(names: Seq<String>, kind: Seq<u8>, files: Seq<String>) -> bool {
    exists|o: Seq<usize>| #[trigger] is_read_order(names_bytes(names), kind, bytes_of(".txt"), o) && files == o.map_values(|k: usize| names[k as int])
}

/// The log files of a directory, by the names of its files as the directory
/// lists them: for each kind, the files `<kind><n>.txt` in the order in which
/// they are read.
pub fn get_files(names: &Vec<String>) -> (r: LogFiles)
    ensures
        is_log_files(names@, bytes_of("CPUMonitoring"), r.cpumonitoring@),
        is_log_files(names@, bytes_of("cpumemstats"), r.cpumemstats@),
        is_log_files(names@, bytes_of("stuckthreads"), r.stuckthreads@),
{
    let cpumonitoring = log_file_order(names, "CPUMonitoring", ".txt");
    let cpumemstats = log_file_order(names, "cpumemstats", ".txt");
    let stuckthreads = log_file_order(names, "stuckthreads", ".txt");
    let ghost (a, b, c) = (cpumonitoring@, cpumemstats@, stuckthreads@);
    let r = LogFiles {
        cpumonitoring: select(names, cpumonitoring),
        cpumemstats: select(names, cpumemstats),
        stuckthreads: select(names, stuckthreads),
    };
    assert(is_read_order(names_bytes(names@), bytes_of("CPUMonitoring"), bytes_of(".txt"), a));
    assert(is_read_order(names_bytes(names@), bytes_of("cpumemstats"), bytes_of(".txt"), b));
    assert(is_read_order(names_bytes(names@), bytes_of("stuckthreads"), bytes_of(".txt"), c));
    r
}

} // verus!
