use vstd::prelude::*;

verus! {

/// A broken-down UTC time, field for field as `time::Tm` holds it: `year`
/// counts from 1900, `mon` from 0 (January), `wday` from 0 (Sunday), `yday`
/// from 0.
#[derive(Debug, Clone, Copy)]
pub struct UtcTime {
    pub sec: i32,
    pub min: i32,
    pub hour: i32,
    pub mday: i32,
    pub mon: i32,
    pub year: i32,
    pub wday: i32,
    pub yday: i32,
    pub isdst: i32,
    pub utcoff: i32,
    pub nsec: i32,
}

/// The ranges in which `gmtime_r` leaves the fields of a UTC time.
pub open spec fn in_gmtime_ranges(t: UtcTime) -> bool {
    &&& 0 <= t.sec <= 60
    &&& 0 <= t.min <= 59
    &&& 0 <= t.hour <= 23
    &&& 1 <= t.mday <= 31
    &&& 0 <= t.mon <= 11
    &&& 0 <= t.wday <= 6
    &&& 0 <= t.yday <= 365
    &&& t.utcoff == 0
}

/// The times that `time::strftime` formats in the version format as
/// `timestamp` says: month and weekday in range (else `strftime` refuses
/// them), and day, hour, minute and second of at most two digits.
pub open spec fn formattable(t: UtcTime) -> bool {
    &&& 0 <= t.mon <= 11
    &&& 0 <= t.wday <= 6
    &&& 0 <= t.mday <= 99
    &&& 0 <= t.hour <= 99
    &&& 0 <= t.min <= 99
    &&& 0 <= t.sec <= 99
}

/// Whether the calendar year of `t` fits in an `i32`, as `time` computes it.
pub open spec fn year_fits(t: UtcTime) -> bool {
    t.year + 1900 <= i32::MAX
}

/// The decimal digit for `d` in `0..10`.
pub open spec fn digit(d: int) -> char {
    ('0' as int + d) as char
}

/// The decimal digits of `n`, without leading zeros.
pub open spec fn digits(n: nat) -> Seq<char>
    decreases n,
{
    if n < 10 {
        seq![digit(n as int)]
    } else {
        digits(n / 10).push(digit((n % 10) as int))
    }
}

/// An integer as `Display` prints it: its digits, after a `-` when negative.
pub open spec fn decimal(n: int) -> Seq<char> {
    if n < 0 {
        seq!['-'] + digits((-n) as nat)
    } else {
        digits(n as nat)
    }
}

/// A number in `0..100` in two digits, as `{:02}` prints it.
pub open spec fn pad2(n: int) -> Seq<char> {
    seq![digit(n / 10), digit(n % 10)]
}

/// The format of the build timestamp that `delivery --version` prints.
pub open spec fn version_format() -> Seq<char> {
    "%Y-%m-%dT%H:%M:%SZ"@
}

/// `t` printed in the version format: `YYYY-MM-DDTHH:MM:SSZ`, the calendar
/// year in decimal and the month (counted from 1), day, hour, minute and
/// second in two digits each.
pub open spec fn timestamp(t: UtcTime) -> Seq<char> {
    decimal(t.year + 1900) + seq!['-'] + pad2(t.mon + 1) + seq!['-'] + pad2(t.mday as int)
        + seq!['T'] + pad2(t.hour as int) + seq![':'] + pad2(t.min as int) + seq![':'] + pad2(
        t.sec as int,
    ) + seq!['Z']
}

/// Reads the clock with `time::now_utc()` and hands back the fields of the
/// `Tm` it returns.
///
/// Trusted: `now_utc` fills them from `gmtime_r` with offset 0, which keeps
/// them in the ranges of `in_gmtime_ranges`. Which instant it reads depends on
/// the clock and is not stated.
#[verifier::external_body]
fn utc_now() -> (t: UtcTime)
    ensures
        in_gmtime_ranges(t),
{
    let tm = time::now_utc();
    UtcTime {
        sec: tm.tm_sec,
        min: tm.tm_min,
        hour: tm.tm_hour,
        mday: tm.tm_mday,
        mon: tm.tm_mon,
        year: tm.tm_year,
        wday: tm.tm_wday,
        yday: tm.tm_yday,
        isdst: tm.tm_isdst,
        utcoff: tm.tm_utcoff,
        nsec: tm.tm_nsec,
    }
}

/// Formats `t` with `time::strftime(format, &tm)`, where `tm` holds the
/// fields of `t`, for the version format.
///
/// Trusted: `strftime` accepts this format when the month and weekday are in
/// range, and writes `%Y` as `tm_year + 1900` in decimal, `%m` as
/// `tm_mon + 1`, and `%d`, `%H`, `%M`, `%S` as the fields, each in two digits;
/// the other characters are copied. The year must fit in an `i32`, since
/// `time` adds 1900 to it. Other formats are not admitted.
#[verifier::external_body]
fn strftime_utc(format: &str, t: &UtcTime) -> (res: Option<String>)
    requires
        format@ == version_format(),
        formattable(*t),
        year_fits(*t),
    ensures
        res is Some && res->0@ == timestamp(*t),
{
    let tm = time::Tm {
        tm_sec: t.sec,
        tm_min: t.min,
        tm_hour: t.hour,
        tm_mday: t.mday,
        tm_mon: t.mon,
        tm_year: t.year,
        tm_wday: t.wday,
        tm_yday: t.yday,
        tm_isdst: t.isdst,
        tm_utcoff: t.utcoff,
        tm_nsec: t.nsec,
    };
    time::strftime(format, &tm).ok()
}

/// The version timestamp of the UTC time `t` (see `timestamp`).
pub fn version_at(t: &UtcTime) -> (res: String)
    requires
        formattable(*t),
        year_fits(*t),
    ensures
        res@ == timestamp(*t),
{
    let formatted = strftime_utc("%Y-%m-%dT%H:%M:%SZ", t);
    formatted.unwrap()
}

/// The version text of the UTC time `t`: its timestamp, or none when its
/// year does not fit in an `i32`, which `time` cannot format.
pub open spec fn version_of_spec(t: UtcTime) -> Option<Seq<char>> {
    if year_fits(t) {
        Some(timestamp(t))
    } else {
        None
    }
}

/// The view of an optional string.
pub open spec fn opt_string_view(s: Option<String>) -> Option<Seq<char>> {
    match s {
        Some(v) => Some(v@),
        None => None,
    }
}

/// The version text of the clock reading `t` (see `version_of_spec`).
pub fn version_of(t: &UtcTime) -> (res: Option<String>)
    requires
        formattable(*t),
    ensures
        opt_string_view(res) == version_of_spec(*t),
{
    if t.year <= i32::MAX - 1900 {
        Some(version_at(t))
    } else {
        None
    }
}

/// Whether every reading that `clock` may give is one that
/// `time::strftime` can be asked to format.
pub open spec fn gives_formattable<F: FnOnce() -> UtcTime>(clock: F) -> bool {
    forall|t: UtcTime| #[trigger] call_ensures(clock, (), t) ==> formattable(t)
}

/// The version text of the time that `clock` reads: the clock is asked
/// once, and the text is that of its very reading.
pub fn version_with<F: FnOnce() -> UtcTime>(clock: F) -> (res: Option<String>)
    requires
        call_requires(clock, ()),
        gives_formattable(clock),
    ensures
        exists|t: UtcTime|
            call_ensures(clock, (), t) && opt_string_view(res) == #[trigger] version_of_spec(t),
{
    let now = clock();
    let res = version_of(&now);
    assert(call_ensures(clock, (), now) && opt_string_view(res) == version_of_spec(now));
    res
}

/// Whether `t` is a reading that the clock (`time::now_utc`) gave.
pub closed spec fn clock_reading(t: UtcTime) -> bool {
    call_ensures(utc_now, (), t)
}

/// Every clock reading lies in the ranges of `gmtime_r`.
pub proof fn lemma_clock_reading_in_ranges(t: UtcTime)
    requires
        clock_reading(t),
    ensures
        in_gmtime_ranges(t),
{
}

/// The current UTC time as `YYYY-MM-DDTHH:MM:SSZ`, which the client prints
/// as its version: the version text of the very reading that
/// `time::now_utc` gave.
pub fn version() -> (res: Option<String>)
    ensures
        exists|t: UtcTime|
            clock_reading(t) && in_gmtime_ranges(t) && opt_string_view(res)
                == #[trigger] version_of_spec(t),
{
    let res = version_with(utc_now);
    proof {
        let t = choose|t: UtcTime|
            call_ensures(utc_now, (), t) && opt_string_view(res) == #[trigger] version_of_spec(t);
        assert(in_gmtime_ranges(t));
        assert(clock_reading(t));
    }
    res
}

/// The version text is that of the clock's own reading: for any two clocks,
/// `version_with` can give a reading's text only if that reading is one the
/// clock gives, so a clock that always reads `t` yields exactly `t`'s text.
pub proof fn lemma_version_reads_the_clock<F: FnOnce() -> UtcTime>(
    clock: F,
    t: UtcTime,
    res: Option<Seq<char>>,
)
    requires
        forall|u: UtcTime| #[trigger] call_ensures(clock, (), u) ==> u == t,
        exists|u: UtcTime| call_ensures(clock, (), u) && res == #[trigger] version_of_spec(u),
    ensures
        res == version_of_spec(t),
        year_fits(t) ==> res == Some(timestamp(t)),
{
}

/// The digits of a four-digit number.
proof fn digits4(n: int)
    requires 1000 <= n <= 9999,
    ensures digits(n as nat) == seq![digit(n / 1000), digit((n / 100) % 10), digit((n / 10) % 10), digit(n % 10)],
{
    reveal_with_fuel(digits, 4);
    assert((n / 10) / 10 == n / 100);
    assert((n / 100) / 10 == n / 1000);
    assert(digits(n as nat) =~= seq![digit(n / 1000), digit((n / 100) % 10), digit((n / 10) % 10), digit(n % 10)]);
}

/// How two four-digit numbers compare digit by digit.
proof fn order4(a: int, b: int)
    requires 1000 <= a < b <= 9999,
    ensures
        a / 1000 < b / 1000
        || (a / 1000 == b / 1000 && (a / 100) % 10 < (b / 100) % 10)
        || (a / 1000 == b / 1000 && (a / 100) % 10 == (b / 100) % 10 && (a / 10) % 10 < (b / 10) % 10)
        || (a / 1000 == b / 1000 && (a / 100) % 10 == (b / 100) % 10 && (a / 10) % 10 == (b / 10) % 10 && a % 10 < b % 10),
{
}

/// How two two-digit numbers compare digit by digit.
proof fn order2(a: int, b: int)
    requires 0 <= a < b <= 99,
    ensures a / 10 < b / 10 || (a / 10 == b / 10 && a % 10 < b % 10),
{
}



/// The characters of a timestamp whose year has four digits.
pub open spec fn timestamp_chars(t: UtcTime) -> Seq<char> {
    let y = t.year + 1900;
    let mo = t.mon + 1;
    let d = t.mday as int;
    let h = t.hour as int;
    let mi = t.min as int;
    let se = t.sec as int;
    seq![
        digit(y / 1000), digit((y / 100) % 10), digit((y / 10) % 10), digit(y % 10), '-',
        digit(mo / 10), digit(mo % 10), '-', digit(d / 10), digit(d % 10), 'T',
        digit(h / 10), digit(h % 10), ':', digit(mi / 10), digit(mi % 10), ':',
        digit(se / 10), digit(se % 10), 'Z',
    ]
}

/// A timestamp with a four-digit year has twenty characters (see `timestamp_chars`).
proof fn lemma_timestamp_chars(t: UtcTime)
    requires 1000 <= t.year + 1900 <= 9999,
    ensures timestamp(t) == timestamp_chars(t),
{
    digits4(t.year + 1900);
    assert(timestamp(t) =~= timestamp_chars(t));
}

/// Whether `a` sorts before `b` character by character.
pub open spec fn lexicographically_before(a: Seq<char>, b: Seq<char>) -> bool {
    exists|k: int| #![trigger a[k], b[k]] 0 <= k < a.len() && k < b.len() && a.take(k) == b.take(k) && a[k] < b[k]
}

/// Two timestamps that agree before position `k` and differ upward at `k`
/// are in order.
proof fn lemma_precedes_at(a: Seq<char>, b: Seq<char>, k: int)
    requires
        a.len() == 20, b.len() == 20, 0 <= k < 20,
        forall|i: int| 0 <= i < k ==> a[i] == b[i],
        a[k] < b[k],
    ensures lexicographically_before(a, b),
{
    assert(a.take(k) =~= b.take(k));
}

/// Whether `a` is an earlier time than `b`, comparing year, month, day,
/// hour, minute and second in turn.
pub open spec fn earlier_than(a: UtcTime, b: UtcTime) -> bool {
    ||| a.year < b.year
    ||| a.year == b.year && a.mon < b.mon
    ||| a.year == b.year && a.mon == b.mon && a.mday < b.mday
    ||| a.year == b.year && a.mon == b.mon && a.mday == b.mday && a.hour < b.hour
    ||| a.year == b.year && a.mon == b.mon && a.mday == b.mday && a.hour == b.hour && a.min < b.min
    ||| a.year == b.year && a.mon == b.mon && a.mday == b.mday && a.hour == b.hour && a.min == b.min && a.sec < b.sec
}

/// Version timestamps sort as the times they show: of two times in the
/// ranges of `gmtime_r` whose years have four digits, the earlier one gives
/// the timestamp that sorts first.
#[verifier::spinoff_prover]
#[verifier::rlimit(40)]
pub proof fn lemma_version_order(a: UtcTime, b: UtcTime)
    requires
        in_gmtime_ranges(a), in_gmtime_ranges(b),
        1000 <= a.year + 1900 <= 9999, 1000 <= b.year + 1900 <= 9999,
        earlier_than(a, b),
    ensures lexicographically_before(timestamp(a), timestamp(b)),
{
    lemma_timestamp_chars(a);
    lemma_timestamp_chars(b);
    let s = timestamp_chars(a);
    let t = timestamp_chars(b);
    let ya = a.year + 1900;
    let yb = b.year + 1900;
    if a.year < b.year {
        order4(ya, yb);
        if ya / 1000 < yb / 1000 {
            lemma_precedes_at(s, t, 0);
        } else if (ya / 100) % 10 < (yb / 100) % 10 {
            lemma_precedes_at(s, t, 1);
        } else if (ya / 10) % 10 < (yb / 10) % 10 {
            lemma_precedes_at(s, t, 2);
        } else {
            lemma_precedes_at(s, t, 3);
        }
    } else if a.mon < b.mon {
        order2(a.mon + 1, b.mon + 1);
        if (a.mon + 1) / 10 < (b.mon + 1) / 10 {
            lemma_precedes_at(s, t, 5);
        } else {
            lemma_precedes_at(s, t, 6);
        }
    } else if a.mday < b.mday {
        order2(a.mday as int, b.mday as int);
        if (a.mday as int) / 10 < (b.mday as int) / 10 {
            lemma_precedes_at(s, t, 8);
        } else {
            lemma_precedes_at(s, t, 9);
        }
    } else if a.hour < b.hour {
        order2(a.hour as int, b.hour as int);
        if (a.hour as int) / 10 < (b.hour as int) / 10 {
            lemma_precedes_at(s, t, 11);
        } else {
            lemma_precedes_at(s, t, 12);
        }
    } else if a.min < b.min {
        order2(a.min as int, b.min as int);
        if (a.min as int) / 10 < (b.min as int) / 10 {
            lemma_precedes_at(s, t, 14);
        } else {
            lemma_precedes_at(s, t, 15);
        }
    } else {
        order2(a.sec as int, b.sec as int);
        if (a.sec as int) / 10 < (b.sec as int) / 10 {
            lemma_precedes_at(s, t, 17);
        } else {
            lemma_precedes_at(s, t, 18);
        }
    }
}

} // verus!
