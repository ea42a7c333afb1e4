//! Reporting-day arithmetic: the proleptic Gregorian calendar on era day
//! numbers (day 0 is 0000-01-01), the upstream cutoff rule, and
//! `YYYY-MM-DD` formatting.

use vstd::prelude::*;

verus! {

/// Seconds in one day.
pub const SECS_PER_DAY: i64 = 86_400;

/// Largest era day number the library formats. Era day 0 is 0000-01-01;
/// this day falls in year 9993, so every formatted year has exactly four
/// digits.
pub const MAX_ERA_DAY: u32 = 3_649_999;

/// Days from 0000-01-01 to 1970-01-01 in the proleptic Gregorian
/// calendar.
pub const DAYS_TO_EPOCH: i64 = 719_528;

/// Seconds from 0000-01-01 to 1970-01-01.
pub const SECS_TO_EPOCH: i64 = DAYS_TO_EPOCH * SECS_PER_DAY;

/// Smallest epoch second the library converts: 0000-01-01 00:00:00.
pub const MIN_EPOCH_SECOND: i64 = 0 - SECS_TO_EPOCH;

/// Largest epoch second the library converts, at the end of the last era
/// day.
pub const MAX_EPOCH_SECOND: i64 = (MAX_ERA_DAY as i64 + 1) * SECS_PER_DAY - SECS_TO_EPOCH - 1;

/// The upstream source publishes a new reporting day at 10:00 UTC,
/// given here in seconds from midnight.
pub const CUTOFF_SECONDS: i64 = 36_000;

/// A calendar date in the proleptic Gregorian calendar.
#[derive(Clone, Copy, PartialEq, Eq, Structural, Debug)]
pub struct Date {
    pub year: u32,
    pub month: u32,
    pub day: u32,
}

/// A calendar date with a time of day, in UTC.
#[derive(Clone, Copy, PartialEq, Eq, Structural, Debug)]
pub struct DateTime {
    pub date: Date,
    pub hour: u32,
    pub minute: u32,
    pub second: u32,
}

pub open spec fn is_leap_year(y: int) -> bool {
    (y % 4 == 0 && y % 100 != 0) || y % 400 == 0
}

pub open spec fn days_in_month(y: int, m: int) -> int {
    if m == 2 {
        if is_leap_year(y) {
            29
        } else {
            28
        }
    } else if m == 4 || m == 6 || m == 9 || m == 11 {
        30
    } else {
        31
    }
}

/// Days in the months of year `y` strictly before month `m`.
pub open spec fn days_before_month(y: int, m: int) -> int {
    let feb: int = if is_leap_year(y) {
        29
    } else {
        28
    };
    if m <= 1 {
        0
    } else if m == 2 {
        31
    } else if m == 3 {
        31 + feb
    } else if m == 4 {
        62 + feb
    } else if m == 5 {
        92 + feb
    } else if m == 6 {
        123 + feb
    } else if m == 7 {
        153 + feb
    } else if m == 8 {
        184 + feb
    } else if m == 9 {
        215 + feb
    } else if m == 10 {
        245 + feb
    } else if m == 11 {
        276 + feb
    } else if m == 12 {
        306 + feb
    } else {
        337 + feb
    }
}

pub open spec fn days_in_year(y: int) -> int {
    days_before_month(y, 13)
}

pub open spec fn valid_date(d: Date) -> bool {
    1 <= d.month <= 12 && 1 <= d.day <= days_in_month(d.year as int, d.month as int)
}

/// Walks years forward from `y`, consuming `rem` days, until fewer than a
/// year's worth of days remains; yields the final year and remainder.
pub open spec fn split_year(y: int, rem: int) -> (int, int)
    decreases rem,
{
    if rem < days_in_year(y) {
        (y, rem)
    } else {
        split_year(y + 1, rem - days_in_year(y))
    }
}

/// Walks months forward from `m` in year `y`, consuming `rem` days.
pub open spec fn split_month(y: int, m: int, rem: int) -> (int, int)
    decreases 12 - m,
{
    if m >= 12 || rem < days_in_month(y, m) {
        (m, rem)
    } else {
        split_month(y, m + 1, rem - days_in_month(y, m))
    }
}

/// The calendar date of era day number `days` (day 0 is 0000-01-01).
pub open spec fn civil_of_day(days: int) -> (int, int, int) {
    let yr = split_year(0, days);
    let mr = split_month(yr.0, 1, yr.1);
    (yr.0, mr.0, mr.1 + 1)
}

/// The epoch second of an epoch-millisecond instant: integer division by
/// 1000 truncated toward zero, the reading the second-resolution
/// conversion applies.
pub open spec fn epoch_seconds_of_ms(ms: int) -> int {
    if ms >= 0 {
        ms / 1000
    } else {
        -((-ms) / 1000)
    }
}

/// Epoch seconds clamped to the window the four-digit-year format can
/// carry: 0000-01-01 to the last era day.
pub open spec fn clamp_seconds(s: int) -> int {
    if s < MIN_EPOCH_SECOND {
        MIN_EPOCH_SECOND as int
    } else if s > MAX_EPOCH_SECOND {
        MAX_EPOCH_SECOND as int
    } else {
        s
    }
}

/// Seconds since 0000-01-01 of the (clamped) instant `ms`.
pub open spec fn era_second_of_ms(ms: int) -> int {
    clamp_seconds(epoch_seconds_of_ms(ms)) + SECS_TO_EPOCH
}

/// The era day number containing the (clamped) instant `ms`.
pub open spec fn era_day_of_ms(ms: int) -> int {
    era_second_of_ms(ms) / (SECS_PER_DAY as int)
}

/// Seconds since midnight of the (clamped) instant `ms`.
pub open spec fn second_of_day_of_ms(ms: int) -> int {
    era_second_of_ms(ms) % (SECS_PER_DAY as int)
}

/// Day `day` moved by `off` days, falling back to `day` itself when the
/// target leaves the supported range, so that an unrepresentable date
/// never aborts a request.
pub open spec fn shifted_day(day: int, off: int) -> int {
    if 0 <= day + off <= MAX_ERA_DAY {
        day + off
    } else {
        day
    }
}

/// The day offset in force at instant `ms`: before the 10:00 UTC cutoff the
/// upstream source still serves the previous reporting day.
pub open spec fn effective_offset(prefix: int, ms: int) -> int {
    if second_of_day_of_ms(ms) < CUTOFF_SECONDS {
        prefix - 1
    } else {
        prefix
    }
}

/// The decimal digit character for `d` in 0..10 (and a digit for every
/// other argument, so the function is total).
pub open spec fn digit_char(d: int) -> char {
    if d == 0 {
        '0'
    } else if d == 1 {
        '1'
    } else if d == 2 {
        '2'
    } else if d == 3 {
        '3'
    } else if d == 4 {
        '4'
    } else if d == 5 {
        '5'
    } else if d == 6 {
        '6'
    } else if d == 7 {
        '7'
    } else if d == 8 {
        '8'
    } else {
        '9'
    }
}

/// `n` as two decimal digits, zero padded.
pub open spec fn dec2(n: int) -> Seq<char> {
    seq![digit_char((n / 10) % 10), digit_char(n % 10)]
}

/// `n` as four decimal digits, zero padded.
pub open spec fn dec4(n: int) -> Seq<char> {
    seq![
        digit_char((n / 1000) % 10),
        digit_char((n / 100) % 10),
        digit_char((n / 10) % 10),
        digit_char(n % 10),
    ]
}

/// `YYYY-MM-DD`.
pub open spec fn date_string(y: int, m: int, d: int) -> Seq<char> {
    dec4(y) + seq!['-'] + dec2(m) + seq!['-'] + dec2(d)
}

/// `YYYY-MM-DD HH:MM:SS`.
pub open spec fn datetime_string(dt: DateTime) -> Seq<char> {
    date_string(dt.date.year as int, dt.date.month as int, dt.date.day as int) + seq![' ']
        + dec2(dt.hour as int) + seq![':'] + dec2(dt.minute as int) + seq![':'] + dec2(
        dt.second as int,
    )
}

/// Every character is plain ASCII.
pub open spec fn ascii_chars(s: Seq<char>) -> bool {
    forall|i: int| 0 <= i < s.len() ==> '\0' <= #[trigger] s[i] <= '\u{7f}'
}

pub proof fn lemma_digit_char_ascii()
    ensures
        forall|d: int| '0' <= #[trigger] digit_char(d) <= '9',
{
}

pub proof fn lemma_ascii_concat(a: Seq<char>, b: Seq<char>)
    requires
        ascii_chars(a),
        ascii_chars(b),
    ensures
        ascii_chars(a + b),
{
    assert forall|i: int| 0 <= i < (a + b).len() implies '\0' <= #[trigger] (a + b)[i]
        <= '\u{7f}' by {
        if i < a.len() {
            assert((a + b)[i] == a[i]);
        } else {
            assert((a + b)[i] == b[i - a.len()]);
        }
    }
}

pub proof fn lemma_date_string_ascii(y: int, m: int, d: int)
    ensures
        ascii_chars(date_string(y, m, d)),
{
    lemma_digit_char_ascii();
    let s = date_string(y, m, d);
    assert forall|i: int| 0 <= i < s.len() implies '\0' <= #[trigger] s[i] <= '\u{7f}' by {
        assert(s.len() == 10);
    }
}

pub fn is_leap_year_x(y: u32) -> (r: bool)
    ensures
        r == is_leap_year(y as int),
{
    (y % 4 == 0 && y % 100 != 0) || y % 400 == 0
}

pub fn days_in_month_x(y: u32, m: u32) -> (r: u32)
    ensures
        r == days_in_month(y as int, m as int),
{
    if m == 2 {
        if is_leap_year_x(y) {
            29
        } else {
            28
        }
    } else if m == 4 || m == 6 || m == 9 || m == 11 {
        30
    } else {
        31
    }
}

pub fn days_in_year_x(y: u32) -> (r: u32)
    ensures
        r == days_in_year(y as int),
{
    if is_leap_year_x(y) {
        366
    } else {
        365
    }
}

/// Converts an era day number to its calendar date.
pub fn civil_from_day_number(d: u32) -> (r: Date)
    requires
        d <= MAX_ERA_DAY,
    ensures
        (r.year as int, r.month as int, r.day as int) == civil_of_day(d as int),
        valid_date(r),
        r.year <= 9999,
{
    let mut y: u32 = 0;
    let mut rem: u32 = d;
    let mut diy: u32 = days_in_year_x(y);
    while rem >= diy
        invariant
            diy == days_in_year(y as int),
            rem <= d <= MAX_ERA_DAY,
            365 * y <= d - rem,
            split_year(0, d as int) == split_year(y as int, rem as int),
        decreases rem,
    {
        rem = rem - diy;
        y = y + 1;
        diy = days_in_year_x(y);
    }
    assert(split_year(y as int, rem as int) == (y as int, rem as int));
    let year_rem: u32 = rem;
    let mut m: u32 = 1;
    let mut dim: u32 = days_in_month_x(y, m);
    while m < 12 && rem >= dim
        invariant
            1 <= m <= 12,
            dim == days_in_month(y as int, m as int),
            rem <= year_rem < days_in_year(y as int),
            days_before_month(y as int, m as int) + rem == year_rem,
            split_month(y as int, 1, year_rem as int) == split_month(y as int, m as int, rem as int),
        decreases 12 - m,
    {
        rem = rem - dim;
        m = m + 1;
        dim = days_in_month_x(y, m);
    }
    assert(rem < dim);
    assert(split_month(y as int, m as int, rem as int) == (m as int, rem as int));
    Date { year: y, month: m, day: rem + 1 }
}

/// The seconds since 0000-01-01 of an epoch-millisecond instant, clamped
/// to the window the four-digit-year format can carry.
pub fn clamped_era_seconds(ms: i64) -> (r: i64)
    ensures
        r == era_second_of_ms(ms as int),
        0 <= r <= (MAX_ERA_DAY as i64 + 1) * SECS_PER_DAY - 1,
{
    let secs: i64 = if ms >= 0 {
        let s = ms / 1000;
        if s > MAX_EPOCH_SECOND {
            MAX_EPOCH_SECOND
        } else {
            s
        }
    } else if ms == i64::MIN {
        assert(epoch_seconds_of_ms(ms as int) < MIN_EPOCH_SECOND);
        MIN_EPOCH_SECOND
    } else {
        let s = -((-ms) / 1000);
        if s < MIN_EPOCH_SECOND {
            MIN_EPOCH_SECOND
        } else {
            s
        }
    };
    secs + SECS_TO_EPOCH
}

/// The calendar date of the (clamped) instant `ms`.
pub fn date_from_epoch_ms(ms: i64) -> (r: Date)
    ensures
        (r.year as int, r.month as int, r.day as int) == civil_of_day(era_day_of_ms(ms as int)),
        valid_date(r),
        r.year <= 9999,
{
    let c = clamped_era_seconds(ms);
    let d = (c / SECS_PER_DAY) as u32;
    assert(c / SECS_PER_DAY <= MAX_ERA_DAY) by (nonlinear_arith)
        requires
            0 <= c <= (MAX_ERA_DAY as i64 + 1) * SECS_PER_DAY - 1,
    ;
    civil_from_day_number(d)
}

/// The calendar date and UTC time of day of the (clamped) instant `ms`.
pub fn datetime_from_epoch_ms(ms: i64) -> (r: DateTime)
    ensures
        r == datetime_of_ms(ms as int),
        valid_date(r.date),
        r.date.year <= 9999,
        r.hour < 24 && r.minute < 60 && r.second < 60,
{
    let date = date_from_epoch_ms(ms);
    let c = clamped_era_seconds(ms);
    let sod = (c % SECS_PER_DAY) as u32;
    let hour = sod / 3600;
    let minute = (sod / 60) % 60;
    let second = sod % 60;
    assert(sod / 3600 < 24) by (nonlinear_arith)
        requires
            0 <= sod < 86_400,
    ;
    DateTime { date, hour, minute, second }
}

/// The date and UTC time of day of the (clamped) instant `ms`, as a value.
pub open spec fn datetime_of_ms(ms: int) -> DateTime {
    let c = civil_of_day(era_day_of_ms(ms));
    DateTime {
        date: Date { year: c.0 as u32, month: c.1 as u32, day: c.2 as u32 },
        hour: (second_of_day_of_ms(ms) / 3600) as u32,
        minute: ((second_of_day_of_ms(ms) / 60) % 60) as u32,
        second: (second_of_day_of_ms(ms) % 60) as u32,
    }
}

/// `YYYY-MM-DD HH:MM:SS` of the (clamped) instant `ms`.
pub open spec fn timestamp_string(ms: int) -> Seq<char> {
    datetime_string(datetime_of_ms(ms))
}

/// `YYYY-MM-DD` of the day `off` days after the one containing `now_ms`,
/// with the fallback of `shifted_day` on an unrepresentable target.
pub open spec fn offset_date_string(now_ms: int, off: int) -> Seq<char> {
    let c = civil_of_day(shifted_day(era_day_of_ms(now_ms), off));
    date_string(c.0, c.1, c.2)
}

/// Relies on std's `SystemTime::now` and `duration_since`: milliseconds
/// since the Unix epoch of the current system time. Nothing can be
/// promised of a clock reading; a clock before the epoch reads as the
/// epoch itself, so the call never panics.
#[verifier::external_body]
pub fn now_epoch_ms() -> i64 {
    match std::time::SystemTime::now().duration_since(std::time::UNIX_EPOCH) {
        Ok(d) => d.as_millis() as i64,
        Err(_) => 0,
    }
}

fn digit_str(d: u32) -> (r: &'static str)
    requires
        d < 10,
    ensures
        r@ =~= seq![digit_char(d as int)],
{
    if d == 0 {
        proof {
            reveal_strlit("0");
        }
        "0"
    } else if d == 1 {
        proof {
            reveal_strlit("1");
        }
        "1"
    } else if d == 2 {
        proof {
            reveal_strlit("2");
        }
        "2"
    } else if d == 3 {
        proof {
            reveal_strlit("3");
        }
        "3"
    } else if d == 4 {
        proof {
            reveal_strlit("4");
        }
        "4"
    } else if d == 5 {
        proof {
            reveal_strlit("5");
        }
        "5"
    } else if d == 6 {
        proof {
            reveal_strlit("6");
        }
        "6"
    } else if d == 7 {
        proof {
            reveal_strlit("7");
        }
        "7"
    } else if d == 8 {
        proof {
            reveal_strlit("8");
        }
        "8"
    } else {
        proof {
            reveal_strlit("9");
        }
        "9"
    }
}

fn push_dec2(s: &mut String, n: u32)
    requires
        n < 100,
    ensures
        final(s)@ == old(s)@ + dec2(n as int),
{
    s.append(digit_str(n / 10));
    s.append(digit_str(n % 10));
    assert(s@ =~= old(s)@ + dec2(n as int));
}

fn push_dec4(s: &mut String, n: u32)
    requires
        n <= 9999,
    ensures
        final(s)@ == old(s)@ + dec4(n as int),
{
    s.append(digit_str(n / 1000));
    s.append(digit_str((n / 100) % 10));
    s.append(digit_str((n / 10) % 10));
    s.append(digit_str(n % 10));
    assert(s@ =~= old(s)@ + dec4(n as int));
}

/// Formats a date as `YYYY-MM-DD`.
pub fn format_date(d: Date) -> (s: String)
    requires
        d.year <= 9999,
        d.month < 100,
        d.day < 100,
    ensures
        s@ == date_string(d.year as int, d.month as int, d.day as int),
{
    let mut s = String::new();
    push_dec4(&mut s, d.year);
    s.append("-");
    push_dec2(&mut s, d.month);
    s.append("-");
    push_dec2(&mut s, d.day);
    proof {
        reveal_strlit("-");
        assert(s@ =~= date_string(d.year as int, d.month as int, d.day as int));
    }
    s
}

/// Formats a date and time of day as `YYYY-MM-DD HH:MM:SS`.
pub fn format_date_with_time(dt: DateTime) -> (s: String)
    requires
        dt.date.year <= 9999,
        dt.date.month < 100,
        dt.date.day < 100,
        dt.hour < 100,
        dt.minute < 100,
        dt.second < 100,
    ensures
        s@ == datetime_string(dt),
{
    let mut s = format_date(dt.date);
    s.append(" ");
    push_dec2(&mut s, dt.hour);
    s.append(":");
    push_dec2(&mut s, dt.minute);
    s.append(":");
    push_dec2(&mut s, dt.second);
    proof {
        reveal_strlit(" ");
        reveal_strlit(":");
        assert(s@ =~= datetime_string(dt));
    }
    s
}

/// `YYYY-MM-DD HH:MM:SS` of the (clamped) instant `ms`.
pub fn timestamp_to_date_at(ms: i64) -> (r: String)
    ensures
        r@ == timestamp_string(ms as int),
{
    let dt = datetime_from_epoch_ms(ms);
    format_date_with_time(dt)
}

/// Converts an epoch-millisecond timestamp to `YYYY-MM-DD HH:MM:SS`; an
/// absent timestamp becomes the current UTC time. Timestamps outside the
/// four-digit-year window (0000-01-01 to the last era day) clamp to it,
/// as `clamp_seconds` states.
pub fn timestamp_to_date(ts: Option<i64>) -> (r: String)
    ensures
        ts matches Some(ms) ==> r@ == timestamp_string(ms as int),
        ts is None ==> exists|now: int| r@ == timestamp_string(now),
{
    match ts {
        Some(ms) => timestamp_to_date_at(ms),
        None => {
            let now = now_epoch_ms();
            let r = timestamp_to_date_at(now);
            assert(r@ == timestamp_string(now as int));
            r
        },
    }
}

/// `YYYY-MM-DD` of the day `days` days after the one containing `now_ms`.
pub fn offset_date_from(now_ms: i64, days: i64) -> (r: String)
    ensures
        r@ == offset_date_string(now_ms as int, days as int),
{
    let c = clamped_era_seconds(now_ms);
    let day = (c / SECS_PER_DAY) as u32;
    assert(c / SECS_PER_DAY <= MAX_ERA_DAY) by (nonlinear_arith)
        requires
            0 <= c <= (MAX_ERA_DAY as i64 + 1) * SECS_PER_DAY - 1,
    ;
    let target: u32 = if days > 4_000_000 || days < -4_000_000 {
        day
    } else {
        let t = day as i64 + days;
        if 0 <= t && t <= MAX_ERA_DAY as i64 {
            t as u32
        } else {
            day
        }
    };
    assert(target == shifted_day(era_day_of_ms(now_ms as int), days as int));
    let d = civil_from_day_number(target);
    format_date(d)
}

/// `YYYY-MM-DD` of today shifted by `days` days, today being read from the
/// system clock. A target outside the four-digit-year window falls back
/// to today, as `shifted_day` states.
pub fn add_cur_date(days: i64) -> (r: String)
    ensures
        exists|now: int| r@ == offset_date_string(now, days as int),
{
    let now = now_epoch_ms();
    let r = offset_date_from(now, days);
    assert(r@ == offset_date_string(now as int, days as int));
    r
}

/// The day offset in force at instant `now_ms`, one less than `prefix`
/// before the 10:00 UTC cutoff.
pub fn count_prefix_at(prefix: i64, now_ms: i64) -> (r: i64)
    requires
        prefix > i64::MIN,
    ensures
        r == effective_offset(prefix as int, now_ms as int),
{
    let c = clamped_era_seconds(now_ms);
    let sod = c % SECS_PER_DAY;
    if sod < CUTOFF_SECONDS {
        prefix - 1
    } else {
        prefix
    }
}

} // verus!
