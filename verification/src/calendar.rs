//! Dates: the civil date of a day, and the time stamps of log lines.

use vstd::prelude::*;
use vstd::string::*;

use crate::text;

verus! {

/// Days from the first day of the year 1 to the first day of 1970.
pub const EPOCH_DAYS: i64 = 719_162;

/// The earliest day whose year can be told, counted from the first day of 1970.
pub const MIN_DAY: i64 = -784_353_015_833;

/// The latest day whose year can be told, counted from the first day of 1970.
pub const MAX_DAY: i64 = 784_351_576_776;

/// Whether a year has a leap day, in the Gregorian calendar.
pub open spec fn is_leap(y: int) -> bool {
    y % 4 == 0 && (y % 100 != 0 || y % 400 == 0)
}

/// Days from the first day of the year 1 to the first day of year `y`.
pub open spec fn days_before_year(y: int) -> int {
    365 * (y - 1) + (y - 1) / 4 - (y - 1) / 100 + (y - 1) / 400
}

/// Days in a month.
pub open spec fn days_in_month(y: int, m: int) -> int {
    if m == 2 {
        if is_leap(y) {
            29
        } else {
            28
        }
    } else if m == 4 || m == 6 || m == 9 || m == 11 {
        30
    } else {
        31
    }
}

/// Days of a year before a month.
pub open spec fn days_before_month(y: int, m: int) -> int
    decreases m,
{
    if m <= 1 {
        0
    } else {
        days_before_month(y, m - 1) + days_in_month(y, m - 1)
    }
}

/// Whether there is such a date.
pub open spec fn is_date(y: int, m: int, d: int) -> bool {
    1 <= m <= 12 && 1 <= d <= days_in_month(y, m)
}

/// The number of a date, counted in days from the first day of 1970.
pub open spec fn day_number(y: int, m: int, d: int) -> int {
    days_before_year(y) + days_before_month(y, m) + (d - 1) - EPOCH_DAYS
}

/// Days from the first of March of the year 0 to the first of March of year `y`.
spec fn march_days(y: int) -> int {
    365 * y + y / 4 - y / 100 + y / 400
}

/// Year `yoe` of an era, counted from March, is the one that day `doe` of the era lies in.
proof fn lemma_year_of_era(doe: u32, yoe: u32)
    requires
        doe <= 146_096,
        yoe == (doe - doe / 1460 + doe / 36524 - doe / 146_096) / 365,
    ensures
        yoe <= 399,
        march_days(yoe as int) <= doe < march_days(yoe + 1),
{
    let a = doe / 1460;
    let b = doe / 36524;
    let c = doe / 146_096;
    let n = (doe - a + b - c) as u32;
    let next = (yoe + 1) as u32;
    let y4 = yoe / 4;
    let y100 = yoe / 100;
    let n4 = next / 4;
    let n100 = next / 100;
    let n400 = next / 400;
    assert(yoe <= 399 && 365 * yoe + y4 <= doe + y100 && doe + n100 < 365 * next + n4 + n400)
        by (bit_vector)
        requires
            doe <= 146_096,
            a == doe / 1460,
            b == doe / 36524,
            c == doe / 146_096,
            n + a + c == doe + b,
            yoe == n / 365,
            next == yoe + 1,
            y4 == yoe / 4,
            y100 == yoe / 100,
            n4 == next / 4,
            n100 == next / 100,
            n400 == next / 400,
    ;
}

/// A whole number of eras shifts the days by as many times 146097.
proof fn lemma_era_shift(era: int, yoe: int)
    requires
        0 <= yoe <= 400,
    ensures
        march_days(400 * era + yoe) == 146_097 * era + march_days(yoe),
        is_leap(400 * era + yoe) == is_leap(yoe),
{
    assert((400 * era + yoe) / 4 == 100 * era + yoe / 4);
    assert((400 * era + yoe) / 100 == 4 * era + yoe / 100);
    assert((400 * era + yoe) / 400 == era + yoe / 400);
}

/// What the years from March have to do with the years from January.
proof fn lemma_march_year(y: int)
    ensures
        days_before_year(y + 1) == march_days(y),
        days_before_year(y) + 59 + (if is_leap(y) {
            1int
        } else {
            0
        }) == march_days(y) - 306,
        march_days(y + 1) - march_days(y) == 365 + (if is_leap(y + 1) {
            1int
        } else {
            0
        }),
{
    lemma_quotients(y);
    lemma_quotients(y + 1);
}

/// A quotient grows where the divisor divides.
proof fn lemma_quotients(y: int)
    ensures
        y / 4 - (y - 1) / 4 == (if y % 4 == 0 {
            1int
        } else {
            0
        }),
        y / 100 - (y - 1) / 100 == (if y % 100 == 0 {
            1int
        } else {
            0
        }),
        y / 400 - (y - 1) / 400 == (if y % 400 == 0 {
            1int
        } else {
            0
        }),
        y % 400 == 0 ==> y % 100 == 0,
        y % 100 == 0 ==> y % 4 == 0,
{
    lemma_quotient(y, 4);
    lemma_quotient(y, 100);
    lemma_quotient(y, 400);
    if y % 400 == 0 {
        vstd::arithmetic::div_mod::lemma_fundamental_div_mod(y, 400);
        vstd::arithmetic::div_mod::lemma_fundamental_div_mod_converse(y, 100, 4 * (y / 400), 0);
    }
    if y % 100 == 0 {
        vstd::arithmetic::div_mod::lemma_fundamental_div_mod(y, 100);
        vstd::arithmetic::div_mod::lemma_fundamental_div_mod_converse(y, 4, 25 * (y / 100), 0);
    }
}

/// A quotient grows where the divisor divides.
proof fn lemma_quotient(y: int, k: int)
    requires
        k > 1,
    ensures
        y / k - (y - 1) / k == (if y % k == 0 {
            1int
        } else {
            0
        }),
{
    let q = y / k;
    let r = y % k;
    vstd::arithmetic::div_mod::lemma_fundamental_div_mod(y, k);
    vstd::arithmetic::div_mod::lemma_mod_bound(y, k);
    if r == 0 {
        assert(y - 1 == (q - 1) * k + (k - 1)) by (nonlinear_arith)
            requires
                y == k * q + r,
                r == 0,
        ;
        vstd::arithmetic::div_mod::lemma_fundamental_div_mod_converse(y - 1, k, q - 1, k - 1);
    } else {
        assert(y - 1 == q * k + (r - 1)) by (nonlinear_arith)
            requires
                y == k * q + r,
        ;
        vstd::arithmetic::div_mod::lemma_fundamental_div_mod_converse(y - 1, k, q, r - 1);
    }
}

/// The month and day of day `doy` of a year that begins in March.
proof fn lemma_month_of_year(doy: int, mp: int, d: int, y: int)
    requires
        0 <= doy <= 365,
        mp == (5 * doy + 2) / 153,
        d == doy - (153 * mp + 2) / 5 + 1,
        doy == 365 ==> is_leap(y + 1),
    ensures
        0 <= mp <= 11,
        1 <= d <= 31,
        mp < 10 ==> is_date(y, mp + 3, d) && days_before_month(y, mp + 3) + (d - 1) == doy + 59 + (
        if is_leap(y) {
            1int
        } else {
            0
        }),
        mp >= 10 ==> is_date(y + 1, mp - 9, d) && days_before_month(y + 1, mp - 9) + (d - 1) == doy
            - 306,
{
    reveal_with_fuel(days_before_month, 13);
    assert(0 <= mp <= 11);
    if mp == 0 {
    } else if mp == 1 {
    } else if mp == 2 {
    } else if mp == 3 {
    } else if mp == 4 {
    } else if mp == 5 {
    } else if mp == 6 {
    } else if mp == 7 {
    } else if mp == 8 {
    } else if mp == 9 {
    } else if mp == 10 {
    } else {
    }
}

/// Years of different numbers do not share a day.
proof fn lemma_years_ordered(a: int, b: int)
    requires
        a < b,
    ensures
        days_before_year(a) + 365 + (if is_leap(a) {
            1int
        } else {
            0
        }) <= days_before_year(b),
    decreases b - a,
{
    lemma_quotients(a);
    if a + 1 < b {
        lemma_years_ordered(a + 1, b);
    }
}

/// The date of a day, in the Gregorian calendar: year, month and day of the month. The days are
/// counted from the first day of 1970.
pub fn civil_from_days(z: i64) -> (r: (i32, u8, u8))
    requires
        MIN_DAY <= z <= MAX_DAY,
    ensures
        is_date(r.0 as int, r.1 as int, r.2 as int),
        day_number(r.0 as int, r.1 as int, r.2 as int) == z,
{
    let z0: i64 = z + 719_468;
    let era: i64 = if z0 >= 0 {
        z0 / 146_097
    } else {
        -((146_096 - z0) / 146_097)
    };
    let doe: u32 = (z0 - era * 146_097) as u32;
    assert(0 <= z0 - era * 146_097 <= 146_096);
    let yoe: u32 = (doe - doe / 1460 + doe / 36524 - doe / 146_096) / 365;
    proof {
        lemma_year_of_era(doe, yoe);
    }
    let ghost year = yoe + 400 * era;
    let y: i64 = yoe as i64 + era * 400;
    let doy: u32 = doe - (365 * yoe + yoe / 4 - yoe / 100);
    let mp: u32 = (5 * doy + 2) / 153;
    let d: u32 = doy - (153 * mp + 2) / 5 + 1;
    proof {
        lemma_era_shift(era as int, yoe as int);
        lemma_era_shift(era as int, yoe + 1);
        lemma_march_year(yoe as int);
        lemma_march_year(year as int);
        lemma_month_of_year(doy as int, mp as int, d as int, year as int);
        assert(march_days(yoe as int) == 365 * yoe + yoe / 4 - yoe / 100);
        assert(z == march_days(year as int) + doy - 719_468);
    }
    let m: u32 = if mp < 10 {
        mp + 3
    } else {
        mp - 9
    };
    let full: i64 = if m <= 2 {
        y + 1
    } else {
        y
    };
    proof {
        assert(day_number(full as int, m as int, d as int) == z);
        lemma_year_in_range(full as int, m as int, d as int);
    }
    (full as i32, m as u8, d as u8)
}

/// The days that can be told lie in years that 32 bits can hold.
proof fn lemma_year_in_range(y: int, m: int, d: int)
    requires
        is_date(y, m, d),
        MIN_DAY <= day_number(y, m, d) <= MAX_DAY,
    ensures
        i32::MIN <= y <= i32::MAX,
{
    lemma_within_year(y, m, d);
    if y < i32::MIN {
        lemma_years_ordered(y, i32::MIN as int);
    }
    if y > i32::MAX {
        if y > i32::MAX + 1 {
            lemma_years_ordered(i32::MAX + 1, y);
        }
    }
}

/// A date lies within its year.
proof fn lemma_within_year(y: int, m: int, d: int)
    requires
        is_date(y, m, d),
    ensures
        0 <= days_before_month(y, m) + (d - 1) < 365 + (if is_leap(y) {
            1int
        } else {
            0
        }),
{
    reveal_with_fuel(days_before_month, 13);
    if m == 1 {
    } else if m == 2 {
    } else if m == 3 {
    } else if m == 4 {
    } else if m == 5 {
    } else if m == 6 {
    } else if m == 7 {
    } else if m == 8 {
    } else if m == 9 {
    } else if m == 10 {
    } else if m == 11 {
    } else {
    }
}

/// No two dates have the same number: the date of a day is the only one.
pub proof fn law_dates_are_unique(y1: int, m1: int, d1: int, y2: int, m2: int, d2: int)
    requires
        is_date(y1, m1, d1),
        is_date(y2, m2, d2),
        day_number(y1, m1, d1) == day_number(y2, m2, d2),
    ensures
        y1 == y2,
        m1 == m2,
        d1 == d2,
{
    lemma_within_year(y1, m1, d1);
    lemma_within_year(y2, m2, d2);
    if y1 < y2 {
        lemma_years_ordered(y1, y2);
    }
    if y2 < y1 {
        lemma_years_ordered(y2, y1);
    }
    if m1 < m2 {
        lemma_months_ordered(y1, m1, m2);
    }
    if m2 < m1 {
        lemma_months_ordered(y1, m2, m1);
    }
}

/// Months of different numbers do not share a day.
proof fn lemma_months_ordered(y: int, a: int, b: int)
    requires
        1 <= a < b,
    ensures
        days_before_month(y, a) + days_in_month(y, a) <= days_before_month(y, b),
    decreases b - a,
{
    if a + 1 < b {
        lemma_months_ordered(y, a, b - 1);
    }
}

/// The numeral of `n` with zeros in front, up to a width.
pub open spec fn padded(n: nat, width: nat) -> Seq<char> {
    let digits = text::dec(n);
    if digits.len() >= width {
        digits
    } else {
        Seq::new((width - digits.len()) as nat, |i: int| '0') + digits
    }
}

/// Appends the numeral of `n` with zeros in front, up to a width.
fn push_padded(s: &mut String, n: u64, width: usize)
    ensures
        final(s)@ == old(s)@ + padded(n as nat, width as nat),
{
    let ghost before = s@;
    let mut digits = String::new();
    text::push_dec(&mut digits, n);
    assert(digits@ =~= text::dec(n as nat));
    let len: usize = digits.as_str().unicode_len();
    let mut i: usize = len;
    while i < width
        invariant
            len <= i,
            i <= width || i == len,
            s@ == before + Seq::new((i - len) as nat, |k: int| '0'),
        decreases width - i,
    {
        s.push('0');
        i = i + 1;
        assert(before + Seq::new((i - len) as nat, |k: int| '0') =~= (before + Seq::new(
            (i - 1 - len) as nat,
            |k: int| '0',
        )).push('0'));
    }
    s.append(digits.as_str());
    proof {
        if len >= width {
            assert(before + Seq::new(0, |k: int| '0') + digits@ =~= before + digits@);
        } else {
            assert(before + Seq::new((width - len) as nat, |k: int| '0') + digits@ =~= before + (
            Seq::new((width - len) as nat, |k: int| '0') + digits@));
        }
    }
}

/// Seconds by which local time is ahead: eight hours.
pub const LOCAL_OFFSET_SECS: u64 = 28_800;

/// The latest second since 1970 that a log line can be written in.
pub const LAST_LOG_SECOND: u64 = 67_767_976_233_503_999;

/// Whether `line` is a log line of the given second since 1970: the local date and time in
/// brackets, and the message.
pub open spec fn is_log_line(unix_secs: u64, message: Seq<char>, line: Seq<char>) -> bool {
    let local = unix_secs + LOCAL_OFFSET_SECS;
    let secs = local % 86_400;
    exists|y: int, m: int, d: int|
        {
            &&& is_date(y, m, d)
            &&& #[trigger] day_number(y, m, d) == local / 86_400
            &&& line == "["@ + padded(y as nat, 4) + "-"@ + padded(m as nat, 2) + "-"@ + padded(
                d as nat,
                2,
            ) + " "@ + padded((secs / 3600) as nat, 2) + ":"@ + padded(
                (secs % 3600 / 60) as nat,
                2,
            ) + ":"@ + padded((secs % 60) as nat, 2) + "] "@ + message
        }
}

/// A log line of the given second since 1970.
pub fn log_line(unix_secs: u64, message: &str) -> (line: String)
    requires
        unix_secs <= LAST_LOG_SECOND,
    ensures
        is_log_line(unix_secs, message@, line@),
{
    let local: u64 = unix_secs + LOCAL_OFFSET_SECS;
    let days: i64 = (local / 86_400) as i64;
    let secs: u64 = local % 86_400;
    let (y, m, d) = civil_from_days(days);
    proof {
        lemma_within_year(y as int, m as int, d as int);
        if y < 1970 {
            lemma_years_ordered(y as int, 1970);
        }
    }
    let mut s = "[".to_owned();
    push_padded(&mut s, y as u64, 4);
    s.append("-");
    push_padded(&mut s, m as u64, 2);
    s.append("-");
    push_padded(&mut s, d as u64, 2);
    s.append(" ");
    push_padded(&mut s, secs / 3600, 2);
    s.append(":");
    push_padded(&mut s, secs % 3600 / 60, 2);
    s.append(":");
    push_padded(&mut s, secs % 60, 2);
    s.append("] ");
    s.append(message);
    assert(day_number(y as int, m as int, d as int) == local as int / 86_400);
    s
}

/// A day after a day: the next day of the month, where there is one, otherwise the first of the next
/// month or of the next year. February has 29 days in every fourth year, but for the full centuries
/// that 400 does not divide.
pub proof fn law_day_after_day(z: i64, w: i64, r: (i32, u8, u8), s: (i32, u8, u8))
    requires
        call_ensures(civil_from_days, (z,), r),
        w == z + 1,
        call_ensures(civil_from_days, (w,), s),
    ensures
        ({
            let y = r.0 as int;
            let days: int = if r.1 == 2 {
                if y % 400 == 0 || (y % 4 == 0 && y % 100 != 0) {
                    29
                } else {
                    28
                }
            } else if r.1 == 4 || r.1 == 6 || r.1 == 9 || r.1 == 11 {
                30
            } else {
                31
            };
            &&& 1 <= r.1 <= 12 && 1 <= r.2 <= days
            &&& if r.2 < days {
                s.0 == r.0 && s.1 == r.1 && s.2 == r.2 + 1
            } else if r.1 < 12 {
                s.0 == r.0 && s.1 == r.1 + 1 && s.2 == 1
            } else {
                s.0 == r.0 + 1 && s.1 == 1 && s.2 == 1
            }
        }),
{
    let y = r.0 as int;
    let m = r.1 as int;
    let d = r.2 as int;
    lemma_quotients(y);
    reveal_with_fuel(days_before_month, 13);
    if d < days_in_month(y, m) {
        law_dates_are_unique(y, m, d + 1, s.0 as int, s.1 as int, s.2 as int);
    } else if m < 12 {
        law_dates_are_unique(y, m + 1, 1, s.0 as int, s.1 as int, s.2 as int);
    } else {
        assert(days_before_month(y, 12) + 31 == 365 + (if is_leap(y) {
            1int
        } else {
            0
        }));
        law_dates_are_unique(y + 1, 1, 1, s.0 as int, s.1 as int, s.2 as int);
    }
}

/// The days are counted from the first of January 1970.
pub proof fn law_first_day(z: i64, r: (i32, u8, u8))
    requires
        call_ensures(civil_from_days, (z,), r),
    ensures
        z == 0 <==> r.0 == 1970 && r.1 == 1 && r.2 == 1,
{
    reveal_with_fuel(days_before_month, 2);
    assert(day_number(1970, 1, 1) == 0);
    if z == 0 {
        law_dates_are_unique(1970, 1, 1, r.0 as int, r.1 as int, r.2 as int);
    }
}

/// What a digit is worth.
pub open spec fn worth(c: char) -> int {
    c as int - 48
}

/// A number of at most two digits takes two places.
proof fn lemma_two_places(n: nat)
    requires
        n < 100,
    ensures
        padded(n, 2).len() == 2,
        10 * worth(padded(n, 2)[0]) + worth(padded(n, 2)[1]) == n,
{
    reveal_with_fuel(text::dec, 3);
    if n >= 10 {
        assert(n / 10 < 10);
    }
}

/// A number of at most four digits takes four places.
proof fn lemma_four_places(n: nat)
    requires
        n < 10_000,
    ensures
        padded(n, 4).len() == 4,
        1000 * worth(padded(n, 4)[0]) + 100 * worth(padded(n, 4)[1]) + 10 * worth(padded(n, 4)[2])
            + worth(padded(n, 4)[3]) == n,
{
    reveal_with_fuel(text::dec, 5);
    if n >= 10 {
        if n >= 100 {
            if n >= 1000 {
                assert(n / 10 / 10 / 10 == n / 1000);
            }
            assert(n / 10 / 10 == n / 100);
        }
    }
}

/// The places of a log line.
proof fn lemma_line_layout(
    y: Seq<char>,
    m: Seq<char>,
    d: Seq<char>,
    h: Seq<char>,
    n: Seq<char>,
    s: Seq<char>,
    message: Seq<char>,
    t: Seq<char>,
)
    requires
        y.len() == 4,
        m.len() == 2,
        d.len() == 2,
        h.len() == 2,
        n.len() == 2,
        s.len() == 2,
        t == "["@ + y + "-"@ + m + "-"@ + d + " "@ + h + ":"@ + n + ":"@ + s + "] "@ + message,
    ensures
        t.len() == 22 + message.len(),
        t[0] == '[' && t[5] == '-' && t[8] == '-' && t[11] == ' ',
        t[14] == ':' && t[17] == ':' && t[20] == ']' && t[21] == ' ',
        t.subrange(1, 5) == y,
        t.subrange(6, 8) == m,
        t.subrange(9, 11) == d,
        t.subrange(12, 14) == h,
        t.subrange(15, 17) == n,
        t.subrange(18, 20) == s,
        t.skip(22) == message,
{
    reveal_strlit("[");
    reveal_strlit("-");
    reveal_strlit(" ");
    reveal_strlit(":");
    reveal_strlit("] ");
    let date = "["@ + y + "-"@ + m + "-"@ + d;
    assert(date.len() == 11);
    assert(date[0] == '[' && date[5] == '-' && date[8] == '-');
    assert(date.subrange(1, 5) =~= y);
    assert(date.subrange(6, 8) =~= m);
    assert(date.subrange(9, 11) =~= d);
    let clock = date + " "@ + h + ":"@ + n + ":"@ + s;
    assert(clock.len() == 20);
    assert(clock[11] == ' ' && clock[14] == ':' && clock[17] == ':');
    assert(clock.subrange(12, 14) =~= h);
    assert(clock.subrange(15, 17) =~= n);
    assert(clock.subrange(18, 20) =~= s);
    assert(clock.take(11) =~= date);
    assert(t == clock + "] "@ + message);
    assert(t.take(20) =~= clock);
    assert forall|i: int| 0 <= i < 11 implies t[i] == #[trigger] date[i] by {
        assert(t.take(20)[i] == t[i]);
        assert(clock.take(11)[i] == clock[i]);
    }
    assert forall|i: int| 0 <= i < 20 implies t[i] == #[trigger] clock[i] by {
        assert(t.take(20)[i] == t[i]);
    }
    assert(t[0] == date[0] && t[5] == date[5] && t[8] == date[8]);
    assert(t.subrange(1, 5) =~= date.subrange(1, 5));
    assert(t.subrange(6, 8) =~= date.subrange(6, 8));
    assert(t.subrange(9, 11) =~= date.subrange(9, 11));
    assert(t.subrange(12, 14) =~= clock.subrange(12, 14));
    assert(t.subrange(15, 17) =~= clock.subrange(15, 17));
    assert(t.subrange(18, 20) =~= clock.subrange(18, 20));
    assert(t.skip(22) =~= message);
}

/// What the places of a log line are worth.
proof fn lemma_line_values(
    y: Seq<char>,
    m: Seq<char>,
    d: Seq<char>,
    h: Seq<char>,
    n: Seq<char>,
    s: Seq<char>,
    message: Seq<char>,
    t: Seq<char>,
)
    requires
        y.len() == 4,
        m.len() == 2,
        d.len() == 2,
        h.len() == 2,
        n.len() == 2,
        s.len() == 2,
        t == "["@ + y + "-"@ + m + "-"@ + d + " "@ + h + ":"@ + n + ":"@ + s + "] "@ + message,
    ensures
        t.len() == 22 + message.len(),
        t[0] == '[' && t[5] == '-' && t[8] == '-' && t[11] == ' ',
        t[14] == ':' && t[17] == ':' && t[20] == ']' && t[21] == ' ',
        t[1] == y[0] && t[2] == y[1] && t[3] == y[2] && t[4] == y[3],
        t[6] == m[0] && t[7] == m[1],
        t[9] == d[0] && t[10] == d[1],
        t[12] == h[0] && t[13] == h[1],
        t[15] == n[0] && t[16] == n[1],
        t[18] == s[0] && t[19] == s[1],
        t.skip(22) == message,
{
    lemma_line_layout(y, m, d, h, n, s, message, t);
    assert(t.subrange(1, 5)[0] == t[1] && t.subrange(1, 5)[1] == t[2]);
    assert(t.subrange(1, 5)[2] == t[3] && t.subrange(1, 5)[3] == t[4]);
    assert(t.subrange(6, 8)[0] == t[6] && t.subrange(6, 8)[1] == t[7]);
    assert(t.subrange(9, 11)[0] == t[9] && t.subrange(9, 11)[1] == t[10]);
    assert(t.subrange(12, 14)[0] == t[12] && t.subrange(12, 14)[1] == t[13]);
    assert(t.subrange(15, 17)[0] == t[15] && t.subrange(15, 17)[1] == t[16]);
    assert(t.subrange(18, 20)[0] == t[18] && t.subrange(18, 20)[1] == t[19]);
}

/// The parts of a log line: year, month, day, hour, minute and second, in their places.
proof fn lemma_line_parts(
    unix_secs: u64,
    message: Seq<char>,
    line: Seq<char>,
    y: int,
    m: int,
    d: int,
) -> (p: (Seq<char>, Seq<char>, Seq<char>, Seq<char>, Seq<char>, Seq<char>))
    requires
        is_log_line(unix_secs, message, line),
        is_date(y, m, d),
        day_number(y, m, d) == (unix_secs + 28_800) / 86_400,
        0 <= y <= 9999,
    ensures
        line == "["@ + p.0 + "-"@ + p.1 + "-"@ + p.2 + " "@ + p.3 + ":"@ + p.4 + ":"@ + p.5 + "] "@
            + message,
        p.0.len() == 4,
        p.1.len() == 2,
        p.2.len() == 2,
        p.3.len() == 2,
        p.4.len() == 2,
        p.5.len() == 2,
        1000 * worth(p.0[0]) + 100 * worth(p.0[1]) + 10 * worth(p.0[2]) + worth(p.0[3]) == y,
        10 * worth(p.1[0]) + worth(p.1[1]) == m,
        10 * worth(p.2[0]) + worth(p.2[1]) == d,
        10 * worth(p.3[0]) + worth(p.3[1]) == (unix_secs + 28_800) % 86_400 / 3600,
        10 * worth(p.4[0]) + worth(p.4[1]) == (unix_secs + 28_800) % 86_400 % 3600 / 60,
        10 * worth(p.5[0]) + worth(p.5[1]) == (unix_secs + 28_800) % 86_400 % 60,
{
    let local = unix_secs + 28_800;
    let secs = local % 86_400;
    let (y1, m1, d1) = choose|y1: int, m1: int, d1: int|
        {
            &&& is_date(y1, m1, d1)
            &&& #[trigger] day_number(y1, m1, d1) == local / 86_400
            &&& line == "["@ + padded(y1 as nat, 4) + "-"@ + padded(m1 as nat, 2) + "-"@ + padded(
                d1 as nat,
                2,
            ) + " "@ + padded((secs / 3600) as nat, 2) + ":"@ + padded(
                (secs % 3600 / 60) as nat,
                2,
            ) + ":"@ + padded((secs % 60) as nat, 2) + "] "@ + message
        };
    law_dates_are_unique(y, m, d, y1, m1, d1);
    lemma_four_places(y as nat);
    lemma_two_places(m as nat);
    lemma_two_places(d as nat);
    lemma_two_places((secs / 3600) as nat);
    lemma_two_places((secs % 3600 / 60) as nat);
    lemma_two_places((secs % 60) as nat);
    (
        padded(y as nat, 4),
        padded(m as nat, 2),
        padded(d as nat, 2),
        padded((secs / 3600) as nat, 2),
        padded((secs % 3600 / 60) as nat, 2),
        padded((secs % 60) as nat, 2),
    )
}

/// A log line shows the date and the time eight hours ahead, to the second, in fixed places between
/// brackets, and the message as it is; in the years up to 9999.
pub proof fn law_log_lines(
    unix_secs: u64,
    message: &str,
    line: String,
    day: i64,
    date: (i32, u8, u8),
)
    requires
        call_ensures(log_line, (unix_secs, message), line),
        day == (unix_secs + 28_800) / 86_400,
        call_ensures(civil_from_days, (day,), date),
        0 <= date.0 <= 9999,
    ensures
        ({
            let secs = (unix_secs + 28_800) % 86_400;
            let t = line@;
            &&& t.len() == 22 + message@.len()
            &&& t[0] == '[' && t[5] == '-' && t[8] == '-' && t[11] == ' ' && t[14] == ':' && t[17]
                == ':' && t[20] == ']' && t[21] == ' '
            &&& 1000 * worth(t[1]) + 100 * worth(t[2]) + 10 * worth(t[3]) + worth(t[4]) == date.0
            &&& 10 * worth(t[6]) + worth(t[7]) == date.1
            &&& 10 * worth(t[9]) + worth(t[10]) == date.2
            &&& 10 * worth(t[12]) + worth(t[13]) == secs / 3600
            &&& 10 * worth(t[15]) + worth(t[16]) == secs % 3600 / 60
            &&& 10 * worth(t[18]) + worth(t[19]) == secs % 60
            &&& t.skip(22) == message@
        }),
{
    let p = lemma_line_parts(
        unix_secs,
        message@,
        line@,
        date.0 as int,
        date.1 as int,
        date.2 as int,
    );
    lemma_line_values(p.0, p.1, p.2, p.3, p.4, p.5, message@, line@);
}

} // verus!
