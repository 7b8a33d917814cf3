//! Calendar dates of the proleptic Gregorian calendar and RFC 3339 UTC
//! timestamps of Unix milliseconds.

use vstd::prelude::*;
use crate::text::{decimal_u64, owned, spec_decimal};
use vstd::arithmetic::div_mod::{lemma_fundamental_div_mod, lemma_fundamental_div_mod_converse, lemma_mod_multiples_vanish};

verus! {

/// Whether `y` is a leap year.
pub open spec fn is_leap_year(y: int) -> bool {
    (y % 4 == 0 && y % 100 != 0) || y % 400 == 0
}

/// The number of days of month `m` of year `y`.
pub open spec fn days_in_month(y: int, m: int) -> int {
    if m == 2 {
        if is_leap_year(y) { 29 } else { 28 }
    } else if m == 4 || m == 6 || m == 9 || m == 11 {
        30
    } else {
        31
    }
}

/// Whether `y`-`m`-`d` is a date.
pub open spec fn valid_date(y: int, m: int, d: int) -> bool {
    1 <= m <= 12 && 1 <= d <= days_in_month(y, m)
}

/// The days before the start of year `k` of a 400-year era, counting years
/// from March.
pub open spec fn era_year_start(k: int) -> int {
    365 * k + k / 4 - k / 100 + k / 400
}

/// The days before month `k` of a year counted from March.
pub open spec fn month_start(k: int) -> int {
    (153 * k + 2) / 5
}

/// The number of the day `y`-`m`-`d`, counting from 1970-01-01 as day 0:
/// the era of 400 years the date falls in, the year of the era and the day
/// of that year, with years counted from March so that a leap day ends
/// its year.
pub open spec fn days_from_civil(y: int, m: int, d: int) -> int {
    let yp = if m <= 2 { y - 1 } else { y };
    let era = yp / 400;
    let yoe = yp - era * 400;
    let mp = if m > 2 { m - 3 } else { m + 9 };
    let doy = month_start(mp) + d - 1;
    let doe = era_year_start(yoe) + doy;
    era * 146097 + doe - 719468
}

/// The year of the era that day `doe` of the era falls in.
pub open spec fn year_of_era(doe: int) -> int {
    (doe - doe / 1460 + doe / 36524 - doe / 146096) / 365
}

/// The month, counted from March, that day `doy` of the year falls in.
pub open spec fn month_of_day(doy: int) -> int {
    (5 * doy + 2) / 153
}

/// Every day of an era falls in one of its years.
proof fn lemma_year_of_era(doe: u32)
    requires
        doe < 146097,
    ensures
        0 <= year_of_era(doe as int) <= 399,
        era_year_start(year_of_era(doe as int)) <= doe < era_year_start(year_of_era(doe as int) + 1),
{
    assert({
        let yoe = (doe - doe / 1460 + doe / 36524 - doe / 146096) / 365;
        let start = 365 * yoe + yoe / 4 - yoe / 100 + yoe / 400;
        let next = 365 * (yoe + 1) + (yoe + 1) / 4 - (yoe + 1) / 100 + (yoe + 1) / 400;
        yoe <= 399 && start <= doe && doe < next
    }) by (bit_vector)
        requires
            doe < 146097;
}

/// A year of an era has 366 days when the calendar year it ends in is a leap
/// year, 365 otherwise.
proof fn lemma_year_length(yoe: u32)
    requires
        yoe <= 399,
    ensures
        era_year_start(yoe + 1) - era_year_start(yoe as int) == if is_leap_year(yoe + 1) { 366int } else { 365int },
        yoe as int / 400 == 0,
{
    assert({
        let start = 365 * yoe + yoe / 4 - yoe / 100 + yoe / 400;
        let next = 365 * (yoe + 1) + (yoe + 1) / 4 - (yoe + 1) / 100 + (yoe + 1) / 400;
        let leap = ((yoe + 1) % 4 == 0 && (yoe + 1) % 100 != 0) || (yoe + 1) % 400 == 0;
        next - start == if leap { 366u32 } else { 365u32 }
    }) by (bit_vector)
        requires
            yoe <= 399;
}

/// Every day of a year falls in one of its months.
proof fn lemma_month_of_day(doy: u32)
    requires
        doy <= 365,
    ensures
        0 <= month_of_day(doy as int) <= 11,
        month_start(month_of_day(doy as int)) <= doy,
        month_of_day(doy as int) < 11 ==> doy < month_start(month_of_day(doy as int) + 1),
        month_of_day(doy as int) == 11 ==> doy - month_start(11) <= 28,
{
    assert({
        let mp = (5 * doy + 2) / 153;
        mp <= 11 && (153 * mp + 2) / 5 <= doy && (mp < 11 ==> doy < (153 * (mp + 1) + 2) / 5)
            && (mp == 11 ==> doy - (153 * 11 + 2) / 5 <= 28)
    }) by (bit_vector)
        requires
            doy <= 365;
}

/// The date of day `z`, counting from 1970-01-01 as day 0.
pub open spec fn civil_of_days(z: int) -> (int, int, int) {
    let zp = z + 719468;
    let era = zp / 146097;
    let doe = zp % 146097;
    let yoe = year_of_era(doe);
    let doy = doe - (365 * yoe + yoe / 4 - yoe / 100);
    let mp = month_of_day(doy);
    let d = doy - month_start(mp) + 1;
    let m = if mp < 10 { mp + 3 } else { mp - 9 };
    let y = yoe + era * 400 + (if m <= 2 { 1int } else { 0int });
    (y, m, d)
}

/// Shifting a year by whole 400-year eras keeps it a leap year or not.
proof fn lemma_leap_shift(a: int, k: int)
    ensures
        is_leap_year(a + 400 * k) == is_leap_year(a),
{
    assert(4 * (100 * k) == 400 * k) by (nonlinear_arith);
    assert(100 * (4 * k) == 400 * k) by (nonlinear_arith);
    lemma_mod_multiples_vanish(100 * k, a, 4);
    lemma_mod_multiples_vanish(4 * k, a, 100);
    lemma_mod_multiples_vanish(k, a, 400);
    assert(400 * k + a == a + 400 * k);
}

/// The months counted from March have the lengths of the calendar months
/// March to January, then February gets the rest of the year.
proof fn lemma_month_lengths(mp: int, y: int)
    requires
        0 <= mp < 11,
    ensures
        month_start(mp + 1) - month_start(mp) == days_in_month(y, if mp < 10 { mp + 3 } else { mp - 9 }),
        month_start(11) == 337,
{
    if mp == 0 {
        assert(month_start(1) == 31 && month_start(0) == 0);
    } else if mp == 1 {
        assert(month_start(2) == 61 && month_start(1) == 31);
    } else if mp == 2 {
        assert(month_start(3) == 92 && month_start(2) == 61);
    } else if mp == 3 {
        assert(month_start(4) == 122 && month_start(3) == 92);
    } else if mp == 4 {
        assert(month_start(5) == 153 && month_start(4) == 122);
    } else if mp == 5 {
        assert(month_start(6) == 184 && month_start(5) == 153);
    } else if mp == 6 {
        assert(month_start(7) == 214 && month_start(6) == 184);
    } else if mp == 7 {
        assert(month_start(8) == 245 && month_start(7) == 214);
    } else if mp == 8 {
        assert(month_start(9) == 275 && month_start(8) == 245);
    } else if mp == 9 {
        assert(month_start(10) == 306 && month_start(9) == 275);
    } else {
        assert(month_start(11) == 337 && month_start(10) == 306);
    }
}

/// The date of every day is a date, and its day number is that day.
pub proof fn lemma_civil_of_days(z: int)
    ensures
        valid_date(civil_of_days(z).0, civil_of_days(z).1, civil_of_days(z).2),
        days_from_civil(civil_of_days(z).0, civil_of_days(z).1, civil_of_days(z).2) == z,
{
    let zp = z + 719468;
    let era = zp / 146097;
    let doe = zp % 146097;
    lemma_fundamental_div_mod(zp, 146097);
    lemma_year_of_era(doe as u32);
    let yoe = year_of_era(doe);
    lemma_year_length(yoe as u32);
    let doy = doe - (365 * yoe + yoe / 4 - yoe / 100);
    assert(0 <= doy <= 365);
    lemma_month_of_day(doy as u32);
    let mp = month_of_day(doy);
    let d = doy - month_start(mp) + 1;
    let m = if mp < 10 { mp + 3 } else { mp - 9 };
    let y = yoe + era * 400 + (if m <= 2 { 1int } else { 0int });
    assert(civil_of_days(z) == (y, m, d));
    if mp < 11 {
        lemma_month_lengths(mp, y);
    } else {
        lemma_month_lengths(10, y);
        lemma_leap_shift(yoe + 1, era);
        assert(yoe + era * 400 + 1 == (yoe + 1) + 400 * era);
        if d == 29 {
            assert(doy == 365);
            assert(is_leap_year(yoe + 1));
        }
    }
    let yp = yoe + era * 400;
    assert(yp == era * 400 + yoe);
    lemma_fundamental_div_mod_converse(yp, 400, era, yoe);
}

/// A day within a year of an era falls in that year.
proof fn lemma_day_in_year(yoe: u32, doe: u32)
    requires
        yoe <= 399,
        era_year_start(yoe as int) <= doe < era_year_start(yoe + 1),
    ensures
        year_of_era(doe as int) == yoe,
{
    assert({
        let start = 365 * yoe + yoe / 4 - yoe / 100 + yoe / 400;
        let next = 365 * (yoe + 1) + (yoe + 1) / 4 - (yoe + 1) / 100 + (yoe + 1) / 400;
        let k = (doe - doe / 1460 + doe / 36524 - doe / 146096) / 365;
        (start <= doe && doe < next) ==> (k <= yoe && yoe <= k)
    }) by (bit_vector)
        requires
            yoe <= 399;
}

/// A day within a month of a year falls in that month.
proof fn lemma_day_in_month(mp: u32, doy: u32)
    requires
        mp <= 11,
        month_start(mp as int) <= doy,
        mp < 11 ==> doy < month_start(mp + 1),
        doy <= 365,
    ensures
        month_of_day(doy as int) == mp,
{
    assert({
        let start = (153 * mp + 2) / 5;
        let next = (153 * (mp + 1) + 2) / 5;
        let k = (5 * doy + 2) / 153;
        (start <= doy && (mp < 11 ==> doy < next) && doy <= 365) ==> (k <= mp && mp <= k)
    }) by (bit_vector)
        requires
            mp <= 11;
}

/// The day number of a date gives the date back.
pub proof fn lemma_days_from_civil_inverse(y: int, m: int, d: int)
    requires
        valid_date(y, m, d),
    ensures
        civil_of_days(days_from_civil(y, m, d)) == (y, m, d),
{
    let yp = if m <= 2 { y - 1 } else { y };
    let era = yp / 400;
    let yoe = yp - era * 400;
    lemma_fundamental_div_mod(yp, 400);
    assert(0 <= yoe < 400);
    let mp = if m > 2 { m - 3 } else { m + 9 };
    let doy = month_start(mp) + d - 1;
    let doe = era_year_start(yoe) + doy;
    lemma_year_length(yoe as u32);
    if mp < 11 {
        lemma_month_lengths(mp, y);
        lemma_month_lengths(10, y);
        assert(month_start(mp) <= month_start(10)) by {
            vstd::arithmetic::div_mod::lemma_div_is_ordered(153 * mp + 2, 1532int, 5);
        }
        assert(month_start(mp) >= 0);
        assert(doy < 337);
    } else {
        lemma_month_lengths(10, y);
        assert(y == (yoe + 1) + 400 * era);
        lemma_leap_shift(yoe + 1, era);
    }
    assert(0 <= doy < era_year_start(yoe + 1) - era_year_start(yoe));
    assert(era_year_start(yoe + 1) <= 146097) by {
        lemma_year_length(399);
        if yoe < 399 {
            assert(era_year_start(yoe + 1) <= era_year_start(400)) by {
                vstd::arithmetic::div_mod::lemma_div_is_ordered(yoe + 1, 400int, 4);
                vstd::arithmetic::div_mod::lemma_div_is_ordered(yoe + 1, 400int, 100);
                vstd::arithmetic::div_mod::lemma_div_is_ordered(yoe + 1, 400int, 400);
                assert((yoe + 1) / 100 <= 3);
            }
        }
    }
    let zp = era * 146097 + doe;
    lemma_fundamental_div_mod_converse(zp, 146097, era, doe);
    lemma_day_in_year(yoe as u32, doe as u32);
    lemma_day_in_month(mp as u32, doy as u32);
    assert(days_from_civil(y, m, d) + 719468 == zp);
}

/// Distinct dates have distinct day numbers.
pub proof fn law_day_numbers_distinct(y1: int, m1: int, d1: int, y2: int, m2: int, d2: int)
    requires
        valid_date(y1, m1, d1),
        valid_date(y2, m2, d2),
        days_from_civil(y1, m1, d1) == days_from_civil(y2, m2, d2),
    ensures
        y1 == y2 && m1 == m2 && d1 == d2,
{
    lemma_days_from_civil_inverse(y1, m1, d1);
    lemma_days_from_civil_inverse(y2, m2, d2);
}

/// The date whose day number is `z`.
pub open spec fn date_of_day(z: int) -> (int, int, int) {
    choose|t: (int, int, int)| valid_date(t.0, t.1, t.2) && days_from_civil(t.0, t.1, t.2) == z
}

/// The computed date of a day is the date of that day.
pub proof fn lemma_date_of_day(z: int)
    ensures
        date_of_day(z) == civil_of_days(z),
        valid_date(date_of_day(z).0, date_of_day(z).1, date_of_day(z).2),
        days_from_civil(date_of_day(z).0, date_of_day(z).1, date_of_day(z).2) == z,
{
    lemma_civil_of_days(z);
    let c = civil_of_days(z);
    assert(valid_date(c.0, c.1, c.2) && days_from_civil(c.0, c.1, c.2) == z);
    let t = date_of_day(z);
    law_day_numbers_distinct(t.0, t.1, t.2, c.0, c.1, c.2);
}

/// `n` in two digits.
pub open spec fn pad2(n: int) -> Seq<char> {
    if n < 10 { "0"@ + spec_decimal(n as nat) } else { spec_decimal(n as nat) }
}

/// `n` in three digits.
pub open spec fn pad3(n: int) -> Seq<char> {
    if n < 10 {
        "00"@ + spec_decimal(n as nat)
    } else if n < 100 {
        "0"@ + spec_decimal(n as nat)
    } else {
        spec_decimal(n as nat)
    }
}

/// `n` in at least four digits.
pub open spec fn pad4(n: int) -> Seq<char> {
    if n < 10 {
        "000"@ + spec_decimal(n as nat)
    } else if n < 100 {
        "00"@ + spec_decimal(n as nat)
    } else if n < 1000 {
        "0"@ + spec_decimal(n as nat)
    } else {
        spec_decimal(n as nat)
    }
}

/// A year in at least four digits, a year before year 0 with a minus sign.
pub open spec fn year_text(y: int) -> Seq<char> {
    if y >= 0 { pad4(y) } else { "-"@ + pad4(-y) }
}

/// The milliseconds per day.
pub open spec fn ms_per_day() -> int {
    86_400_000
}

/// The RFC 3339 UTC timestamp of Unix time `ms` in milliseconds: the date
/// of its day, the time of day to the second, the milliseconds only when
/// there are any, and `Z`.
pub open spec fn timestamp_text(ms: int) -> Seq<char> {
    let date = date_of_day(ms / ms_per_day());
    let t = ms % ms_per_day();
    let milli = t % 1000;
    year_text(date.0) + "-"@ + pad2(date.1) + "-"@ + pad2(date.2) + "T"@ + pad2(t / 3_600_000) + ":"@
        + pad2((t / 60_000) % 60) + ":"@ + pad2((t / 1000) % 60)
        + (if milli == 0 { Seq::<char>::empty() } else { "."@ + pad3(milli) }) + "Z"@
}

fn padded2(n: u64) -> (res: String)
    requires
        n < 100,
    ensures
        res@ == pad2(n as int),
{
    let digits = decimal_u64(n);
    if n < 10 {
        let mut s = owned("0");
        s.append(digits.as_str());
        s
    } else {
        digits
    }
}

fn padded3(n: u64) -> (res: String)
    requires
        n < 1000,
    ensures
        res@ == pad3(n as int),
{
    let digits = decimal_u64(n);
    if n < 10 {
        let mut s = owned("00");
        s.append(digits.as_str());
        s
    } else if n < 100 {
        let mut s = owned("0");
        s.append(digits.as_str());
        s
    } else {
        digits
    }
}

fn padded4(n: u64) -> (res: String)
    ensures
        res@ == pad4(n as int),
{
    let digits = decimal_u64(n);
    if n < 10 {
        let mut s = owned("000");
        s.append(digits.as_str());
        s
    } else if n < 100 {
        let mut s = owned("00");
        s.append(digits.as_str());
        s
    } else if n < 1000 {
        let mut s = owned("0");
        s.append(digits.as_str());
        s
    } else {
        digits
    }
}

/// The date of day `z`, computed era by era.
fn civil_from_days(z: i128) -> (res: (i128, u64, u64))
    requires
        -200_000_000_000 <= z <= 200_000_000_000,
    ensures
        (res.0 as int, res.1 as int, res.2 as int) == civil_of_days(z as int),
{
    let shift: i128 = 2_000_000 * 146097;
    let zp: i128 = z + 719468 + shift;
    let era_index: i128 = zp / 146097;
    let doe: i128 = zp % 146097;
    let era: i128 = era_index - 2_000_000;
    proof {
        lemma_fundamental_div_mod(zp as int, 146097);
        assert(zp - shift == era * 146097 + doe) by (nonlinear_arith)
            requires
                zp == era_index * 146097 + doe,
                era == era_index - 2_000_000,
                shift == 2_000_000 * 146097;
        lemma_fundamental_div_mod_converse(z + 719468, 146097, era as int, doe as int);
    }
    let doe32: u32 = doe as u32;
    proof {
        lemma_year_of_era(doe32);
    }
    let yoe: u32 = (doe32 - doe32 / 1460 + doe32 / 36524 - doe32 / 146096) / 365;
    proof {
        lemma_year_length(yoe);
    }
    let doy: u32 = doe32 - (365 * yoe + yoe / 4 - yoe / 100);
    proof {
        lemma_month_of_day(doy);
    }
    let mp: u32 = (5 * doy + 2) / 153;
    let d: u32 = doy - (153 * mp + 2) / 5 + 1;
    let m: u32 = if mp < 10 { mp + 3 } else { mp - 9 };
    let y: i128 = yoe as i128 + era * 400 + if m <= 2 { 1 } else { 0 };
    (y, m as u64, d as u64)
}

/// The RFC 3339 UTC timestamp of Unix time `ms` in milliseconds, such as
/// `2023-11-14T22:13:20.123Z`.
pub fn rfc3339_from_ms(ms: i64) -> (res: String)
    ensures
        res@ == timestamp_text(ms as int),
{
    let offset_days: i128 = 106_751_991_168;
    let shifted: i128 = ms as i128 + offset_days * 86_400_000;
    let day_index: i128 = shifted / 86_400_000;
    let t: i128 = shifted % 86_400_000;
    let z: i128 = day_index - offset_days;
    proof {
        lemma_fundamental_div_mod(shifted as int, 86_400_000);
        assert(ms == z * 86_400_000 + t) by (nonlinear_arith)
            requires
                shifted == day_index * 86_400_000 + t,
                shifted == ms + offset_days * 86_400_000,
                z == day_index - offset_days;
        lemma_fundamental_div_mod_converse(ms as int, 86_400_000, z as int, t as int);
        lemma_date_of_day(z as int);
    }
    let (y, m, d) = civil_from_days(z);
    let t64: u64 = t as u64;
    let milli: u64 = t64 % 1000;
    let mut text = if y >= 0 {
        padded4(y as u64)
    } else {
        let mut neg = owned("-");
        let digits = padded4((-y) as u64);
        neg.append(digits.as_str());
        neg
    };
    text.append("-");
    text.append(padded2(m).as_str());
    text.append("-");
    text.append(padded2(d).as_str());
    text.append("T");
    text.append(padded2(t64 / 3_600_000).as_str());
    text.append(":");
    text.append(padded2((t64 / 60_000) % 60).as_str());
    text.append(":");
    text.append(padded2((t64 / 1000) % 60).as_str());
    if milli != 0 {
        text.append(".");
        text.append(padded3(milli).as_str());
    }
    text.append("Z");
    proof {
        assert(date_of_day(ms as int / ms_per_day()) == (y as int, m as int, d as int));
    }
    text
}

} // verus!
