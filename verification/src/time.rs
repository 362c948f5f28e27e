use vstd::prelude::*;

verus! {

/// A decimal digit.
pub open spec fn is_digit(c: char) -> bool {
    '0' <= c <= '9'
}

/// Text of the shape `YYYY-MM-DD HH:MM`: sixteen characters, digits but for
/// the two dashes, the space and the colon.
pub open spec fn date_minute_text(s: Seq<char>) -> bool {
    &&& s.len() == 16
    &&& forall|i: int|
        0 <= i < 16 ==> if i == 4 || i == 7 {
            #[trigger] s[i] == '-'
        } else if i == 10 {
            s[i] == ' '
        } else if i == 13 {
            s[i] == ':'
        } else {
            is_digit(s[i])
        }
}

/// A point in time with a valid nanosecond count, from 1000-01-02 00:00 to
/// 9999-12-30 23:59:59 UTC: a time zone, which differs from UTC by less than
/// a day, puts it in a year from 1000 to 9999.
pub open spec fn four_digit_year_time(secs: i64, nanos: u32) -> bool {
    &&& nanos < 1_000_000_000
    &&& -30_610_137_600 <= secs <= 253_402_214_399
}

/// The last decimal digit of `n`.
pub open spec fn digit(n: int) -> char {
    seq!['0', '1', '2', '3', '4', '5', '6', '7', '8', '9'][n % 10]
}

/// The last two decimal digits of `n`.
pub open spec fn two_digits(n: int) -> Seq<char> {
    seq![digit(n / 10), digit(n)]
}

/// The last four decimal digits of `n`.
pub open spec fn four_digits(n: int) -> Seq<char> {
    seq![digit(n / 1000), digit(n / 100), digit(n / 10), digit(n)]
}

/// The date, as (year, month, day) of the proleptic Gregorian calendar, that
/// lies `days` days after 1970-01-01.
pub open spec fn civil_from_days(days: int) -> (int, int, int) {
    let z = days + 719468;
    let era = z / 146097;
    let doe = z - era * 146097;
    let yoe = (doe - doe / 1460 + doe / 36524 - doe / 146096) / 365;
    let doy = doe - (365 * yoe + yoe / 4 - yoe / 100);
    let mp = (5 * doy + 2) / 153;
    let day = doy - (153 * mp + 2) / 5 + 1;
    let month = if mp < 10 {
        mp + 3
    } else {
        mp - 9
    };
    let year = yoe + era * 400 + if month <= 2 {
        1int
    } else {
        0int
    };
    (year, month, day)
}

/// The instant `t`, in seconds since 1970-01-01 00:00 on a clock, written as
/// `%Y-%m-%d %H:%M`.
pub open spec fn minute_text(t: int) -> Seq<char> {
    let days = t / 86400;
    let secs = t % 86400;
    let (year, month, day) = civil_from_days(days);
    four_digits(year) + seq!['-'] + two_digits(month) + seq!['-'] + two_digits(day) + seq![' ']
        + two_digits(secs / 3600) + seq![':'] + two_digits(secs % 3600 / 60)
}

/// `s` is the text of the instant `secs` seconds after the epoch as a clock
/// shows it under some time zone: at a local time `local` that differs from
/// it by less than a day.
pub open spec fn local_minute_text(secs: int, s: Seq<char>) -> bool {
    exists|local: int| -86400 < local - secs < 86400 && s == #[trigger] minute_text(local)
}

proof fn lemma_digit(n: int)
    ensures
        is_digit(digit(n)),
{
    let k = n % 10;
    let ds = seq!['0', '1', '2', '3', '4', '5', '6', '7', '8', '9'];
    assert(0 <= k < 10);
    assert(digit(n) == ds[k]);
    if k == 0 {
    } else if k == 1 {
    } else if k == 2 {
    } else if k == 3 {
    } else if k == 4 {
    } else if k == 5 {
    } else if k == 6 {
    } else if k == 7 {
    } else if k == 8 {
    } else {
        assert(k == 9);
    }
}

/// Every such text has the shape `YYYY-MM-DD HH:MM`.
pub proof fn lemma_minute_text_shape(t: int)
    ensures
        date_minute_text(minute_text(t)),
{
    let s = minute_text(t);
    let days = t / 86400;
    let secs = t % 86400;
    let (year, month, day) = civil_from_days(days);
    lemma_digit(year / 1000);
    lemma_digit(year / 100);
    lemma_digit(year / 10);
    lemma_digit(year);
    lemma_digit(month / 10);
    lemma_digit(month);
    lemma_digit(day / 10);
    lemma_digit(day);
    lemma_digit(secs / 3600 / 10);
    lemma_digit(secs / 3600);
    lemma_digit(secs % 3600 / 60 / 10);
    lemma_digit(secs % 3600 / 60);
    assert(s =~= seq![
        digit(year / 1000),
        digit(year / 100),
        digit(year / 10),
        digit(year),
        '-',
        digit(month / 10),
        digit(month),
        '-',
        digit(day / 10),
        digit(day),
        ' ',
        digit(secs / 3600 / 10),
        digit(secs / 3600),
        ':',
        digit(secs % 3600 / 60 / 10),
        digit(secs % 3600 / 60),
    ]);
}

} // verus!
