use vstd::prelude::*;

verus! {

/// An instant in UTC, as calendar fields.
#[derive(Clone, Copy, Debug, PartialEq, Eq, Structural)]
pub struct Timestamp {
    pub year: i32,
    pub month: u8,
    pub day: u8,
    pub hour: u8,
    pub minute: u8,
    pub second: u8,
    pub nanosecond: u32,
}

/// Leap year of the proleptic Gregorian calendar.
pub open spec fn is_leap_year(year: int) -> bool {
    (year % 4 == 0 && year % 100 != 0) || year % 400 == 0
}

/// Number of days in `month` (1 to 12) of `year`.
pub open spec fn days_in_month(year: int, month: nat) -> nat {
    if month == 2 {
        if is_leap_year(year) {
            29
        } else {
            28
        }
    } else if month == 4 || month == 6 || month == 9 || month == 11 {
        30
    } else {
        31
    }
}

/// Decimal digit `n` (for `n < 10`).
pub open spec fn dec_digit(n: nat) -> char {
    seq!['0', '1', '2', '3', '4', '5', '6', '7', '8', '9'][n as int]
}

/// The `n` lowest decimal digits of `v`, zero-padded, most significant first.
pub open spec fn dec_fixed(v: nat, n: nat) -> Seq<char>
    decreases n,
{
    if n == 0 {
        Seq::empty()
    } else {
        dec_fixed(v / 10, (n - 1) as nat).push(dec_digit(v % 10))
    }
}

/// The decimal digits of `v`, most significant first, without padding.
pub open spec fn dec_digits(v: nat) -> Seq<char>
    decreases v,
{
    if v < 10 {
        seq![dec_digit(v)]
    } else {
        dec_digits(v / 10).push(dec_digit(v % 10))
    }
}

/// A year as RFC 3339 writes it: four digits in 0 to 9999, else a sign and
/// at least four digits.
pub open spec fn year_text(year: int) -> Seq<char> {
    if 0 <= year <= 9999 {
        dec_fixed(year as nat, 4)
    } else if year > 9999 {
        seq!['+'] + dec_digits(year as nat)
    } else if -year <= 9999 {
        seq!['-'] + dec_fixed((-year) as nat, 4)
    } else {
        seq!['-'] + dec_digits((-year) as nat)
    }
}

/// The seconds written for `t`: a leap second (sub-second part of one
/// second or more, held on second 59) is written as second 60.
pub open spec fn written_second(t: Timestamp) -> nat {
    if t.nanosecond >= 1_000_000_000 {
        t.second as nat + 1
    } else {
        t.second as nat
    }
}

/// The whole milliseconds written for `t`, within its (possibly leap) second.
pub open spec fn written_millis(t: Timestamp) -> nat {
    ((t.nanosecond % 1_000_000_000) / 1_000_000) as nat
}

/// RFC 3339 text with exactly three fractional digits (the sub-millisecond
/// part dropped) and the `Z` designator: `YYYY-MM-DDTHH:MM:SS.mmmZ`.
pub open spec fn rfc3339_millis(t: Timestamp) -> Seq<char> {
    year_text(t.year as int) + seq!['-'] + dec_fixed(t.month as nat, 2) + seq!['-']
        + dec_fixed(t.day as nat, 2) + seq!['T'] + dec_fixed(t.hour as nat, 2) + seq![':']
        + dec_fixed(t.minute as nat, 2) + seq![':'] + dec_fixed(written_second(t), 2) + seq!['.']
        + dec_fixed(written_millis(t), 3) + seq!['Z']
}

impl Timestamp {
    /// A real calendar instant in the years -262143 to 262142. The
    /// sub-second part is below one second, or below two on second 59, where
    /// the part past one second is a leap second.
    pub open spec fn wf(&self) -> bool {
        &&& -262143 <= self.year <= 262142
        &&& 1 <= self.month <= 12
        &&& 1 <= self.day <= days_in_month(self.year as int, self.month as nat)
        &&& self.hour < 24
        &&& self.minute < 60
        &&& self.second < 60
        &&& self.nanosecond < 2_000_000_000
        &&& (self.nanosecond >= 1_000_000_000 ==> self.second == 59)
    }

    /// The timestamp with these fields, if they make a valid one.
    pub fn new(
        year: i32,
        month: u8,
        day: u8,
        hour: u8,
        minute: u8,
        second: u8,
        nanosecond: u32,
    ) -> (r: Option<Timestamp>)
        ensures
            r is Some <==> (Timestamp { year, month, day, hour, minute, second, nanosecond }).wf(),
            r is Some ==> r->Some_0 == (Timestamp { year, month, day, hour, minute, second, nanosecond }),
    {
        let t = Timestamp { year, month, day, hour, minute, second, nanosecond };
        if year < -262143 || year > 262142 || month < 1 || month > 12 || day < 1 || hour >= 24 || minute >= 60
            || second >= 60 || nanosecond >= 2_000_000_000 || (nanosecond >= 1_000_000_000
            && second != 59) {
            return None;
        }
        let a: u32 = if year < 0 {
            (-year) as u32
        } else {
            year as u32
        };
        let leap = (a % 4 == 0 && a % 100 != 0) || a % 400 == 0;
        assert(leap == is_leap_year(year as int));
        let days: u8 = if month == 2 {
            if leap {
                29
            } else {
                28
            }
        } else if month == 4 || month == 6 || month == 9 || month == 11 {
            30
        } else {
            31
        };
        if day > days {
            None
        } else {
            Some(t)
        }
    }

    /// RFC 3339 text of the instant in milliseconds, ending in `Z`.
    pub fn to_rfc3339_millis(&self) -> (r: String)
        requires
            self.wf(),
        ensures
            r@ == rfc3339_millis(*self),
    {
        rfc3339_millis_text(self)
    }
}

/// Relies on chrono's `NaiveDate::from_ymd_opt`, `and_hms_nano_opt` (both
/// `Some` for a valid instant in years -262143 to 262142, leap second
/// included) and `DateTime::to_rfc3339_opts(SecondsFormat::Millis, true)`:
/// the year in four digits in 0 to 9999 and else as `{:+05}`, two-digit fields with a leap second written as 60, three digits of
/// the whole milliseconds within the second, and `Z` for the zero offset of
/// UTC.
#[verifier::external_body]
fn rfc3339_millis_text(t: &Timestamp) -> (r: String)
    requires
        t.wf(),
    ensures
        r@ == rfc3339_millis(*t),
{
    chrono::NaiveDate::from_ymd_opt(t.year as i32, t.month as u32, t.day as u32)
        .unwrap()
        .and_hms_nano_opt(t.hour as u32, t.minute as u32, t.second as u32, t.nanosecond)
        .unwrap()
        .and_utc()
        .to_rfc3339_opts(chrono::SecondsFormat::Millis, true)
}

/// The text always has millisecond precision: it ends in a dot, exactly
/// three fractional digits taken from the whole milliseconds within the
/// second, and `Z`.
pub proof fn lemma_millisecond_precision(t: Timestamp)
    ensures
        ({
            let s = rfc3339_millis(t);
            &&& s.len() >= 24
            &&& s[s.len() - 5] == '.'
            &&& s.subrange(s.len() - 4, s.len() - 1) == dec_fixed(written_millis(t), 3)
            &&& s[s.len() - 1] == 'Z'
        }),
{
    lemma_year_text_len(t.year as int);
    lemma_dec_fixed_len(t.month as nat, 2);
    lemma_dec_fixed_len(t.day as nat, 2);
    lemma_dec_fixed_len(t.hour as nat, 2);
    lemma_dec_fixed_len(t.minute as nat, 2);
    lemma_dec_fixed_len(written_second(t), 2);
    lemma_dec_fixed_len(written_millis(t), 3);
    let ms = dec_fixed(written_millis(t), 3);
    let head = year_text(t.year as int) + seq!['-'] + dec_fixed(t.month as nat, 2) + seq!['-']
        + dec_fixed(t.day as nat, 2) + seq!['T'] + dec_fixed(t.hour as nat, 2) + seq![':']
        + dec_fixed(t.minute as nat, 2) + seq![':'] + dec_fixed(written_second(t), 2) + seq!['.'];
    assert(head.len() >= 20);
    let s = rfc3339_millis(t);
    assert(s == head + ms + seq!['Z']);
    assert(s.subrange(s.len() - 4, s.len() - 1) =~= ms);
}

/// Two instants that agree down to the millisecond have the same text,
/// whatever their sub-millisecond parts.
pub proof fn lemma_sub_millisecond_dropped(a: Timestamp, b: Timestamp)
    requires
        a.year == b.year,
        a.month == b.month,
        a.day == b.day,
        a.hour == b.hour,
        a.minute == b.minute,
        a.second == b.second,
        a.nanosecond / 1_000_000 == b.nanosecond / 1_000_000,
        a.wf(),
        b.wf(),
    ensures
        rfc3339_millis(a) == rfc3339_millis(b),
{
    lemma_whole_millis(a.nanosecond);
    lemma_whole_millis(b.nanosecond);
}

proof fn lemma_whole_millis(n: u32)
    requires
        n < 2_000_000_000,
    ensures
        n >= 1_000_000_000 <==> n / 1_000_000 >= 1000,
        (n % 1_000_000_000) / 1_000_000 == (n / 1_000_000) % 1000,
{
    if n >= 1_000_000_000 {
        assert(n % 1_000_000_000 == n - 1_000_000_000);
    } else {
        assert(n % 1_000_000_000 == n);
    }
}

proof fn lemma_dec_digits_len(v: nat)
    ensures
        dec_digits(v).len() >= 1,
    decreases v,
{
    if v >= 10 {
        lemma_dec_digits_len(v / 10);
    }
}

proof fn lemma_year_text_len(year: int)
    ensures
        year_text(year).len() >= 4,
{
    lemma_dec_fixed_len(if year >= 0 { year as nat } else { (-year) as nat }, 4);
    if year > 9999 {
        lemma_dec_digits_len(year as nat);
        lemma_dec_digits_len(year as nat / 10);
        lemma_dec_digits_len(year as nat / 100);
        lemma_dec_digits_len(year as nat / 1000);
        assert(dec_digits(year as nat).len() >= 4);
    } else if year < -9999 {
        lemma_dec_digits_len((-year) as nat);
        lemma_dec_digits_len((-year) as nat / 10);
        lemma_dec_digits_len((-year) as nat / 100);
        lemma_dec_digits_len((-year) as nat / 1000);
        assert(dec_digits((-year) as nat).len() >= 4);
    }
}

proof fn lemma_dec_fixed_len(v: nat, n: nat)
    ensures
        dec_fixed(v, n).len() == n,
    decreases n,
{
    if n > 0 {
        lemma_dec_fixed_len(v / 10, (n - 1) as nat);
    }
}

} // verus!
