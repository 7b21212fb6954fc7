//! The local date and time, and the way command logs write it:
//! `YYYY-MM-DD [hh:mm:ss]`.

use chrono::{Datelike, Timelike};
use vstd::prelude::*;

use crate::text::{decimal, decimal_text, digit_char, digit_to_char, push_char};

verus! {

/// A local date and time, as chrono reads it from the clock.
pub struct LocalTime {
    pub year: i32,
    pub month: u32,
    pub day: u32,
    pub hour: u32,
    pub minute: u32,
    pub second: u32,
    /// Nanoseconds past the second; from one second up it marks a leap second.
    pub nanosecond: u32,
}

/// The lowest year chrono can hold.
pub const MIN_YEAR: i32 = -262143;

/// The highest year chrono can hold.
pub const MAX_YEAR: i32 = 262142;

impl LocalTime {
    /// Every field lies in the range chrono gives it.
    pub open spec fn valid(self) -> bool {
        &&& MIN_YEAR <= self.year <= MAX_YEAR
        &&& 1 <= self.month <= 12
        &&& 1 <= self.day <= 31
        &&& self.hour < 24
        &&& self.minute < 60
        &&& self.second < 60
        &&& self.nanosecond < 2_000_000_000
    }
}

/// `n` written with two digits, a leading zero below ten.
pub open spec fn two_digits(n: nat) -> Seq<char> {
    seq![digit_char(n / 10), digit_char(n % 10)]
}

/// `n` in decimal, with leading zeros up to four digits.
pub open spec fn four_digits(n: nat) -> Seq<char> {
    let d = decimal(n);
    if d.len() < 4 {
        Seq::new((4 - d.len()) as nat, |i: int| '0') + d
    } else {
        d
    }
}

/// A year as `%Y` writes it: four digits from year 0 to 9999, and otherwise
/// its sign followed by at least four digits.
pub open spec fn year_text(year: int) -> Seq<char> {
    if 0 <= year <= 9999 {
        four_digits(year as nat)
    } else if year < 0 {
        seq!['-'] + four_digits((-year) as nat)
    } else {
        seq!['+'] + four_digits(year as nat)
    }
}

/// The second shown for a time: 60 during a leap second.
pub open spec fn shown_second(t: LocalTime) -> nat {
    (t.second + t.nanosecond / 1_000_000_000) as nat
}

/// A time as `%Y-%m-%d [%H:%M:%S]` writes it.
pub open spec fn time_text_spec(t: LocalTime) -> Seq<char> {
    year_text(t.year as int) + seq!['-'] + two_digits(t.month as nat) + seq!['-'] + two_digits(
        t.day as nat,
    ) + seq![' ', '['] + two_digits(t.hour as nat) + seq![':'] + two_digits(t.minute as nat) + seq![
        ':',
    ] + two_digits(shown_second(t)) + seq![']']
}

/// Appends `n` with two digits.
fn push_two_digits(s: &mut String, n: u32)
    requires
        n < 100,
    ensures
        final(s)@ == old(s)@ + two_digits(n as nat),
{
    push_char(s, digit_to_char((n / 10) as u64));
    push_char(s, digit_to_char((n % 10) as u64));
}

/// Appends `n` with leading zeros up to four digits.
fn push_four_digits(s: &mut String, n: u64)
    ensures
        final(s)@ == old(s)@ + four_digits(n as nat),
{
    let digits = decimal_text(n);
    let len: usize = digits.as_str().unicode_len();
    let ghost start = s@;
    let mut k: usize = len;
    while k < 4
        invariant
            len <= k <= 4 || (len > 4 && k == len),
            len == decimal(n as nat).len(),
            s@ == start + Seq::new((k - len) as nat, |i: int| '0'),
        decreases 4 - k,
    {
        push_char(s, '0');
        assert(Seq::new((k + 1 - len) as nat, |i: int| '0') =~= Seq::new(
            (k - len) as nat,
            |i: int| '0',
        ).push('0'));
        k += 1;
    }
    if len >= 4 {
        assert(Seq::new(0, |i: int| '0') =~= Seq::<char>::empty());
        assert(s@ =~= start);
    }
    s.append(digits.as_str());
    assert(s@ =~= start + four_digits(n as nat));
}

/// Writes a time as command logs show it: `YYYY-MM-DD [hh:mm:ss]`, as chrono
/// formats `%Y-%m-%d [%H:%M:%S]`.
pub fn time_text(t: &LocalTime) -> (s: String)
    requires
        t.valid(),
    ensures
        s@ == time_text_spec(*t),
{
    let mut s = String::new();
    if 0 <= t.year && t.year <= 9999 {
        push_four_digits(&mut s, t.year as u64);
    } else if t.year < 0 {
        push_char(&mut s, '-');
        push_four_digits(&mut s, (-(t.year as i64)) as u64);
    } else {
        push_char(&mut s, '+');
        push_four_digits(&mut s, t.year as u64);
    }
    assert(s@ =~= year_text(t.year as int));
    push_char(&mut s, '-');
    push_two_digits(&mut s, t.month);
    push_char(&mut s, '-');
    push_two_digits(&mut s, t.day);
    push_char(&mut s, ' ');
    push_char(&mut s, '[');
    push_two_digits(&mut s, t.hour);
    push_char(&mut s, ':');
    push_two_digits(&mut s, t.minute);
    push_char(&mut s, ':');
    push_two_digits(&mut s, t.second + t.nanosecond / 1_000_000_000);
    push_char(&mut s, ']');
    assert(s@ =~= time_text_spec(*t));
    s
}

/// A year from 0 to 9999 is written as its four decimal digits, thousands first.
pub proof fn lemma_four_digits(y: nat)
    requires
        y <= 9999,
    ensures
        four_digits(y) == seq![
            digit_char(y / 1000),
            digit_char(y / 100 % 10),
            digit_char(y / 10 % 10),
            digit_char(y % 10),
        ],
{
    let d = decimal(y);
    if y < 10 {
        assert(d =~= seq![digit_char(y)]);
    } else if y < 100 {
        assert(decimal(y / 10) =~= seq![digit_char(y / 10)]);
        assert(d =~= seq![digit_char(y / 10), digit_char(y % 10)]);
    } else if y < 1000 {
        assert(decimal(y / 100) =~= seq![digit_char(y / 100)]);
        assert(y / 10 / 10 == y / 100);
        assert(decimal(y / 10) =~= seq![digit_char(y / 100), digit_char(y / 10 % 10)]);
        assert(d =~= seq![digit_char(y / 100), digit_char(y / 10 % 10), digit_char(y % 10)]);
    } else {
        assert(decimal(y / 1000) =~= seq![digit_char(y / 1000)]);
        assert(y / 100 / 10 == y / 1000);
        assert(y / 10 / 10 == y / 100);
        assert(decimal(y / 100) =~= seq![digit_char(y / 1000), digit_char(y / 100 % 10)]);
        assert(decimal(y / 10) =~= seq![
            digit_char(y / 1000),
            digit_char(y / 100 % 10),
            digit_char(y / 10 % 10),
        ]);
        assert(d =~= seq![
            digit_char(y / 1000),
            digit_char(y / 100 % 10),
            digit_char(y / 10 % 10),
            digit_char(y % 10),
        ]);
    }
    assert(four_digits(y) =~= seq![
        digit_char(y / 1000),
        digit_char(y / 100 % 10),
        digit_char(y / 10 % 10),
        digit_char(y % 10),
    ]);
}

/// The stamp of a time in the years 0 to 9999 is 21 characters,
/// `YYYY-MM-DD [hh:mm:ss]`: each field in its place as decimal digits, with a
/// leap second shown as second 60.
pub proof fn law_stamp_layout(t: LocalTime)
    requires
        t.valid(),
        0 <= t.year <= 9999,
    ensures
        ({
            let s = time_text_spec(t);
            let y = t.year as nat;
            let sec = t.second + t.nanosecond / 1_000_000_000;
            &&& s.len() == 21
            &&& s[0] == digit_char(y / 1000)
            &&& s[1] == digit_char(y / 100 % 10)
            &&& s[2] == digit_char(y / 10 % 10)
            &&& s[3] == digit_char(y % 10)
            &&& s[4] == '-'
            &&& s[5] == digit_char(t.month as nat / 10)
            &&& s[6] == digit_char(t.month as nat % 10)
            &&& s[7] == '-'
            &&& s[8] == digit_char(t.day as nat / 10)
            &&& s[9] == digit_char(t.day as nat % 10)
            &&& s[10] == ' '
            &&& s[11] == '['
            &&& s[12] == digit_char(t.hour as nat / 10)
            &&& s[13] == digit_char(t.hour as nat % 10)
            &&& s[14] == ':'
            &&& s[15] == digit_char(t.minute as nat / 10)
            &&& s[16] == digit_char(t.minute as nat % 10)
            &&& s[17] == ':'
            &&& s[18] == digit_char(sec as nat / 10)
            &&& s[19] == digit_char(sec as nat % 10)
            &&& s[20] == ']'
        }),
{
    lemma_four_digits(t.year as nat);
    let s = time_text_spec(t);
    assert(s =~= seq![
        digit_char(t.year as nat / 1000),
        digit_char(t.year as nat / 100 % 10),
        digit_char(t.year as nat / 10 % 10),
        digit_char(t.year as nat % 10),
        '-',
        digit_char(t.month as nat / 10),
        digit_char(t.month as nat % 10),
        '-',
        digit_char(t.day as nat / 10),
        digit_char(t.day as nat % 10),
        ' ',
        '[',
        digit_char(t.hour as nat / 10),
        digit_char(t.hour as nat % 10),
        ':',
        digit_char(t.minute as nat / 10),
        digit_char(t.minute as nat % 10),
        ':',
        digit_char(shown_second(t) / 10),
        digit_char(shown_second(t) % 10),
        ']',
    ]);
}

/// A time read from the clock. Only this module makes one, and only from what
/// `local_now` read, so holding one shows where its time came from.
pub struct ClockReading {
    time: LocalTime,
}

impl View for ClockReading {
    type V = LocalTime;

    closed spec fn view(&self) -> LocalTime {
        self.time
    }
}

impl ClockReading {
    /// The time that was read.
    pub fn time(&self) -> (t: &LocalTime)
        ensures
            *t == self@,
    {
        &self.time
    }
}

/// chrono's `Local::now()`, read through its `year`, `month`, `day`, `hour`,
/// `minute`, `second` and `nanosecond` accessors. chrono documents each field's
/// range (years between its lowest and highest year, nanoseconds below two
/// seconds' worth for a leap second); which time it is depends on the clock
/// and the machine's time zone and is left open.
#[verifier::external_body]
pub(crate) fn local_now() -> (r: ClockReading)
    ensures
        r@.valid(),
{
    let now = chrono::Local::now();
    let time = LocalTime {
        year: now.year(),
        month: now.month(),
        day: now.day(),
        hour: now.hour(),
        minute: now.minute(),
        second: now.second(),
        nanosecond: now.nanosecond(),
    };
    ClockReading { time }
}

} // verus!
