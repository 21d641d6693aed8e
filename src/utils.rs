use chrono::Datelike;
use vstd::prelude::*;

verus! {

/// `n` copies of `s`, one after another.
pub open spec fn repeat_seq(s: Seq<char>, n: nat) -> Seq<char>
    decreases n,
{
    if n == 0 {
        Seq::empty()
    } else {
        repeat_seq(s, (n - 1) as nat) + s
    }
}

/// `a` followed by enough copies of `filling` to bring it to `length`
/// characters; a text already at least `length` long is left as it is.
pub open spec fn pad_spec(a: Seq<char>, length: nat, filling: Seq<char>) -> Seq<char> {
    if a.len() >= length {
        a
    } else {
        a + repeat_seq(filling, (length - a.len()) as nat)
    }
}

/// Left-aligns `a` in a field of `length` characters by appending `filling`.
pub fn pad(a: &str, length: usize, filling: &str) -> (r: String)
    ensures
        r@ == pad_spec(a@, length as nat, filling@),
{
    let n = a.unicode_len();
    let mut r = String::from_str(a);
    if n >= length {
        return r;
    }
    let count: usize = length - n;
    let mut i: usize = 0;
    while i < count
        invariant
            i <= count,
            r@ == a@ + repeat_seq(filling@, i as nat),
        decreases count - i,
    {
        r.append(filling);
        i = i + 1;
        assert(r@ == a@ + repeat_seq(filling@, i as nat));
    }
    r
}

/// The UTC calendar date (year, month, day) of a Unix time in seconds.
pub uninterp spec fn utc_date_of(secs: int) -> (i32, u32, u32);

/// Relies on chrono's `DateTime::from_timestamp` and its `Datelike` accessors:
/// the UTC calendar date of `secs` seconds after 1970-01-01 00:00:00. Every
/// second count that fits a `u32` lies inside chrono's range of dates, so the
/// call yields a date, with a month in 1..=12, a day in 1..=31, and a year from
/// 1970 (the epoch) to 2106 (`u32::MAX` seconds later).
#[verifier::external_body]
fn utc_calendar_date(secs: u32) -> (r: Option<(i32, u32, u32)>)
    ensures
        r == Some(utc_date_of(secs as int)),
        1970 <= r.unwrap().0 <= 2106,
        1 <= r.unwrap().1 <= 12,
        1 <= r.unwrap().2 <= 31,
{
    match chrono::DateTime::from_timestamp(secs as i64, 0) {
        Some(t) => Some((t.date_naive().year(), t.date_naive().month(), t.date_naive().day())),
        None => None,
    }
}

/// The decimal digit character of `d` (below ten).
pub open spec fn digit_char(d: int) -> char {
    ((d + 48) as u8) as char
}

/// The last `width` decimal digits of `n`, most significant first.
pub open spec fn digits_spec(n: int, width: nat) -> Seq<char>
    decreases width,
{
    if width == 0 {
        Seq::empty()
    } else {
        digits_spec(n / 10, (width - 1) as nat).push(digit_char(n % 10))
    }
}

/// The text `YYYY-MM-DD HH:MM:SS` of a date and a second of the day.
pub open spec fn date_time_text(date: (i32, u32, u32), day_secs: int) -> Seq<char> {
    digits_spec(date.0 as int, 4) + seq!['-'] + digits_spec(date.1 as int, 2) + seq!['-']
        + digits_spec(date.2 as int, 2) + seq![' '] + digits_spec(day_secs / 3600, 2) + seq![':']
        + digits_spec(day_secs % 3600 / 60, 2) + seq![':'] + digits_spec(day_secs % 60, 2)
}

/// The text of `seconds_to_date(epoch)`.
pub open spec fn seconds_to_date_spec(epoch: int) -> Seq<char> {
    date_time_text(utc_date_of(epoch), epoch % 86400)
}

fn digit_text(d: u32) -> (r: &'static str)
    requires
        d < 10,
    ensures
        r@ == seq![digit_char(d as int)],
{
    proof {
        reveal_strlit("0");
        reveal_strlit("1");
        reveal_strlit("2");
        reveal_strlit("3");
        reveal_strlit("4");
        reveal_strlit("5");
        reveal_strlit("6");
        reveal_strlit("7");
        reveal_strlit("8");
        reveal_strlit("9");
    }
    match d {
        0 => "0",
        1 => "1",
        2 => "2",
        3 => "3",
        4 => "4",
        5 => "5",
        6 => "6",
        7 => "7",
        8 => "8",
        _ => "9",
    }
}

/// Appends the last `width` decimal digits of `n` to `out`.
fn push_digits(out: &mut String, n: u32, width: usize)
    ensures
        final(out)@ == old(out)@ + digits_spec(n as int, width as nat),
    decreases width,
{
    if width > 0 {
        push_digits(out, n / 10, width - 1);
        out.append(digit_text(n % 10));
        assert(final(out)@ =~= old(out)@ + digits_spec(n as int, width as nat));
    }
}

/// Writes a calendar date and a second of the day as
/// `YYYY-MM-DD HH:MM:SS`.
pub fn format_date_time(date: (i32, u32, u32), day_secs: u32) -> (r: String)
    requires
        0 <= date.0 <= 9999,
        1 <= date.1 <= 12,
        1 <= date.2 <= 31,
        day_secs < 86400,
    ensures
        r@ == date_time_text(date, day_secs as int),
        r@.len() == 19,
{
    let (year, month, day) = date;
    let mut r = String::new();
    push_digits(&mut r, year as u32, 4);
    r.append("-");
    push_digits(&mut r, month, 2);
    r.append("-");
    push_digits(&mut r, day, 2);
    r.append(" ");
    push_digits(&mut r, day_secs / 3600, 2);
    r.append(":");
    push_digits(&mut r, day_secs % 3600 / 60, 2);
    r.append(":");
    push_digits(&mut r, day_secs % 60, 2);
    proof {
        reveal_strlit("-");
        reveal_strlit(" ");
        reveal_strlit(":");
        lemma_digits_len(year as int, 4);
        lemma_digits_len(month as int, 2);
        lemma_digits_len(day as int, 2);
        lemma_digits_len((day_secs / 3600) as int, 2);
        lemma_digits_len((day_secs % 3600 / 60) as int, 2);
        lemma_digits_len((day_secs % 60) as int, 2);
    }
    assert(r@ =~= date_time_text(date, day_secs as int));
    r
}

/// Writes a Unix time as its UTC date and time, `YYYY-MM-DD HH:MM:SS`.
pub fn seconds_to_date(epoch: u32) -> (r: String)
    ensures
        r@ == seconds_to_date_spec(epoch as int),
        r@.len() == 19,
{
    let date = match utc_calendar_date(epoch) {
        Some(d) => d,
        // never taken: every `u32` second count has a date
        None => (1970, 1, 1),
    };
    format_date_time(date, epoch % 86400)
}

proof fn lemma_digits_len(n: int, width: nat)
    ensures
        digits_spec(n, width).len() == width,
    decreases width,
{
    if width > 0 {
        lemma_digits_len(n / 10, (width - 1) as nat);
    }
}

} // verus!
