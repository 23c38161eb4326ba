//! Calendar dates and their unpadded decimal rendering.

use crate::text::push_char;
use chrono::{DateTime, Datelike, Utc};
use std::time::SystemTime;
use vstd::prelude::*;

verus! {

/// The code of the character `0`; the other digits follow it in order.
pub const ZERO: u8 = 48;

/// The character that stands for the decimal digit `d`.
pub open spec fn digit_char(d: int) -> char
    recommends
        0 <= d <= 9,
{
    ((ZERO + d) as u8) as char
}

/// The decimal digits of `n`, most significant first, without padding.
pub open spec fn decimal(n: nat) -> Seq<char>
    decreases n,
{
    if n < 10 {
        seq![digit_char(n as int)]
    } else {
        decimal(n / 10).push(digit_char((n % 10) as int))
    }
}

/// The decimal digits of `i`, with a minus sign in front when it is negative.
pub open spec fn signed_decimal(i: int) -> Seq<char> {
    if i < 0 {
        seq!['-'] + decimal((-i) as nat)
    } else {
        decimal(i as nat)
    }
}

/// Year, month and day joined by `-`, none of them padded: `2024-5-3`.
pub open spec fn date_text(year: int, month: nat, day: nat) -> Seq<char> {
    signed_decimal(year) + seq!['-'] + decimal(month) + seq!['-'] + decimal(day)
}

/// Whether `text` is the rendering of some calendar date.
pub open spec fn is_date_text(text: Seq<char>) -> bool {
    exists|year: i32, month: u32, day: u32|
        1 <= month <= 12 && 1 <= day <= 31 && text == #[trigger] date_text(
            year as int,
            month as nat,
            day as nat,
        )
}

fn digit(d: u32) -> (c: char)
    requires
        d <= 9,
    ensures
        c == digit_char(d as int),
{
    let code: u8 = ZERO + (d as u8);
    code as char
}

fn push_decimal(text: &mut String, n: u32)
    ensures
        final(text)@ == old(text)@ + decimal(n as nat),
    decreases n,
{
    if n >= 10 {
        push_decimal(text, n / 10);
    }
    push_char(text, digit(n % 10));
}

/// Renders a date as `year-month-day` in decimal, without zero padding.
pub fn format_date(year: i32, month: u32, day: u32) -> (text: String)
    ensures
        text@ == date_text(year as int, month as nat, day as nat),
{
    let mut text = String::new();
    if year < 0 {
        push_char(&mut text, '-');
        let magnitude: i64 = -(year as i64);
        push_decimal(&mut text, magnitude as u32);
    } else {
        push_decimal(&mut text, year as u32);
    }
    push_char(&mut text, '-');
    push_decimal(&mut text, month);
    push_char(&mut text, '-');
    push_decimal(&mut text, day);
    text
}

/// chrono's conversion of `std::time::SystemTime::now()` into a
/// `DateTime<Utc>`, turned into a date by `DateTime::date_naive` and read by
/// `Datelike::year`, `month` and `day`: the calendar date of the current
/// moment in UTC. The month is between 1 and 12 and the day between 1 and 31;
/// nothing else is promised, as the value follows the clock. A clock that
/// stands before 1970 is converted like any other. The conversion has a date
/// for every moment within some 262,000 years of ours, which is further than
/// a system clock counts.
#[verifier::external_body]
fn today_utc() -> (date: (i32, u32, u32))
    ensures
        1 <= date.1 <= 12,
        1 <= date.2 <= 31,
{
    let today = DateTime::<Utc>::from(SystemTime::now()).date_naive();
    (today.year(), today.month(), today.day())
}

/// Today's date in UTC, rendered by [`format_date`].
pub fn get_date() -> (text: String)
    ensures
        is_date_text(text@),
{
    let (year, month, day) = today_utc();
    format_date(year, month, day)
}

/// Every character of a decimal rendering is a digit, and there is at least
/// one.
pub proof fn lemma_decimal_is_digits(n: nat)
    ensures
        decimal(n).len() >= 1,
        forall|i: int| 0 <= i < decimal(n).len() ==> '0' <= #[trigger] decimal(n)[i] <= '9',
    decreases n,
{
    if n >= 10 {
        lemma_decimal_is_digits(n / 10);
    }
}

/// A decimal rendering is not padded: it starts with `0` only when the number
/// is zero.
pub proof fn lemma_decimal_is_unpadded(n: nat)
    ensures
        decimal(n)[0] == '0' <==> n == 0,
    decreases n,
{
    if n >= 10 {
        lemma_decimal_is_unpadded(n / 10);
        lemma_decimal_is_digits(n / 10);
    }
}

/// A date is written with digits and `-` alone.
pub proof fn lemma_date_text_is_digits_and_dashes(year: int, month: nat, day: nat)
    ensures
        forall|i: int|
            0 <= i < date_text(year, month, day).len() ==> {
                let c = #[trigger] date_text(year, month, day)[i];
                c == '-' || ('0' <= c <= '9')
            },
{
    lemma_decimal_is_digits(if year < 0 {
        (-year) as nat
    } else {
        year as nat
    });
    lemma_decimal_is_digits(month);
    lemma_decimal_is_digits(day);
}

} // verus!
