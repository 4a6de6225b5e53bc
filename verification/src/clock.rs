use crate::date::{valid_ymd, ymd_shape};
use crate::text::{char_count, digits_value, prefix};
use chrono::Datelike;
use vstd::prelude::*;

verus! {

/// The month of the local clock, read with chrono's `Local::now()` and
/// `Datelike::month`, which counts from 1 to 12. Which month it is depends on
/// the clock; only the range is stated.
#[verifier::external_body]
pub(crate) fn current_month() -> (m: u32)
    ensures
        1 <= m <= 12,
{
    chrono::Local::now().month()
}

/// The year of the local clock, read with chrono's `Local::now()` and
/// `Datelike::year`. Which year it is depends on the clock; only the range of
/// years that chrono's dates can hold is stated.
#[verifier::external_body]
pub(crate) fn current_year() -> (y: i32)
    ensures
        -262143 <= y <= 262142,
{
    chrono::Local::now().year()
}

/// Whether a text is a day as chrono writes it: "YYYY-MM-DD" in digits,
/// naming an existing day, for a year from 0 to 9999; for any other year the
/// year comes first with its sign.
pub open spec fn written_date(s: Seq<char>) -> bool {
    ||| ymd_shape(s) && valid_ymd(
        digits_value(s.subrange(0, 4)) as int,
        digits_value(s.subrange(5, 7)) as int,
        digits_value(s.subrange(8, 10)) as int,
    )
    ||| s.len() > 0 && (s[0] == '+' || s[0] == '-')
}

/// The local time as chrono's `Local::now()` writes it with `Display`: the
/// day (see `written_date`, chrono's `NaiveDate` always holds an existing
/// day), a space, the time of day, a space and the offset. Which time it is
/// depends on the clock; the contract states that the text starts with a
/// written day and goes on after it.
#[verifier::external_body]
fn local_time_text() -> (r: String)
    ensures
        r@.len() > 10,
        written_date(r@.subrange(0, 10)),
{
    chrono::Local::now().to_string()
}

/// The date part of a time written "YYYY-MM-DD hh:mm:ss": its first ten
/// characters, or all of it where it is shorter.
pub open spec fn date_part_spec(t: Seq<char>) -> Seq<char> {
    if t.len() >= 10 {
        t.subrange(0, 10)
    } else {
        t
    }
}

/// The date part of a time text: its first ten characters (all of it, were
/// it shorter).
pub fn date_part(t: &str) -> (r: String)
    ensures
        r@ == date_part_spec(t@),
{
    if char_count(t) >= 10 {
        prefix(t, 10)
    } else {
        crate::text::owned(t)
    }
}

/// The local date, "YYYY-MM-DD": the date part of the local time, ten
/// characters that write an existing day (see `written_date`). Which date it
/// is depends on the clock.
pub fn local_date_text() -> (r: String)
    ensures
        r@.len() == 10,
        written_date(r@),
{
    let t = local_time_text();
    date_part(t.as_str())
}

} // verus!
