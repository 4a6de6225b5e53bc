use crate::outputs::{AType, NAType, SteppingError, StepType, VerifyingOutput};
use crate::text::{
    all_digits, char_count, concat, decimal, digits_value, join, join_spec, owned, parse_u32,
    parse_u32_spec, prefix, remove_all, remove_char, split_char, split_spec, string_views,
    lemma_split_nonempty, lemma_split_plain, lemma_split_append, lemma_split_join,
    usize_to_text, trim, trim_spec,
};
use crate::ui_state::DateType;
use vstd::prelude::*;

verus! {

// ---------------------------------------------------------------------------
// The calendar
// ---------------------------------------------------------------------------

/// Gregorian leap years.
pub open spec fn is_leap(y: int) -> bool {
    (y % 4 == 0 && y % 100 != 0) || y % 400 == 0
}

/// The number of days of month `m` (1 to 12) in year `y`.
pub open spec fn days_in_month(y: int, m: int) -> int {
    if m == 2 {
        if is_leap(y) {
            29
        } else {
            28
        }
    } else if m == 4 || m == 6 || m == 9 || m == 11 {
        30
    } else {
        31
    }
}

/// Whether year, month and day name an existing day of the calendar.
pub open spec fn valid_ymd(y: int, m: int, d: int) -> bool {
    1 <= m <= 12 && 1 <= d <= days_in_month(y, m)
}

/// Whether `s` has the form "YYYY-MM-DD" with ASCII digits.
pub open spec fn ymd_shape(s: Seq<char>) -> bool {
    &&& s.len() == 10
    &&& s[4] == '-'
    &&& s[7] == '-'
    &&& all_digits(s.subrange(0, 4))
    &&& all_digits(s.subrange(5, 7))
    &&& all_digits(s.subrange(8, 10))
}

/// Whether `s` has the form "DD-MM-YYYY" with ASCII digits, as the tables
/// show dates.
pub open spec fn dmy_shape(s: Seq<char>) -> bool {
    &&& s.len() == 10
    &&& s[2] == '-'
    &&& s[5] == '-'
    &&& all_digits(s.subrange(0, 2))
    &&& all_digits(s.subrange(3, 5))
    &&& all_digits(s.subrange(6, 10))
}

/// The error that chrono's `NaiveDate::parse_from_str(s, "%Y-%m-%d")` gives
/// for `s`, as its `Display` text, or `None` when it parses.
pub uninterp spec fn chrono_ymd_error(s: Seq<char>) -> Option<Seq<char>>;

/// A month or day part as the date checks let it through: two ASCII digits,
/// or '+' and one digit.
pub open spec fn two_place(p: Seq<char>) -> bool {
    p.len() == 2 && (all_digits(p) || (p[0] == '+' && all_digits(p.subrange(1, 2))))
}

/// Whether `s` has the form "YYYY-MM-DD" with a year of four ASCII digits and
/// a month and a day that are each two digits or '+' and one digit.
pub open spec fn ymd_like(s: Seq<char>) -> bool {
    &&& s.len() == 10
    &&& s[4] == '-'
    &&& s[7] == '-'
    &&& all_digits(s.subrange(0, 4))
    &&& two_place(s.subrange(5, 7))
    &&& two_place(s.subrange(8, 10))
}

/// Whether a text is an existing day of the years 2022 to 2025 written
/// "YYYY-MM-DD" in ASCII digits.
pub open spec fn accepted_day(t: Seq<char>) -> bool {
    &&& ymd_shape(t)
    &&& valid_ymd(
        digits_value(t.subrange(0, 4)) as int,
        digits_value(t.subrange(5, 7)) as int,
        digits_value(t.subrange(8, 10)) as int,
    )
    &&& 2022 <= digits_value(t.subrange(0, 4)) <= 2025
}

/// Parses the text with chrono's `NaiveDate::parse_from_str` and the format
/// "%Y-%m-%d", and returns the error's text if it fails. The result is named
/// by `chrono_ymd_error`. For a text of the form of `ymd_like` the contract
/// adds what chrono's parser (format/parse.rs, format/scan.rs) shows: the four
/// year digits are read, a month or day that starts with '+' is refused (an
/// unsigned number must start with a digit), and a text of digits parses
/// exactly when the day exists. The error text itself is left unsaid.
#[verifier::external_body]
fn chrono_check_ymd(s: &str) -> (r: Option<String>)
    ensures
        match r {
            Some(e) => chrono_ymd_error(s@) == Some(e@),
            None => chrono_ymd_error(s@) is None,
        },
        ymd_like(s@) && !ymd_shape(s@) ==> r is Some,
        ymd_shape(s@) ==> (r is None <==> valid_ymd(
            digits_value(s@.subrange(0, 4)) as int,
            digits_value(s@.subrange(5, 7)) as int,
            digits_value(s@.subrange(8, 10)) as int,
        )),
{
    match chrono::NaiveDate::parse_from_str(s, "%Y-%m-%d") {
        Ok(_) => None,
        Err(e) => Some(e.to_string()),
    }
}

/// No message about a problem of a date reads "Date: Date Accepted".
proof fn lemma_issue_not_accepted(na: NAType)
    ensures
        na.text() != "Date: Date Accepted"@,
{
    reveal_strlit("Date: Date Accepted");
    assert("Date: Date Accepted"@.len() == 19);
    match na {
        NAType::InvalidDate => {
            reveal_strlit("Date: Unknown date");
            assert(na.text().len() == 18);
        },
        NAType::InvalidYear => {
            reveal_strlit("Date: Year length not acceptable. Example Date: 2022-05-01");
            assert(na.text().len() > 19);
        },
        NAType::InvalidMonth => {
            reveal_strlit("Date: Month length not acceptable. Example Date: 2022-05-01");
            assert(na.text().len() > 19);
        },
        NAType::InvalidDay => {
            reveal_strlit("Date: Day length not acceptable. Example Date: 2022-05-01");
            assert(na.text().len() > 19);
        },
        NAType::YearTooBig => {
            reveal_strlit("Date: Year must be between 2022-2025");
            assert(na.text().len() > 19);
        },
        NAType::MonthTooBig => {
            reveal_strlit("Date: Month must be between 01-12");
            assert(na.text().len() > 19);
        },
        NAType::DayTooBig => {
            reveal_strlit("Date: Day must be between 01-31");
            assert(na.text().len() > 19);
        },
        NAType::NonExistingDate => {
            reveal_strlit("Date: Date not acceptable and possibly non-existing");
            assert(na.text().len() > 19);
        },
        NAType::AmountBelowZero => {
            reveal_strlit("Amount: Value must be bigger than zero");
            assert(na.text().len() > 19);
        },
        NAType::InvalidTxMethod => {
            reveal_strlit("TX Method: Transaction Method not found");
            assert(na.text().len() > 19);
        },
        NAType::InvalidTxType => {
            reveal_strlit("TX Type: Transaction Type not acceptable. Values: Expense/Income/E/I");
            assert(na.text().len() > 19);
        },
        NAType::ParsingError(a) => {
            reveal_strlit(": Error acquired while validating input");
            assert(na.text().len() > 19);
        },
        NAType::InvalidBValue => {
            reveal_strlit("Amount: TX Method cannot be empty. Value of B cannot be determined");
            assert(na.text().len() > 19);
        },
    }
}

/// Three ASCII digits are worth less than 1000.
proof fn lemma_three_digits(p: Seq<char>)
    requires
        p.len() == 3,
        all_digits(p),
    ensures
        digits_value(p) < 1000,
{
    let a = p.subrange(0, 1);
    let b = p.subrange(0, 2);
    assert(p.drop_last() =~= b);
    assert(b.drop_last() =~= a);
    assert(a.drop_last() =~= Seq::<char>::empty());
    assert('0' <= p[0] <= '9' && '0' <= p[1] <= '9' && '0' <= p[2] <= '9');
    assert(a.last() == p[0] && b.last() == p[1] && p.last() == p[2]);
    assert(digits_value(a.drop_last()) == 0);
    assert(digits_value(a) == digits_value(a.drop_last()) * 10 + ((a.last() as u32) - (
    '0' as u32)) as nat);
    assert(digits_value(a) <= 9);
    assert(digits_value(b) <= 99);
}

/// A year part of four characters that reads as a year from 2022 on is made
/// of digits, and its digits give that year.
proof fn lemma_year_part(p: Seq<char>, v: u32)
    requires
        p.len() == 4,
        parse_u32_spec(p) == Some(v),
        2022 <= v,
    ensures
        all_digits(p),
        digits_value(p) == v,
{
    if p[0] == '+' {
        lemma_three_digits(p.drop_first());
    }
}

/// A month or day part of two characters that reads as a number is two
/// digits or '+' and a digit; made of digits, its digits give the number.
proof fn lemma_two_part(p: Seq<char>, v: u32)
    requires
        p.len() == 2,
        parse_u32_spec(p) == Some(v),
    ensures
        two_place(p),
        all_digits(p) ==> digits_value(p) == v,
{
    if p[0] == '+' {
        assert(p.drop_first() =~= p.subrange(1, 2));
    } else {
        assert(all_digits(p));
    }
}

/// Three parts that pass the length and range checks of an exact date,
/// joined with '-', have the form of `ymd_like`; written in digits they
/// give a year from 2022 to 2025.
proof fn lemma_checked_parts(parts: Seq<Seq<char>>, t: Seq<char>)
    requires
        parts.len() == 3,
        t == join_spec(parts, "-"@),
        all_parse(parts),
        first_issue(parts, parsed_values(parts)) is None,
    ensures
        ymd_like(t),
        ymd_shape(t) ==> 2022 <= digits_value(t.subrange(0, 4)) <= 2025,
{
    let vals = parsed_values(parts);
    reveal_with_fuel(first_length_issue, 4);
    reveal_with_fuel(first_range_issue, 4);
    assert(first_length_issue(parts, vals, 0, 3) is None);
    assert(length_issue(0, parts[0], vals[0]) is None);
    assert(length_issue(1, parts[1], vals[1]) is None);
    assert(length_issue(2, parts[2], vals[2]) is None);
    assert(first_range_issue(vals, 0, 3) is None);
    assert(range_issue(0, vals[0]) is None);
    assert(parse_u32_spec(parts[0]) is Some && parse_u32_spec(parts[1]) is Some && parse_u32_spec(
        parts[2],
    ) is Some);
    assert(vals[0] == parse_u32_spec(parts[0])->0);
    assert(vals[1] == parse_u32_spec(parts[1])->0);
    assert(vals[2] == parse_u32_spec(parts[2])->0);
    lemma_year_part(parts[0], vals[0]);
    lemma_two_part(parts[1], vals[1]);
    lemma_two_part(parts[2], vals[2]);
    reveal_strlit("-");
    assert("-"@ =~= seq!['-']);
    let pd = parts.drop_last();
    assert(pd.drop_last() =~= seq![parts[0]]);
    assert(pd.last() == parts[1]);
    assert(join_spec(pd.drop_last(), "-"@) == parts[0]);
    assert(join_spec(pd, "-"@) == join_spec(pd.drop_last(), "-"@) + "-"@ + pd.last());
    assert(join_spec(parts, "-"@) == join_spec(pd, "-"@) + "-"@ + parts.last());
    assert(t =~= parts[0] + seq!['-'] + parts[1] + seq!['-'] + parts[2]);
    assert(t.subrange(0, 4) =~= parts[0]);
    assert(t.subrange(5, 7) =~= parts[1]);
    assert(t.subrange(8, 10) =~= parts[2]);
}

// ---------------------------------------------------------------------------
// Checking the parts of a date
// ---------------------------------------------------------------------------

/// How many '-' separated parts a date of this type has.
pub open spec fn part_count(dt: DateType) -> int {
    match dt {
        DateType::Exact => 3,
        DateType::Monthly => 2,
        DateType::Yearly => 1,
    }
}

/// The date used in place of a text that does not have the right parts.
pub open spec fn default_date(dt: DateType) -> Seq<char> {
    match dt {
        DateType::Exact => "2022-01-01"@,
        DateType::Monthly => "2022-01"@,
        DateType::Yearly => "2022"@,
    }
}

/// A problem with the length of part `k` (year, month, day): the reason and,
/// when the part can be corrected, the corrected part.
pub open spec fn length_issue(k: int, part: Seq<char>, v: u32) -> Option<(NAType, Option<Seq<char>>)> {
    if k == 0 {
        if part.len() != 4 {
            Some(
                (
                    NAType::InvalidYear,
                    Some(
                        if part.len() < 4 {
                            "2022"@
                        } else {
                            part.subrange(0, 4)
                        },
                    ),
                ),
            )
        } else {
            None
        }
    } else if k == 1 {
        if part.len() != 2 {
            Some(
                (
                    NAType::InvalidMonth,
                    if v < 10 {
                        Some("0"@ + decimal(v as nat))
                    } else if v > 12 {
                        Some("12"@)
                    } else {
                        None
                    },
                ),
            )
        } else {
            None
        }
    } else {
        if part.len() != 2 {
            Some(
                (
                    NAType::InvalidDay,
                    if v < 10 {
                        Some("0"@ + decimal(v as nat))
                    } else if v > 31 {
                        Some("31"@)
                    } else {
                        None
                    },
                ),
            )
        } else {
            None
        }
    }
}

/// A problem with the value of part `k`: years must be 2022 to 2025, months
/// 1 to 12 and days 1 to 31; the part is replaced by the nearest bound.
pub open spec fn range_issue(k: int, v: u32) -> Option<(NAType, Option<Seq<char>>)> {
    if k == 0 {
        if !(2022 <= v <= 2025) {
            Some((NAType::YearTooBig, Some(if v < 2022 { "2022"@ } else { "2025"@ })))
        } else {
            None
        }
    } else if k == 1 {
        if !(1 <= v <= 12) {
            Some((NAType::MonthTooBig, Some(if v < 1 { "01"@ } else { "12"@ })))
        } else {
            None
        }
    } else {
        if !(1 <= v <= 31) {
            Some((NAType::DayTooBig, Some(if v < 1 { "01"@ } else { "31"@ })))
        } else {
            None
        }
    }
}

/// The first length problem among parts `k..n`.
pub open spec fn first_length_issue(parts: Seq<Seq<char>>, vals: Seq<u32>, k: int, n: int) -> Option<
    (int, NAType, Option<Seq<char>>),
>
    decreases n - k,
{
    if k >= n {
        None
    } else {
        match length_issue(k, parts[k], vals[k]) {
            Some((na, fix)) => Some((k, na, fix)),
            None => first_length_issue(parts, vals, k + 1, n),
        }
    }
}

/// The first range problem among parts `k..n`.
pub open spec fn first_range_issue(vals: Seq<u32>, k: int, n: int) -> Option<
    (int, NAType, Option<Seq<char>>),
>
    decreases n - k,
{
    if k >= n {
        None
    } else {
        match range_issue(k, vals[k]) {
            Some((na, fix)) => Some((k, na, fix)),
            None => first_range_issue(vals, k + 1, n),
        }
    }
}

/// The first problem of a date's parts: all lengths are checked before any
/// value.
pub open spec fn first_issue(parts: Seq<Seq<char>>, vals: Seq<u32>) -> Option<
    (int, NAType, Option<Seq<char>>),
> {
    match first_length_issue(parts, vals, 0, parts.len() as int) {
        Some(x) => Some(x),
        None => first_range_issue(vals, 0, parts.len() as int),
    }
}

/// The text after a problem: the parts with the corrected one, joined with
/// '-', or the text unchanged when the part cannot be corrected.
pub open spec fn corrected_text(
    text: Seq<char>,
    parts: Seq<Seq<char>>,
    issue: (int, NAType, Option<Seq<char>>),
) -> Seq<char> {
    match issue.2 {
        Some(fix) => join_spec(parts.update(issue.0, fix), "-"@),
        None => text,
    }
}

/// Whether every part parses as a `u32`.
pub open spec fn all_parse(parts: Seq<Seq<char>>) -> bool {
    forall|i: int| 0 <= i < parts.len() ==> (#[trigger] parse_u32_spec(parts[i])) is Some
}

/// The parsed values of parts that all parse.
pub open spec fn parsed_values(parts: Seq<Seq<char>>) -> Seq<u32> {
    parts.map_values(|p: Seq<char>| parse_u32_spec(p)->0)
}

/// What checking a date gives: the verdict and the (possibly corrected) text.
///
/// Spaces are removed first; the text must then have as many '-' separated
/// parts as the date type asks for, each part a number. Lengths are checked
/// before values, and an exact date must also exist in the calendar.
pub open spec fn verify_date_spec(s: Seq<char>, dt: DateType) -> (VerifyingOutput, Seq<char>) {
    if s.len() == 0 {
        (VerifyingOutput::Nothing(AType::Date), s)
    } else {
        let t = remove_all(s, ' ');
        let parts = split_spec(t, '-');
        if parts.len() != part_count(dt) {
            (VerifyingOutput::NotAccepted(NAType::InvalidDate), default_date(dt))
        } else if !all_parse(parts) {
            (VerifyingOutput::NotAccepted(NAType::ParsingError(AType::Date)), t)
        } else {
            let vals = parsed_values(parts);
            match first_issue(parts, vals) {
                Some(issue) => (
                    VerifyingOutput::NotAccepted(issue.1),
                    corrected_text(t, parts, issue),
                ),
                None => if dt == DateType::Exact && chrono_ymd_error(t) is Some {
                    (VerifyingOutput::NotAccepted(NAType::NonExistingDate), t)
                } else {
                    (VerifyingOutput::Accepted(AType::Date), t)
                },
            }
        }
    }
}

fn check_length(k: usize, part: &String, v: u32) -> (r: Option<(NAType, Option<String>)>)
    requires
        k < 3,
    ensures
        match r {
            None => length_issue(k as int, part@, v) is None,
            Some((na, None)) => length_issue(k as int, part@, v) == Some((na, None::<Seq<char>>)),
            Some((na, Some(f))) => length_issue(k as int, part@, v) == Some((na, Some(f@))),
        },
{
    let len = char_count(part.as_str());
    if k == 0 {
        if len != 4 {
            if len < 4 {
                Some((NAType::InvalidYear, Some(owned("2022"))))
            } else {
                Some((NAType::InvalidYear, Some(prefix(part.as_str(), 4))))
            }
        } else {
            None
        }
    } else {
        let (na, bound, bound_text) = if k == 1 {
            (NAType::InvalidMonth, 12u32, owned("12"))
        } else {
            (NAType::InvalidDay, 31u32, owned("31"))
        };
        if len != 2 {
            if v < 10 {
                let digit = usize_to_text(v as usize);
                Some((na, Some(concat("0", digit.as_str()))))
            } else if v > bound {
                Some((na, Some(bound_text)))
            } else {
                Some((na, None))
            }
        } else {
            None
        }
    }
}

fn check_range(k: usize, v: u32) -> (r: Option<(NAType, Option<String>)>)
    requires
        k < 3,
    ensures
        match r {
            None => range_issue(k as int, v) is None,
            Some((na, None)) => range_issue(k as int, v) == Some((na, None::<Seq<char>>)),
            Some((na, Some(f))) => range_issue(k as int, v) == Some((na, Some(f@))),
        },
{
    if k == 0 {
        if !(2022 <= v && v <= 2025) {
            if v < 2022 {
                Some((NAType::YearTooBig, Some(owned("2022"))))
            } else {
                Some((NAType::YearTooBig, Some(owned("2025"))))
            }
        } else {
            None
        }
    } else if k == 1 {
        if !(1 <= v && v <= 12) {
            if v < 1 {
                Some((NAType::MonthTooBig, Some(owned("01"))))
            } else {
                Some((NAType::MonthTooBig, Some(owned("12"))))
            }
        } else {
            None
        }
    } else {
        if !(1 <= v && v <= 31) {
            if v < 1 {
                Some((NAType::DayTooBig, Some(owned("01"))))
            } else {
                Some((NAType::DayTooBig, Some(owned("31"))))
            }
        } else {
            None
        }
    }
}

/// Finds the first problem of the parts (lengths first, then values) and, if
/// there is one, the text that results from it.
fn find_issue(text: &String, parts: &Vec<String>, vals: &Vec<u32>) -> (r: Option<(NAType, String)>)
    requires
        parts@.len() == vals@.len(),
        parts@.len() <= 3,
    ensures
        match r {
            None => first_issue(string_views(parts@), vals@) is None,
            Some((na, t)) => first_issue(string_views(parts@), vals@) matches Some(issue) && issue.1
                == na && t@ == corrected_text(text@, string_views(parts@), issue),
        },
{
    let ghost pv = string_views(parts@);
    let n = parts.len();
    let mut k: usize = 0;
    while k < n
        invariant
            k <= n == parts@.len() == vals@.len() <= 3,
            pv == string_views(parts@),
            first_length_issue(pv, vals@, 0, n as int) == first_length_issue(
                pv,
                vals@,
                k as int,
                n as int,
            ),
        decreases n - k,
    {
        match check_length(k, &parts[k], vals[k]) {
            Some((na, fix)) => {
                let t = match fix {
                    Some(f) => {
                        let mut updated = parts.clone();
                        updated.set(k, f);
                        proof {
                            assert(string_views(updated@) =~= pv.update(k as int, updated@[k as int]@));
                        }
                        join(&updated, "-")
                    },
                    None => text.clone(),
                };
                return Some((na, t));
            },
            None => {},
        }
        k = k + 1;
    }
    let mut k: usize = 0;
    while k < n
        invariant
            k <= n == parts@.len() == vals@.len() <= 3,
            pv == string_views(parts@),
            first_length_issue(pv, vals@, 0, n as int) is None,
            first_range_issue(vals@, 0, n as int) == first_range_issue(vals@, k as int, n as int),
        decreases n - k,
    {
        match check_range(k, vals[k]) {
            Some((na, fix)) => {
                let t = match fix {
                    Some(f) => {
                        let mut updated = parts.clone();
                        updated.set(k, f);
                        proof {
                            assert(string_views(updated@) =~= pv.update(k as int, updated@[k as int]@));
                        }
                        join(&updated, "-")
                    },
                    None => text.clone(),
                };
                return Some((na, t));
            },
            None => {},
        }
        k = k + 1;
    }
    None
}

fn date_part_count(dt: DateType) -> (r: usize)
    ensures
        r == part_count(dt),
{
    match dt {
        DateType::Exact => 3,
        DateType::Monthly => 2,
        DateType::Yearly => 1,
    }
}

/// Parses every part; `None` if one of them is not a number.
fn parse_parts(parts: &Vec<String>) -> (r: Option<Vec<u32>>)
    ensures
        match r {
            None => !all_parse(string_views(parts@)),
            Some(vals) => all_parse(string_views(parts@)) && vals@ == parsed_values(
                string_views(parts@),
            ),
        },
{
    let ghost pv = string_views(parts@);
    let mut vals: Vec<u32> = Vec::new();
    let mut k: usize = 0;
    while k < parts.len()
        invariant
            k <= parts@.len(),
            pv == string_views(parts@),
            vals@.len() == k,
            forall|j: int| 0 <= j < k ==> (#[trigger] parse_u32_spec(pv[j])) == Some(vals@[j]),
        decreases parts@.len() - k,
    {
        match parse_u32(parts[k].as_str()) {
            Ok(v) => vals.push(v),
            Err(_) => {
                assert(parse_u32_spec(pv[k as int]) is None);
                return None;
            },
        }
        k = k + 1;
    }
    assert(vals@ =~= parsed_values(pv));
    Some(vals)
}

/// Checks a date typed by the user for the given date type and corrects it
/// where it can: spaces are removed, a text without the right number of
/// parts becomes the first date, and a part with the wrong length or an out
/// of range value is replaced. Returns whether the date was accepted.
pub fn verify_date(user_date: &mut String, date_type: &DateType) -> (r: VerifyingOutput)
    ensures
        (r, final(user_date)@) == verify_date_spec(old(user_date)@, *date_type),
        *date_type == DateType::Exact && r is Accepted ==> accepted_day(final(user_date)@),
{
    if char_count(user_date.as_str()) == 0 {
        return VerifyingOutput::Nothing(AType::Date);
    }
    let t = remove_char(user_date.as_str(), ' ');
    *user_date = t.clone();
    let parts = split_char(t.as_str(), '-');
    if parts.len() != date_part_count(*date_type) {
        *user_date = match date_type {
            DateType::Exact => owned("2022-01-01"),
            DateType::Monthly => owned("2022-01"),
            DateType::Yearly => owned("2022"),
        };
        return VerifyingOutput::NotAccepted(NAType::InvalidDate);
    }
    let vals = match parse_parts(&parts) {
        Some(v) => v,
        None => {
            return VerifyingOutput::NotAccepted(NAType::ParsingError(AType::Date));
        },
    };
    match find_issue(&t, &parts, &vals) {
        Some((na, fixed)) => {
            *user_date = fixed;
            VerifyingOutput::NotAccepted(na)
        },
        None => {
            if *date_type == DateType::Exact {
                match chrono_check_ymd(t.as_str()) {
                    Some(_) => VerifyingOutput::NotAccepted(NAType::NonExistingDate),
                    None => {
                        proof {
                            lemma_split_join(t@, '-');
                            reveal_strlit("-");
                            assert("-"@ =~= seq!['-']);
                            lemma_checked_parts(string_views(parts@), t@);
                        }
                        VerifyingOutput::Accepted(AType::Date)
                    },
                }
            } else {
                VerifyingOutput::Accepted(AType::Date)
            }
        },
    }
}

/// What the older date check of the entry pages gives: `Err(())` when a part
/// is not a number, else the status message; and the (possibly corrected)
/// text.
///
/// The text is split at '-' and each part trimmed; a text without three parts
/// becomes "2022-01-01". Otherwise the trimmed parts are joined again and
/// checked as an exact date.
pub open spec fn status_date_spec(s: Seq<char>) -> (Result<Seq<char>, ()>, Seq<char>) {
    if s.len() == 0 {
        (Ok("Date: Nothing to check"@), s)
    } else {
        let data = split_spec(s, '-').map_values(|p: Seq<char>| trim_spec(p));
        if data.len() != 3 {
            (Ok("Date: Unknown date"@), "2022-01-01"@)
        } else {
            let t = join_spec(data, "-"@);
            let trimmed = data.map_values(|p: Seq<char>| trim_spec(p));
            if !all_parse(trimmed) {
                (Err(()), t)
            } else {
                match first_issue(data, parsed_values(trimmed)) {
                    Some(issue) => (Ok(issue.1.text()), corrected_text(t, data, issue)),
                    None => match chrono_ymd_error(t) {
                        Some(e) => (
                            Ok("Date: Date not acceptable and possibly non-existing. Error: "@ + e),
                            t,
                        ),
                        None => (Ok("Date: Date Accepted"@), t),
                    },
                }
            }
        }
    }
}

/// The date check used by the Add Transaction and Transfer pages: returns the
/// status message, or the parsing error of a part that is not a number.
#[verifier::loop_isolation(false)]
pub fn status_verify_date(user_date: &mut String) -> (r: Result<String, std::num::ParseIntError>)
    ensures
        ({
            let (res, t) = status_date_spec(old(user_date)@);
            &&& final(user_date)@ == t
            &&& match r {
                Ok(m) => res == Ok::<Seq<char>, ()>(m@),
                Err(_) => res is Err,
            }
        }),
        r matches Ok(m) && m@ == "Date: Date Accepted"@ ==> accepted_day(final(user_date)@),
{
    proof {
        reveal_strlit("Date: Date Accepted");
        reveal_strlit("Date: Nothing to check");
        reveal_strlit("Date: Unknown date");
        reveal_strlit("Date: Date not acceptable and possibly non-existing. Error: ");
        assert("Date: Date Accepted"@.len() == 19);
        assert("Date: Nothing to check"@.len() == 22);
        assert("Date: Unknown date"@.len() == 18);
        assert("Date: Date not acceptable and possibly non-existing. Error: "@.len() > 19);
    }
    if char_count(user_date.as_str()) == 0 {
        return Ok(owned("Date: Nothing to check"));
    }
    let raw = split_char(user_date.as_str(), '-');
    let mut data: Vec<String> = Vec::new();
    let mut k: usize = 0;
    while k < raw.len()
        invariant
            k <= raw@.len(),
            data@.len() == k,
            forall|j: int| 0 <= j < k ==> #[trigger] data@[j]@ == trim_spec(raw@[j]@),
        decreases raw@.len() - k,
    {
        data.push(trim(raw[k].as_str()));
        k = k + 1;
    }
    let ghost dv = string_views(data@);
    assert(dv =~= string_views(raw@).map_values(|p: Seq<char>| trim_spec(p)));
    if data.len() != 3 {
        *user_date = owned("2022-01-01");
        return Ok(owned("Date: Unknown date"));
    }
    let t = join(&data, "-");
    *user_date = t.clone();
    let mut trimmed: Vec<String> = Vec::new();
    let mut k: usize = 0;
    while k < data.len()
        invariant
            k <= data@.len(),
            trimmed@.len() == k,
            forall|j: int| 0 <= j < k ==> #[trigger] trimmed@[j]@ == trim_spec(data@[j]@),
        decreases data@.len() - k,
    {
        trimmed.push(trim(data[k].as_str()));
        k = k + 1;
    }
    assert(string_views(trimmed@) =~= dv.map_values(|p: Seq<char>| trim_spec(p)));
    let mut vals: Vec<u32> = Vec::new();
    let mut k: usize = 0;
    while k < trimmed.len()
        invariant
            k <= trimmed@.len(),
            vals@.len() == k,
            string_views(trimmed@) == dv.map_values(|p: Seq<char>| trim_spec(p)),
            forall|j: int| 0 <= j < k ==> (#[trigger] parse_u32_spec(string_views(trimmed@)[j]))
                == Some(vals@[j]),
        decreases trimmed@.len() - k,
    {
        match parse_u32(trimmed[k].as_str()) {
            Ok(v) => vals.push(v),
            Err(e) => {
                assert(parse_u32_spec(string_views(trimmed@)[k as int]) is None);
                assert(!all_parse(string_views(trimmed@)));
                assert(!all_parse(dv.map_values(|p: Seq<char>| trim_spec(p))));
                return Err(e);
            },
        }
        k = k + 1;
    }
    assert(vals@ =~= parsed_values(string_views(trimmed@)));
    match find_issue(&t, &data, &vals) {
        Some((na, fixed)) => {
            *user_date = fixed;
            proof {
                lemma_issue_not_accepted(na);
            }
            Ok(na.to_text())
        },
        None => match chrono_check_ymd(t.as_str()) {
            Some(e) => Ok(
                concat("Date: Date not acceptable and possibly non-existing. Error: ", e.as_str()),
            ),
            None => {
                proof {
                    let d = string_views(data@);
                    assert forall|i: int| 0 <= i < d.len() implies #[trigger] trim_spec(d[i])
                        == d[i] by {
                        assert(d[i] == trim_spec(raw@[i]@));
                        crate::text::lemma_trim_twice(raw@[i]@);
                    }
                    assert(d.map_values(|p: Seq<char>| trim_spec(p)) =~= d);
                    lemma_checked_parts(d, t@);
                }
                Ok(owned("Date: Date Accepted"))
            },
        },
    }
}

// ---------------------------------------------------------------------------
// Stepping a date with the arrow keys
// ---------------------------------------------------------------------------

/// The day after (y, m, d); the day is taken as the last of its month when
/// it is not below the month's length.
pub open spec fn next_day(y: int, m: int, d: int) -> (int, int, int) {
    if d < days_in_month(y, m) {
        (y, m, d + 1)
    } else if m < 12 {
        (y, m + 1, 1)
    } else {
        (y + 1, 1, 1)
    }
}

/// The day before (y, m, d).
pub open spec fn previous_day(y: int, m: int, d: int) -> (int, int, int) {
    if d > 1 {
        (y, m, d - 1)
    } else if m > 1 {
        (y, m - 1, days_in_month(y, m - 1))
    } else {
        (y - 1, 12, 31)
    }
}

/// On the calendar, the day before the day after a day is that day, and the
/// day after the day before it is that day too.
pub proof fn lemma_day_steps_undo(y: int, m: int, d: int)
    requires
        valid_ymd(y, m, d),
    ensures
        previous_day(next_day(y, m, d).0, next_day(y, m, d).1, next_day(y, m, d).2) == (y, m, d),
        next_day(previous_day(y, m, d).0, previous_day(y, m, d).1, previous_day(y, m, d).2) == (
            y,
            m,
            d,
        ),
        valid_ymd(next_day(y, m, d).0, next_day(y, m, d).1, next_day(y, m, d).2),
        valid_ymd(previous_day(y, m, d).0, previous_day(y, m, d).1, previous_day(y, m, d).2),
{
}

/// A number written with at least two digits.
pub open spec fn two_digits(v: nat) -> Seq<char> {
    if v < 10 {
        "0"@ + decimal(v)
    } else {
        decimal(v)
    }
}

/// The text of a date: year, then month and day with two digits each.
pub open spec fn ymd_text(y: nat, m: nat, d: nat) -> Seq<char> {
    decimal(y) + "-"@ + two_digits(m) + "-"@ + two_digits(d)
}

/// The text of a month of a year.
pub open spec fn ym_text(y: nat, m: nat) -> Seq<char> {
    decimal(y) + "-"@ + two_digits(m)
}

/// The date after one step: a day, a month or a year up or down depending
/// on the date type, never past 2025-12-31 nor before 2022-01-01.
pub open spec fn stepped_text(t: Seq<char>, st: StepType, dt: DateType) -> Seq<char> {
    let vals = parsed_values(split_spec(t, '-'));
    match dt {
        DateType::Exact => {
            let (y, m, d) = (vals[0] as int, vals[1] as int, vals[2] as int);
            let (y2, m2, d2) = match st {
                StepType::StepUp => if y >= 2025 && m >= 12 && d >= 31 {
                    (y, m, d)
                } else {
                    next_day(y, m, d)
                },
                StepType::StepDown => if y <= 2022 && m <= 1 && d <= 1 {
                    (y, m, d)
                } else {
                    previous_day(y, m, d)
                },
            };
            ymd_text(y2 as nat, m2 as nat, d2 as nat)
        },
        DateType::Monthly => {
            let (y, m) = (vals[0] as int, vals[1] as int);
            let (y2, m2) = match st {
                StepType::StepUp => if y >= 2025 && m >= 12 {
                    (y, m)
                } else if m < 12 {
                    (y, m + 1)
                } else {
                    (y + 1, 1)
                },
                StepType::StepDown => if y <= 2022 && m <= 1 {
                    (y, m)
                } else if m > 1 {
                    (y, m - 1)
                } else {
                    (y - 1, 12)
                },
            };
            ym_text(y2 as nat, m2 as nat)
        },
        DateType::Yearly => {
            let y = vals[0] as int;
            let y2 = match st {
                StepType::StepUp => if y >= 2025 { y } else { y + 1 },
                StepType::StepDown => if y <= 2022 { y } else { y - 1 },
            };
            decimal(y2 as nat)
        },
    }
}

/// What stepping a date gives: the date is checked first; a date that is not
/// accepted cannot be stepped, an empty one becomes the first date, and an
/// accepted one moves by one step.
pub open spec fn step_date_spec(s: Seq<char>, st: StepType, dt: DateType) -> (
    Result<(), SteppingError>,
    Seq<char>,
) {
    let (v, t) = verify_date_spec(s, dt);
    match v {
        VerifyingOutput::NotAccepted(_) => (Err(SteppingError::InvalidDate), t),
        VerifyingOutput::Nothing(_) => (Ok(()), default_date(dt)),
        VerifyingOutput::Accepted(_) => (Ok(()), stepped_text(t, st, dt)),
    }
}

fn days_of_month(y: u32, m: u32) -> (r: u32)
    ensures
        r == days_in_month(y as int, m as int),
{
    if m == 2 {
        if (y % 4 == 0 && y % 100 != 0) || y % 400 == 0 {
            29
        } else {
            28
        }
    } else if m == 4 || m == 6 || m == 9 || m == 11 {
        30
    } else {
        31
    }
}

fn two_digit_text(v: u32) -> (r: String)
    ensures
        r@ == two_digits(v as nat),
{
    let digits = usize_to_text(v as usize);
    if v < 10 {
        concat("0", digits.as_str())
    } else {
        digits
    }
}

fn date_text(y: u32, m: u32, d: u32) -> (r: String)
    ensures
        r@ == ymd_text(y as nat, m as nat, d as nat),
{
    let yt = usize_to_text(y as usize);
    let a = concat(yt.as_str(), "-");
    let mt = two_digit_text(m);
    let b = concat(a.as_str(), mt.as_str());
    let c = concat(b.as_str(), "-");
    let dtext = two_digit_text(d);
    concat(c.as_str(), dtext.as_str())
}

fn month_text(y: u32, m: u32) -> (r: String)
    ensures
        r@ == ym_text(y as nat, m as nat),
{
    let yt = usize_to_text(y as usize);
    let a = concat(yt.as_str(), "-");
    let mt = two_digit_text(m);
    concat(a.as_str(), mt.as_str())
}

/// Whether the parts of a text passed every check of its date type (as they
/// do when the text was accepted).
pub open spec fn accepted_parts(t: Seq<char>, dt: DateType) -> bool {
    let parts = split_spec(t, '-');
    &&& parts.len() == part_count(dt)
    &&& all_parse(parts)
    &&& first_issue(parts, parsed_values(parts)) is None
}

/// Moves an accepted date by one step.
fn step_accepted(t: &String, step_type: StepType, date_type: &DateType) -> (r: String)
    requires
        accepted_parts(t@, *date_type),
    ensures
        r@ == stepped_text(t@, step_type, *date_type),
{
    let parts = split_char(t.as_str(), '-');
    let vals = match parse_parts(&parts) {
        Some(v) => v,
        None => {
            return t.clone();
        },
    };
    let ghost pv = string_views(parts@);
    assert(vals@ == parsed_values(split_spec(t@, '-')));
    match date_type {
        DateType::Exact => {
            // an accepted exact date has a year of 2022 to 2025, a month of 1 to
            // 12 and a day of 1 to 31
            assert(first_range_issue(vals@, 0, 3) is None);
            assert(range_issue(0, vals@[0]) is None);
            assert(first_range_issue(vals@, 1, 3) is None);
            assert(range_issue(1, vals@[1]) is None);
            assert(first_range_issue(vals@, 2, 3) is None);
            assert(range_issue(2, vals@[2]) is None);
            let (y, m, d) = (vals[0], vals[1], vals[2]);
            let (y2, m2, d2) = match step_type {
                StepType::StepUp => {
                    if y >= 2025 && m >= 12 && d >= 31 {
                        (y, m, d)
                    } else if d < days_of_month(y, m) {
                        (y, m, d + 1)
                    } else if m < 12 {
                        (y, m + 1, 1)
                    } else {
                        (y + 1, 1, 1)
                    }
                },
                StepType::StepDown => {
                    if y <= 2022 && m <= 1 && d <= 1 {
                        (y, m, d)
                    } else if d > 1 {
                        (y, m, d - 1)
                    } else if m > 1 {
                        (y, m - 1, days_of_month(y, m - 1))
                    } else {
                        (y - 1, 12, 31)
                    }
                },
            };
            date_text(y2, m2, d2)
        },
        DateType::Monthly => {
            assert(first_range_issue(vals@, 0, 2) is None);
            assert(range_issue(0, vals@[0]) is None);
            assert(first_range_issue(vals@, 1, 2) is None);
            assert(range_issue(1, vals@[1]) is None);
            let (y, m) = (vals[0], vals[1]);
            let (y2, m2) = match step_type {
                StepType::StepUp => {
                    if y >= 2025 && m >= 12 {
                        (y, m)
                    } else if m < 12 {
                        (y, m + 1)
                    } else {
                        (y + 1, 1)
                    }
                },
                StepType::StepDown => {
                    if y <= 2022 && m <= 1 {
                        (y, m)
                    } else if m > 1 {
                        (y, m - 1)
                    } else {
                        (y - 1, 12)
                    }
                },
            };
            month_text(y2, m2)
        },
        DateType::Yearly => {
            assert(first_range_issue(vals@, 0, 1) is None);
            assert(range_issue(0, vals@[0]) is None);
            let y = vals[0];
            let y2 = match step_type {
                StepType::StepUp => if y >= 2025 {
                    y
                } else {
                    y + 1
                },
                StepType::StepDown => if y <= 2022 {
                    y
                } else {
                    y - 1
                },
            };
            usize_to_text(y2 as usize)
        },
    }
}

/// Steps a date one day, month or year up or down (by the date type). The
/// date is checked first: a date that is not accepted is left corrected and
/// cannot be stepped, and an empty one becomes the first date.
pub fn step_date(user_date: &mut String, step_type: StepType, date_type: &DateType) -> (r: Result<
    (),
    SteppingError,
>)
    ensures
        (r, final(user_date)@) == step_date_spec(old(user_date)@, step_type, *date_type),
{
    let status = verify_date(user_date, date_type);
    match status {
        VerifyingOutput::NotAccepted(_) => Err(SteppingError::InvalidDate),
        VerifyingOutput::Nothing(_) => {
            *user_date = match date_type {
                DateType::Exact => owned("2022-01-01"),
                DateType::Monthly => owned("2022-01"),
                DateType::Yearly => owned("2022"),
            };
            Ok(())
        },
        VerifyingOutput::Accepted(_) => {
            let stepped = step_accepted(user_date, step_type, date_type);
            *user_date = stepped;
            Ok(())
        },
    }
}


// ---------------------------------------------------------------------------
// Dates written by stepping read back as the day they name
// ---------------------------------------------------------------------------

/// The decimal text of a number is made of digits, reads back as the number,
/// and does not start with '+'.
proof fn lemma_decimal_reads_back(n: nat)
    ensures
        all_digits(decimal(n)),
        digits_value(decimal(n)) == n,
        decimal(n).len() >= 1,
        decimal(n)[0] != '+',
        forall|i: int| 0 <= i < decimal(n).len() ==> #[trigger] decimal(n)[i] != '-' && decimal(n)[i] != ' ',
    decreases n,
{
    if n < 10 {
        let c = ((n + 48) as u32) as char;
        assert(decimal(n) == seq![c]);
        assert(c as u32 == n + 48);
        assert(seq![c].drop_last() =~= Seq::<char>::empty());
        assert(digits_value(seq![c]) == digits_value(Seq::<char>::empty()) * 10 + ((c as u32) - ('0' as u32)) as nat);
    } else {
        lemma_decimal_reads_back(n / 10);
        let p = decimal(n / 10);
        let c = (((n % 10) + 48) as u32) as char;
        assert(decimal(n) == p.push(c));
        assert(c as u32 == (n % 10) + 48);
        assert(p.push(c).drop_last() =~= p);
        assert(p.push(c)[0] == p[0]);
        assert forall|i: int| 0 <= i < p.push(c).len() implies '0' <= #[trigger] p.push(c)[i] <= '9' by {
            if i < p.len() {
                assert(p.push(c)[i] == p[i]);
            }
        }
        assert forall|i: int| 0 <= i < p.push(c).len() implies #[trigger] p.push(c)[i] != '-' && p.push(c)[i] != ' ' by {
            if i < p.len() {
                assert(p.push(c)[i] == p[i]);
            }
        }
    }
}

/// The decimal text of a number from 1000 to 9999 has four digits; of a
/// number from 10 to 99, two; of a number below 10, one.
proof fn lemma_decimal_len(n: nat)
    ensures
        n <= 9 ==> decimal(n).len() == 1,
        10 <= n <= 99 ==> decimal(n).len() == 2,
        100 <= n <= 999 ==> decimal(n).len() == 3,
        1000 <= n <= 9999 ==> decimal(n).len() == 4,
    decreases n,
{
    if n >= 10 {
        lemma_decimal_len(n / 10);
    }
}

/// A number below 100 written with two digits reads back as the number.
proof fn lemma_two_digits_read_back(v: nat)
    requires
        v <= 99,
    ensures
        two_digits(v).len() == 2,
        all_digits(two_digits(v)),
        digits_value(two_digits(v)) == v,
        two_digits(v)[0] != '+',
        forall|i: int| 0 <= i < 2 ==> #[trigger] two_digits(v)[i] != '-' && two_digits(v)[i] != ' ',
{
    lemma_decimal_reads_back(v);
    lemma_decimal_len(v);
    if v < 10 {
        reveal_strlit("0");
        let t = "0"@ + decimal(v);
        let z = seq!['0'];
        assert(t.drop_last() =~= z);
        assert(z.drop_last() =~= Seq::<char>::empty());
        assert(z.last() == '0');
        assert(digits_value(Seq::<char>::empty()) == 0);
        assert(digits_value(z) == 0);
        assert(t.last() == decimal(v)[0]);
        assert(t[1] == decimal(v)[0]);
        assert forall|i: int| 0 <= i < t.len() implies '0' <= #[trigger] t[i] <= '9' by {
            if i == 1 {
                assert(decimal(v)[0] == decimal(v)[i - 1]);
            }
        }
    }
}

/// The parts of the text of a date.
proof fn lemma_date_text_parts(y: nat, m: nat, d: nat)
    requires
        1000 <= y <= 9999,
        m <= 99,
        d <= 99,
    ensures
        split_spec(ymd_text(y, m, d), '-') == seq![decimal(y), two_digits(m), two_digits(d)],
        remove_all(ymd_text(y, m, d), ' ') == ymd_text(y, m, d),
        parsed_values(split_spec(ymd_text(y, m, d), '-')) == seq![y as u32, m as u32, d as u32],
        all_parse(split_spec(ymd_text(y, m, d), '-')),
{
    reveal_strlit("-");
    lemma_decimal_reads_back(y);
    lemma_decimal_len(y);
    lemma_two_digits_read_back(m);
    lemma_two_digits_read_back(d);
    let ys = decimal(y);
    let ms = two_digits(m);
    let ds = two_digits(d);
    lemma_split_plain(ys, '-');
    assert(ys + "-"@ == ys.push('-'));
    lemma_split_append(ys, ms, '-');
    let a = ys + "-"@ + ms;
    assert(a + "-"@ == a.push('-'));
    lemma_split_append(a, ds, '-');
    assert(ymd_text(y, m, d) == a.push('-') + ds);
    assert(ys.push('-') + ms == a);
    let t = ymd_text(y, m, d);
    assert forall|i: int| 0 <= i < t.len() implies #[trigger] t[i] != ' ' by {
        if i < 4 {
            assert(t[i] == ys[i]);
        } else if 5 <= i < 7 {
            assert(t[i] == ms[i - 5]);
        } else if 8 <= i < 10 {
            assert(t[i] == ds[i - 8]);
        }
    }
    crate::field_checks::lemma_remove_absent(t, ' ');
    let parts = split_spec(t, '-');
    assert(parse_u32_spec(ys) == Some(y as u32));
    assert(parse_u32_spec(ms) == Some(m as u32));
    assert(parse_u32_spec(ds) == Some(d as u32));
    assert(parsed_values(parts) =~= seq![y as u32, m as u32, d as u32]);
}

/// A date whose day is typed with one digit, and whose year and month have
/// the right lengths, is refused for the day's length and corrected by a
/// zero put in front of the digit: the year and the month stay, and the day
/// becomes two digits with the value typed.
pub proof fn lemma_one_digit_day(y: nat, m: nat, d: nat)
    requires
        1000 <= y <= 9999,
        m <= 99,
        d <= 9,
    ensures
        ({
            let typed = decimal(y) + "-"@ + two_digits(m) + "-"@ + decimal(d);
            let (out, fixed) = verify_date_spec(typed, DateType::Exact);
            &&& out == VerifyingOutput::NotAccepted(NAType::InvalidDay)
            &&& fixed == ymd_text(y, m, d)
            &&& fixed.len() == 10
            &&& fixed.subrange(0, 8) == typed.subrange(0, 8)
            &&& fixed[8] == '0'
            &&& all_digits(fixed.subrange(8, 10))
            &&& digits_value(fixed.subrange(8, 10)) == d
        }),
{
    reveal_strlit("-");
    reveal_strlit("0");
    lemma_decimal_reads_back(y);
    lemma_decimal_len(y);
    lemma_decimal_reads_back(d);
    lemma_decimal_len(d);
    lemma_two_digits_read_back(m);
    lemma_two_digits_read_back(d);
    let ys = decimal(y);
    let ms = two_digits(m);
    let ds = decimal(d);
    lemma_split_plain(ys, '-');
    assert(ys + "-"@ == ys.push('-'));
    lemma_split_append(ys, ms, '-');
    let a = ys + "-"@ + ms;
    assert(a + "-"@ == a.push('-'));
    lemma_split_append(a, ds, '-');
    let typed = a.push('-') + ds;
    assert(decimal(y) + "-"@ + two_digits(m) + "-"@ + decimal(d) == typed);
    assert(ys.push('-') + ms == a);
    assert(typed.len() == 9);
    assert forall|i: int| 0 <= i < typed.len() implies #[trigger] typed[i] != ' ' by {
        if i < 4 {
            assert(typed[i] == ys[i]);
        } else if 5 <= i < 7 {
            assert(typed[i] == ms[i - 5]);
        } else if i == 8 {
            assert(typed[i] == ds[0]);
        }
    }
    crate::field_checks::lemma_remove_absent(typed, ' ');
    let parts = split_spec(typed, '-');
    assert(parts == seq![ys, ms, ds]);
    assert(parse_u32_spec(ys) == Some(y as u32));
    assert(parse_u32_spec(ms) == Some(m as u32));
    assert(parse_u32_spec(ds) == Some(d as u32));
    assert(all_parse(parts));
    let vals = parsed_values(parts);
    assert(vals =~= seq![y as u32, m as u32, d as u32]);
    reveal_with_fuel(first_length_issue, 4);
    assert(length_issue(0, ys, vals[0]) is None);
    assert(length_issue(1, ms, vals[1]) is None);
    assert(length_issue(2, ds, vals[2]) == Some(
        (NAType::InvalidDay, Some("0"@ + decimal(d))),
    ));
    let issue = (2int, NAType::InvalidDay, Some("0"@ + decimal(d)));
    assert(first_issue(parts, vals) == Some(issue));
    let up = parts.update(2, two_digits(d));
    assert(up =~= seq![ys, ms, two_digits(d)]);
    assert(up.drop_last() =~= seq![ys, ms]);
    assert(up.drop_last().drop_last() =~= seq![ys]);
    assert(join_spec(up.drop_last().drop_last(), "-"@) == ys);
    assert(up.drop_last().last() == ms);
    assert(join_spec(up.drop_last(), "-"@) == join_spec(up.drop_last().drop_last(), "-"@) + "-"@
        + up.drop_last().last());
    assert(join_spec(up.drop_last(), "-"@) == ys + "-"@ + ms);
    assert(join_spec(up, "-"@) == ys + "-"@ + ms + "-"@ + two_digits(d));
    let fixed = ymd_text(y, m, d);
    assert(fixed == join_spec(up, "-"@));
    assert(fixed.subrange(0, 8) =~= typed.subrange(0, 8));
    assert(fixed.subrange(8, 10) =~= two_digits(d));
}

/// A date whose month is typed with one digit, and whose year and day have
/// the right lengths, is refused for the month's length and corrected by a
/// zero put in front of the digit: the year and the day stay, and the month
/// becomes two digits with the value typed.
pub proof fn lemma_one_digit_month(y: nat, m: nat, d: nat)
    requires
        1000 <= y <= 9999,
        m <= 9,
        d <= 99,
    ensures
        ({
            let typed = decimal(y) + "-"@ + decimal(m) + "-"@ + two_digits(d);
            let (out, fixed) = verify_date_spec(typed, DateType::Exact);
            &&& out == VerifyingOutput::NotAccepted(NAType::InvalidMonth)
            &&& fixed == ymd_text(y, m, d)
            &&& fixed.len() == 10
            &&& fixed.subrange(0, 5) == typed.subrange(0, 5)
            &&& fixed.subrange(7, 10) == typed.subrange(6, 9)
            &&& fixed[5] == '0'
            &&& all_digits(fixed.subrange(5, 7))
            &&& digits_value(fixed.subrange(5, 7)) == m
        }),
{
    reveal_strlit("-");
    reveal_strlit("0");
    lemma_decimal_reads_back(y);
    lemma_decimal_len(y);
    lemma_decimal_reads_back(m);
    lemma_decimal_len(m);
    lemma_two_digits_read_back(m);
    lemma_two_digits_read_back(d);
    let ys = decimal(y);
    let ms = decimal(m);
    let ds = two_digits(d);
    lemma_split_plain(ys, '-');
    assert(ys + "-"@ == ys.push('-'));
    lemma_split_append(ys, ms, '-');
    let a = ys + "-"@ + ms;
    assert(a + "-"@ == a.push('-'));
    lemma_split_append(a, ds, '-');
    let typed = a.push('-') + ds;
    assert(decimal(y) + "-"@ + decimal(m) + "-"@ + two_digits(d) == typed);
    assert(ys.push('-') + ms == a);
    assert(typed.len() == 9);
    assert forall|i: int| 0 <= i < typed.len() implies #[trigger] typed[i] != ' ' by {
        if i < 4 {
            assert(typed[i] == ys[i]);
        } else if i == 5 {
            assert(typed[i] == ms[0]);
        } else if 7 <= i < 9 {
            assert(typed[i] == ds[i - 7]);
        }
    }
    crate::field_checks::lemma_remove_absent(typed, ' ');
    let parts = split_spec(typed, '-');
    assert(parts == seq![ys, ms, ds]);
    assert(parse_u32_spec(ys) == Some(y as u32));
    assert(parse_u32_spec(ms) == Some(m as u32));
    assert(parse_u32_spec(ds) == Some(d as u32));
    assert(all_parse(parts));
    let vals = parsed_values(parts);
    assert(vals =~= seq![y as u32, m as u32, d as u32]);
    reveal_with_fuel(first_length_issue, 4);
    assert(length_issue(0, ys, vals[0]) is None);
    assert(length_issue(1, ms, vals[1]) == Some(
        (NAType::InvalidMonth, Some("0"@ + decimal(m))),
    ));
    let issue = (1int, NAType::InvalidMonth, Some("0"@ + decimal(m)));
    assert(first_issue(parts, vals) == Some(issue));
    let up = parts.update(1, two_digits(m));
    assert(up =~= seq![ys, two_digits(m), ds]);
    assert(up.drop_last() =~= seq![ys, two_digits(m)]);
    assert(up.drop_last().drop_last() =~= seq![ys]);
    assert(join_spec(up.drop_last().drop_last(), "-"@) == ys);
    assert(up.drop_last().last() == two_digits(m));
    assert(join_spec(up.drop_last(), "-"@) == join_spec(up.drop_last().drop_last(), "-"@) + "-"@
        + up.drop_last().last());
    assert(join_spec(up, "-"@) == ys + "-"@ + two_digits(m) + "-"@ + ds);
    let fixed = ymd_text(y, m, d);
    assert(fixed == join_spec(up, "-"@));
    assert(fixed.subrange(0, 5) =~= typed.subrange(0, 5));
    assert(fixed.subrange(7, 10) =~= typed.subrange(6, 9));
    assert(fixed.subrange(5, 7) =~= two_digits(m));
}

/// The text of a day of 2022 to 2025 is accepted by the check of exact dates
/// when chrono parses it, and stays as it is.
proof fn lemma_date_text_accepted(y: nat, m: nat, d: nat)
    requires
        2022 <= y <= 2025,
        valid_ymd(y as int, m as int, d as int),
        chrono_ymd_error(ymd_text(y, m, d)) is None,
    ensures
        verify_date_spec(ymd_text(y, m, d), DateType::Exact) == (
            VerifyingOutput::Accepted(AType::Date),
            ymd_text(y, m, d),
        ),
{
    lemma_date_text_parts(y, m, d);
    lemma_decimal_len(y);
    lemma_two_digits_read_back(m);
    lemma_two_digits_read_back(d);
    let t = ymd_text(y, m, d);
    let parts = split_spec(t, '-');
    let vals = parsed_values(parts);
    assert(parts[0] == decimal(y) && parts[1] == two_digits(m) && parts[2] == two_digits(d));
    assert(vals[0] == y && vals[1] == m && vals[2] == d);
    assert(first_length_issue(parts, vals, 3, 3) is None);
    assert(first_length_issue(parts, vals, 2, 3) is None);
    assert(first_length_issue(parts, vals, 1, 3) is None);
    assert(first_length_issue(parts, vals, 0, 3) is None);
    assert(first_range_issue(vals, 3, 3) is None);
    assert(first_range_issue(vals, 2, 3) is None);
    assert(first_range_issue(vals, 1, 3) is None);
    assert(first_range_issue(vals, 0, 3) is None);
}

/// Stepping the text of a day of 2022 to 2025 that chrono parses moves it
/// to the next or the previous day, never past 2025-12-31 nor before
/// 2022-01-01.
proof fn lemma_step_day_text(y: nat, m: nat, d: nat)
    requires
        2022 <= y <= 2025,
        valid_ymd(y as int, m as int, d as int),
        chrono_ymd_error(ymd_text(y, m, d)) is None,
    ensures
        step_date_spec(ymd_text(y, m, d), StepType::StepUp, DateType::Exact) == (
            Ok::<(), SteppingError>(()),
            if y == 2025 && m == 12 && d == 31 {
                ymd_text(y, m, d)
            } else {
                ymd_text(
                    next_day(y as int, m as int, d as int).0 as nat,
                    next_day(y as int, m as int, d as int).1 as nat,
                    next_day(y as int, m as int, d as int).2 as nat,
                )
            },
        ),
        step_date_spec(ymd_text(y, m, d), StepType::StepDown, DateType::Exact) == (
            Ok::<(), SteppingError>(()),
            if y == 2022 && m == 1 && d == 1 {
                ymd_text(y, m, d)
            } else {
                ymd_text(
                    previous_day(y as int, m as int, d as int).0 as nat,
                    previous_day(y as int, m as int, d as int).1 as nat,
                    previous_day(y as int, m as int, d as int).2 as nat,
                )
            },
        ),
{
    lemma_date_text_accepted(y, m, d);
    lemma_date_text_parts(y, m, d);
}

/// The text of a month of 2022 to 2025 is accepted by the check of monthly
/// dates as it is, and its parts read as the year and the month.
proof fn lemma_month_text_accepted(y: nat, m: nat)
    requires
        2022 <= y <= 2025,
        1 <= m <= 12,
    ensures
        verify_date_spec(ym_text(y, m), DateType::Monthly) == (
            VerifyingOutput::Accepted(AType::Date),
            ym_text(y, m),
        ),
        parsed_values(split_spec(ym_text(y, m), '-')) == seq![y as u32, m as u32],
{
    reveal_strlit("-");
    lemma_decimal_reads_back(y);
    lemma_decimal_len(y);
    lemma_two_digits_read_back(m);
    let ys = decimal(y);
    let ms = two_digits(m);
    lemma_split_plain(ys, '-');
    assert(ys + "-"@ == ys.push('-'));
    lemma_split_append(ys, ms, '-');
    let t = ym_text(y, m);
    assert(t == ys.push('-') + ms);
    assert forall|i: int| 0 <= i < t.len() implies #[trigger] t[i] != ' ' by {
        if i < 4 {
            assert(t[i] == ys[i]);
        } else if 5 <= i < 7 {
            assert(t[i] == ms[i - 5]);
        }
    }
    crate::field_checks::lemma_remove_absent(t, ' ');
    let parts = split_spec(t, '-');
    assert(parts == seq![ys, ms]);
    assert(parse_u32_spec(ys) == Some(y as u32));
    assert(parse_u32_spec(ms) == Some(m as u32));
    assert(all_parse(parts));
    let vals = parsed_values(parts);
    assert(vals =~= seq![y as u32, m as u32]);
    assert(first_length_issue(parts, vals, 2, 2) is None);
    assert(first_length_issue(parts, vals, 1, 2) is None);
    assert(first_length_issue(parts, vals, 0, 2) is None);
    assert(first_range_issue(vals, 2, 2) is None);
    assert(first_range_issue(vals, 1, 2) is None);
    assert(first_range_issue(vals, 0, 2) is None);
}

/// Counting months from year 0, the arrow keys on a monthly date of 2022
/// to 2025 move one month on or back: up gives the month after (December
/// 2025 stays), down the month before (January 2022 stays), and each undoes
/// the other.
pub proof fn lemma_month_steps(y: nat, m: nat)
    requires
        2022 <= y <= 2025,
        1 <= m <= 12,
    ensures
        ({
            let n = 12 * y + (m - 1);
            let up = step_date_spec(ym_text(y, m), StepType::StepUp, DateType::Monthly);
            let down = step_date_spec(ym_text(y, m), StepType::StepDown, DateType::Monthly);
            &&& up.0 == Ok::<(), SteppingError>(())
            &&& down.0 == Ok::<(), SteppingError>(())
            &&& !(y == 2025 && m == 12) ==> up.1 == ym_text(
                ((n + 1) / 12) as nat,
                ((n + 1) % 12 + 1) as nat,
            )
            &&& y == 2025 && m == 12 ==> up.1 == ym_text(y, m)
            &&& !(y == 2022 && m == 1) ==> down.1 == ym_text(
                ((n - 1) / 12) as nat,
                ((n - 1) % 12 + 1) as nat,
            )
            &&& y == 2022 && m == 1 ==> down.1 == ym_text(y, m)
            &&& !(y == 2025 && m == 12) ==> step_date_spec(
                up.1,
                StepType::StepDown,
                DateType::Monthly,
            ) == (Ok::<(), SteppingError>(()), ym_text(y, m))
            &&& !(y == 2022 && m == 1) ==> step_date_spec(
                down.1,
                StepType::StepUp,
                DateType::Monthly,
            ) == (Ok::<(), SteppingError>(()), ym_text(y, m))
        }),
{
    lemma_month_text_accepted(y, m);
    let n = 12 * y + (m - 1);
    if m < 12 {
        assert((n + 1) / 12 == y && (n + 1) % 12 + 1 == m + 1) by (nonlinear_arith)
            requires
                n == 12 * y + (m - 1),
                1 <= m < 12,
        ;
        lemma_month_text_accepted(y, m + 1);
    } else if y < 2025 {
        assert((n + 1) / 12 == y + 1 && (n + 1) % 12 + 1 == 1) by (nonlinear_arith)
            requires
                n == 12 * y + (m - 1),
                m == 12,
        ;
        lemma_month_text_accepted(y + 1, 1);
    }
    if m > 1 {
        assert((n - 1) / 12 == y && (n - 1) % 12 + 1 == m - 1) by (nonlinear_arith)
            requires
                n == 12 * y + (m - 1),
                1 < m <= 12,
        ;
        lemma_month_text_accepted(y, (m - 1) as nat);
    } else if y > 2022 {
        assert((n - 1) / 12 == y - 1 && (n - 1) % 12 + 1 == 12) by (nonlinear_arith)
            requires
                n == 12 * y + (m - 1),
                m == 1,
                y >= 1,
        ;
        lemma_month_text_accepted((y - 1) as nat, 12);
    }
}

/// The text of a year of 2022 to 2025 is accepted by the check of yearly
/// dates as it is.
proof fn lemma_year_text_accepted(y: nat)
    requires
        2022 <= y <= 2025,
    ensures
        verify_date_spec(decimal(y), DateType::Yearly) == (
            VerifyingOutput::Accepted(AType::Date),
            decimal(y),
        ),
        parsed_values(split_spec(decimal(y), '-')) == seq![y as u32],
{
    lemma_decimal_reads_back(y);
    lemma_decimal_len(y);
    let t = decimal(y);
    lemma_split_plain(t, '-');
    crate::field_checks::lemma_remove_absent(t, ' ');
    let parts = split_spec(t, '-');
    assert(parse_u32_spec(t) == Some(y as u32));
    assert(all_parse(parts));
    let vals = parsed_values(parts);
    assert(vals =~= seq![y as u32]);
    assert(first_length_issue(parts, vals, 1, 1) is None);
    assert(first_length_issue(parts, vals, 0, 1) is None);
    assert(first_range_issue(vals, 1, 1) is None);
    assert(first_range_issue(vals, 0, 1) is None);
}

/// The arrow keys on a yearly date of 2022 to 2025 move one year on or back
/// (2025 stays when stepped up, 2022 when stepped down), and each undoes the
/// other.
pub proof fn lemma_year_steps(y: nat)
    requires
        2022 <= y <= 2025,
    ensures
        step_date_spec(decimal(y), StepType::StepUp, DateType::Yearly) == (
            Ok::<(), SteppingError>(()),
            decimal(if y < 2025 { (y + 1) as nat } else { y }),
        ),
        step_date_spec(decimal(y), StepType::StepDown, DateType::Yearly) == (
            Ok::<(), SteppingError>(()),
            decimal(if y > 2022 { (y - 1) as nat } else { y }),
        ),
        y < 2025 ==> step_date_spec(decimal((y + 1) as nat), StepType::StepDown, DateType::Yearly)
            == (Ok::<(), SteppingError>(()), decimal(y)),
        y > 2022 ==> step_date_spec(decimal((y - 1) as nat), StepType::StepUp, DateType::Yearly)
            == (Ok::<(), SteppingError>(()), decimal(y)),
{
    lemma_year_text_accepted(y);
    if y < 2025 {
        lemma_year_text_accepted((y + 1) as nat);
    }
    if y > 2022 {
        lemma_year_text_accepted((y - 1) as nat);
    }
}

/// Stepping the text of a day up and then down gives the text back, and so
/// does stepping it down and then up, within 2022-01-01 to 2025-12-31; chrono
/// parses each text involved.
pub proof fn lemma_date_steps_undo(y: nat, m: nat, d: nat)
    requires
        2022 <= y <= 2025,
        valid_ymd(y as int, m as int, d as int),
        chrono_ymd_error(ymd_text(y, m, d)) is None,
    ensures
        !(y == 2025 && m == 12 && d == 31) && chrono_ymd_error(
            step_date_spec(ymd_text(y, m, d), StepType::StepUp, DateType::Exact).1,
        ) is None ==> step_date_spec(
            step_date_spec(ymd_text(y, m, d), StepType::StepUp, DateType::Exact).1,
            StepType::StepDown,
            DateType::Exact,
        ) == (Ok::<(), SteppingError>(()), ymd_text(y, m, d)),
        !(y == 2022 && m == 1 && d == 1) && chrono_ymd_error(
            step_date_spec(ymd_text(y, m, d), StepType::StepDown, DateType::Exact).1,
        ) is None ==> step_date_spec(
            step_date_spec(ymd_text(y, m, d), StepType::StepDown, DateType::Exact).1,
            StepType::StepUp,
            DateType::Exact,
        ) == (Ok::<(), SteppingError>(()), ymd_text(y, m, d)),
{
    lemma_day_steps_undo(y as int, m as int, d as int);
    lemma_step_day_text(y, m, d);
    let (ny, nm, nd) = next_day(y as int, m as int, d as int);
    let (py, pm, pd) = previous_day(y as int, m as int, d as int);
    if !(y == 2025 && m == 12 && d == 31) && chrono_ymd_error(
        ymd_text(ny as nat, nm as nat, nd as nat),
    ) is None {
        lemma_step_day_text(ny as nat, nm as nat, nd as nat);
    }
    if !(y == 2022 && m == 1 && d == 1) && chrono_ymd_error(
        ymd_text(py as nat, pm as nat, pd as nat),
    ) is None {
        lemma_step_day_text(py as nat, pm as nat, pd as nat);
    }
}

/// Taking a character out leaves none of it.
proof fn lemma_removed_absent(s: Seq<char>, c: char)
    ensures
        forall|i: int| 0 <= i < remove_all(s, c).len() ==> #[trigger] remove_all(s, c)[i] != c,
    decreases s.len(),
{
    if s.len() > 0 {
        lemma_removed_absent(s.drop_last(), c);
        let r = remove_all(s.drop_last(), c);
        if s.last() != c {
            assert forall|i: int| 0 <= i < r.push(s.last()).len() implies #[trigger] r.push(
                s.last(),
            )[i] != c by {
                if i < r.len() {
                    assert(r.push(s.last())[i] == r[i]);
                }
            }
        }
    }
}

/// Checking a date that was accepted accepts it again, as it is.
pub proof fn lemma_accepted_date_settles(s: Seq<char>, dt: DateType)
    requires
        verify_date_spec(s, dt).0 is Accepted,
    ensures
        verify_date_spec(verify_date_spec(s, dt).1, dt) == verify_date_spec(s, dt),
{
    let t = remove_all(s, ' ');
    lemma_removed_absent(s, ' ');
    crate::field_checks::lemma_remove_absent(t, ' ');
    assert(t.len() > 0) by {
        lemma_split_nonempty(t, '-');
        if t.len() == 0 {
            assert(split_spec(t, '-') == seq![Seq::<char>::empty()]);
        }
    }
}

} // verus!
