use crate::text::{concat, decimal, owned, usize_to_text};
use vstd::prelude::*;

verus! {

/// The month of a query date: two digits for the first nine months.
pub open spec fn sql_month(month: nat) -> Seq<char> {
    if month < 10 {
        "0"@ + decimal(month)
    } else {
        decimal(month)
    }
}

/// The year of a query date: a year index below nine stands for the year
/// "202" followed by the index plus two; any other value is written as it
/// is.
pub open spec fn sql_year(year: nat) -> Seq<char> {
    if year + 1 < 10 {
        "202"@ + decimal(year + 2)
    } else {
        decimal(year)
    }
}

/// The first and the last date (the 31st) of a month, as written in queries:
/// "YYYY-MM-01" and "YYYY-MM-31".
pub fn get_sql_dates(month: usize, year: usize) -> (r: (String, String))
    requires
        year < usize::MAX,
    ensures
        r.0@ == sql_year(year as nat) + "-"@ + sql_month(month as nat) + "-01"@,
        r.1@ == sql_year(year as nat) + "-"@ + sql_month(month as nat) + "-31"@,
{
    let new_month = if month < 10 {
        let m = usize_to_text(month);
        concat("0", m.as_str())
    } else {
        usize_to_text(month)
    };
    let new_year = if year + 1 < 10 {
        let y = usize_to_text(year + 2);
        concat("202", y.as_str())
    } else {
        usize_to_text(year)
    };
    let a = concat(new_year.as_str(), "-");
    let b = concat(a.as_str(), new_month.as_str());
    let datetime_1 = concat(b.as_str(), "-01");
    let datetime_2 = concat(b.as_str(), "-31");
    (datetime_1, datetime_2)
}

/// The Changes row of a month without transactions: the title and no
/// change for each of the four methods.
pub fn get_empty_changes() -> (r: Vec<String>)
    ensures
        r@.len() == 5,
        r@[0]@ == "Changes"@,
        forall|i: int| 1 <= i < 5 ==> #[trigger] r@[i]@ == "0.00"@,
{
    vec![owned("Changes"), owned("0.00"), owned("0.00"), owned("0.00"), owned("0.00")]
}

} // verus!
