use crate::activity::rows_view;
use crate::date::{dmy_shape, valid_ymd};
use crate::text::digits_value;
use crate::ui_state::IndexedData;
use chrono::Datelike;
use std::collections::HashMap;
use vstd::prelude::*;

verus! {

broadcast use vstd::std_specs::hash::group_hash_axioms;

/// The key under which the data of a month is kept: the month index plus
/// twelve times the year index.
pub open spec fn month_key(month: int, year: int) -> int {
    month + year * 12
}

/// The keys of the months a chart covers: the given month (mode 0), the
/// twelve months of the given year (mode 1), or every month of the four
/// years (mode 2). Any other mode covers nothing.
pub open spec fn chart_keys(mode: int, month: int, year: int) -> Seq<int> {
    if mode == 0 {
        seq![month_key(month, year)]
    } else if mode == 1 {
        Seq::new(12, |i: int| month_key(i, year))
    } else if mode == 2 {
        Seq::new(48, |j: int| j)
    } else {
        Seq::empty()
    }
}

/// The rows kept under the given keys, month after month.
pub open spec fn rows_of(m: Map<i32, Vec<Vec<String>>>, keys: Seq<int>) -> Seq<Seq<Seq<char>>>
    decreases keys.len(),
{
    if keys.len() == 0 {
        Seq::empty()
    } else {
        rows_of(m, keys.drop_last()) + rows_view(m[keys.last() as i32]@)
    }
}

/// The day chrono's `NaiveDate::parse_from_str(s, "%d-%m-%Y")` reads from
/// `s`, as year, month and day, or `None` when it does not parse.
pub uninterp spec fn chrono_dmy_date(s: Seq<char>) -> Option<(i32, u32, u32)>;

/// Reads a date written "DD-MM-YYYY" with chrono's `NaiveDate::parse_from_str`
/// and the format "%d-%m-%Y", and gives its year, month and day
/// (`Datelike::year`, `month`, `day`). The result is named by
/// `chrono_dmy_date`; for a text of that form made of digits the contract
/// adds what chrono documents: it parses exactly when the day exists, and
/// then gives the numbers written. What it reads from other texts is left
/// unsaid.
#[verifier::external_body]
fn chrono_parse_dmy(s: &str) -> (r: Option<(i32, u32, u32)>)
    ensures
        r == chrono_dmy_date(s@),
        dmy_shape(s@) ==> (r is Some <==> valid_ymd(
            digits_value(s@.subrange(6, 10)) as int,
            digits_value(s@.subrange(3, 5)) as int,
            digits_value(s@.subrange(0, 2)) as int,
        )),
        dmy_shape(s@) && r is Some ==> r->0 == (
            digits_value(s@.subrange(6, 10)) as i32,
            digits_value(s@.subrange(3, 5)) as u32,
            digits_value(s@.subrange(0, 2)) as u32,
        ),
{
    match chrono::NaiveDate::parse_from_str(s, "%d-%m-%Y") {
        Ok(day) => Some((day.year(), day.month(), day.day())),
        Err(_) => None,
    }
}

/// Whether every row has a date that chrono reads.
pub open spec fn dates_readable(rows: Seq<Seq<Seq<char>>>) -> bool {
    forall|i: int|
        0 <= i < rows.len() ==> #[trigger] rows[i].len() > 0 && chrono_dmy_date(rows[i][0]) is Some
}

/// The dates of rows, as chrono reads their first field.
pub open spec fn dates_of(rows: Seq<Seq<Seq<char>>>) -> Seq<(i32, u32, u32)> {
    rows.map_values(|row: Seq<Seq<char>>| chrono_dmy_date(row[0])->0)
}

/// The views of a list of borrowed rows.
pub open spec fn borrowed_rows_view(v: Seq<&Vec<String>>) -> Seq<Seq<Seq<char>>> {
    v.map_values(|r: &Vec<String>| crate::text::string_views(r@))
}

/// Every transaction and the balances after each of them, month by month.
pub struct ChartData {
    all_txs: HashMap<i32, Vec<Vec<String>>>,
    all_balance: HashMap<i32, Vec<Vec<String>>>,
}

fn push_rows<'a>(out: &mut Vec<&'a Vec<String>>, rows: &'a Vec<Vec<String>>)
    ensures
        borrowed_rows_view(final(out)@) == borrowed_rows_view(old(out)@) + rows_view(rows@),
{
    let ghost start = old(out)@;
    let mut k: usize = 0;
    while k < rows.len()
        invariant
            k <= rows@.len(),
            out@.len() == start.len() + k,
            forall|j: int| 0 <= j < start.len() ==> #[trigger] out@[j] == start[j],
            forall|j: int|
                0 <= j < k ==> crate::text::string_views(#[trigger] out@[start.len() + j]@)
                    == crate::text::string_views(rows@[j]@),
        decreases rows@.len() - k,
    {
        out.push(&rows[k]);
        k = k + 1;
    }
    assert(borrowed_rows_view(out@) =~= borrowed_rows_view(start) + rows_view(rows@)) by {
        assert forall|j: int| start.len() <= j < out@.len() implies #[trigger] borrowed_rows_view(
            out@,
        )[j] == rows_view(rows@)[j - start.len()] by {
            assert(out@[start.len() + (j - start.len())] == out@[j]);
        }
    }
}

impl ChartData {
    /// The transactions kept for each month key.
    pub closed spec fn txs(&self) -> Map<i32, Vec<Vec<String>>> {
        self.all_txs@
    }

    /// The balances kept for each month key.
    pub closed spec fn balances(&self) -> Map<i32, Vec<Vec<String>>> {
        self.all_balance@
    }

    /// Whether every month a chart covers has its data kept.
    pub open spec fn covers(&self, mode: int, month: int, year: int) -> bool {
        forall|j: int|
            0 <= j < chart_keys(mode, month, year).len() ==> {
                let k = #[trigger] chart_keys(mode, month, year)[j];
                &&& i32::MIN <= k <= i32::MAX
                &&& self.txs().contains_key(k as i32)
                &&& self.balances().contains_key(k as i32)
            }
    }

    /// The data of every month, given in key order (see `month_key`): entry
    /// `k` holds the transactions and the balances of the month with key `k`.
    pub fn new(per_month: Vec<(Vec<Vec<String>>, Vec<Vec<String>>)>) -> (r: Self)
        requires
            per_month@.len() <= i32::MAX,
        ensures
            forall|k: i32|
                (0 <= k < per_month@.len()) == #[trigger] r.txs().contains_key(k),
            forall|k: i32|
                (0 <= k < per_month@.len()) == #[trigger] r.balances().contains_key(k),
            forall|k: i32|
                0 <= k < per_month@.len() ==> #[trigger] r.txs()[k] == per_month@[k as int].0
                    && r.balances()[k] == per_month@[k as int].1,
    {
        let ghost months = per_month@;
        let mut all_txs: HashMap<i32, Vec<Vec<String>>> = HashMap::new();
        let mut all_balance: HashMap<i32, Vec<Vec<String>>> = HashMap::new();
        let mut rest = per_month;
        let mut k: i32 = 0;
        let n = rest.len();
        while k < n as i32
            invariant
                n == months.len(),
                n <= i32::MAX,
                0 <= k <= n,
                rest@.len() == n - k,
                rest@ == months.subrange(k as int, n as int),
                forall|i: i32| (0 <= i < k) == #[trigger] all_txs@.contains_key(i),
                forall|i: i32| (0 <= i < k) == #[trigger] all_balance@.contains_key(i),
                forall|i: i32|
                    0 <= i < k ==> #[trigger] all_txs@[i] == months[i as int].0 && all_balance@[i]
                        == months[i as int].1,
            decreases n - k,
        {
            let (t, b) = rest.remove(0);
            assert((t, b) == months[k as int]);
            all_txs.insert(k, t);
            all_balance.insert(k, b);
            k = k + 1;
        }
        ChartData { all_txs, all_balance }
    }

    /// The transactions and the balances of the months the chart covers (see
    /// `chart_keys`), month after month; nothing for an unknown mode.
    pub fn get_data(&self, mode: &IndexedData, month: usize, year: usize) -> (r: (
        Vec<&Vec<String>>,
        Vec<&Vec<String>>,
    ))
        requires
            self.covers(mode.index as int, month as int, year as int),
            month <= i32::MAX,
            year <= i32::MAX,
        ensures
            borrowed_rows_view(r.0@) == rows_of(
                self.txs(),
                chart_keys(mode.index as int, month as int, year as int),
            ),
            borrowed_rows_view(r.1@) == rows_of(
                self.balances(),
                chart_keys(mode.index as int, month as int, year as int),
            ),
    {
        let ghost keys = chart_keys(mode.index as int, month as int, year as int);
        let mut to_return_tx: Vec<&Vec<String>> = Vec::new();
        let mut to_return_balance: Vec<&Vec<String>> = Vec::new();
        if mode.index == 0 {
            assert(keys[0] == month_key(month as int, year as int));
            let target_id = month as i32 + (year as i32 * 12);
            assert(borrowed_rows_view(to_return_tx@) =~= Seq::empty());
            assert(borrowed_rows_view(to_return_balance@) =~= Seq::empty());
            self.push_month(&mut to_return_tx, &mut to_return_balance, target_id);
            assert(keys.drop_last() =~= Seq::<int>::empty());
            assert(keys.last() as i32 == target_id);
            assert(rows_of(self.txs(), keys.drop_last()) =~= Seq::empty());
            assert(rows_of(self.balances(), keys.drop_last()) =~= Seq::empty());
            assert(borrowed_rows_view(to_return_tx@) =~= rows_of(self.txs(), keys));
            assert(borrowed_rows_view(to_return_balance@) =~= rows_of(self.balances(), keys));
        } else if mode.index == 1 {
            let mut i: i32 = 0;
            while i < 12
                invariant
                    0 <= i <= 12,
                    keys == Seq::new(12, |i: int| month_key(i, year as int)),
                    keys == chart_keys(1, month as int, year as int),
                    year <= i32::MAX,
                    self.covers(1, month as int, year as int),
                    borrowed_rows_view(to_return_tx@) == rows_of(
                        self.txs(),
                        keys.subrange(0, i as int),
                    ),
                    borrowed_rows_view(to_return_balance@) == rows_of(
                        self.balances(),
                        keys.subrange(0, i as int),
                    ),
                decreases 12 - i,
            {
                assert(keys[i as int] == month_key(i as int, year as int));
                assert(keys[0] == month_key(0, year as int));
                let target_id = i + (year as i32 * 12);
                self.push_month(&mut to_return_tx, &mut to_return_balance, target_id);
                assert(keys.subrange(0, i + 1).drop_last() =~= keys.subrange(0, i as int));
                i = i + 1;
            }
            assert(keys.subrange(0, 12) =~= keys);
        } else if mode.index == 2 {
            let mut x: i32 = 0;
            while x < 4
                invariant
                    0 <= x <= 4,
                    keys == Seq::new(48, |j: int| j),
                    keys == chart_keys(2, month as int, year as int),
                    self.covers(2, month as int, year as int),
                    borrowed_rows_view(to_return_tx@) == rows_of(
                        self.txs(),
                        keys.subrange(0, x * 12),
                    ),
                    borrowed_rows_view(to_return_balance@) == rows_of(
                        self.balances(),
                        keys.subrange(0, x * 12),
                    ),
                decreases 4 - x,
            {
                let mut i: i32 = 0;
                while i < 12
                    invariant
                        0 <= x < 4,
                        0 <= i <= 12,
                        keys == Seq::new(48, |j: int| j),
                        keys == chart_keys(2, month as int, year as int),
                        self.covers(2, month as int, year as int),
                        borrowed_rows_view(to_return_tx@) == rows_of(
                            self.txs(),
                            keys.subrange(0, x * 12 + i),
                        ),
                        borrowed_rows_view(to_return_balance@) == rows_of(
                            self.balances(),
                            keys.subrange(0, x * 12 + i),
                        ),
                    decreases 12 - i,
                {
                    let target_id = i + x * 12;
                    assert(keys[target_id as int] == target_id);
                    self.push_month(&mut to_return_tx, &mut to_return_balance, target_id);
                    assert(keys.subrange(0, x * 12 + i + 1).drop_last() =~= keys.subrange(
                        0,
                        x * 12 + i,
                    ));
                    i = i + 1;
                }
                x = x + 1;
            }
            assert(keys.subrange(0, 48) =~= keys);
        } else {
            assert(borrowed_rows_view(to_return_tx@) =~= rows_of(self.txs(), keys));
            assert(borrowed_rows_view(to_return_balance@) =~= rows_of(self.balances(), keys));
        }
        (to_return_tx, to_return_balance)
    }

    /// The dates of the transactions the chart covers (see `get_data`), in
    /// order, as year, month and day.
    pub fn get_all_dates(&self, mode: &IndexedData, month: usize, year: usize) -> (r: Vec<
        (i32, u32, u32),
    >)
        requires
            self.covers(mode.index as int, month as int, year as int),
            month <= i32::MAX,
            year <= i32::MAX,
            dates_readable(
                rows_of(self.txs(), chart_keys(mode.index as int, month as int, year as int)),
            ),
        ensures
            r@ == dates_of(
                rows_of(self.txs(), chart_keys(mode.index as int, month as int, year as int)),
            ),
    {
        let ghost rows = rows_of(self.txs(), chart_keys(mode.index as int, month as int, year as int));
        let (txs, _) = self.get_data(mode, month, year);
        let mut out: Vec<(i32, u32, u32)> = Vec::new();
        let mut k: usize = 0;
        while k < txs.len()
            invariant
                k <= txs@.len(),
                borrowed_rows_view(txs@) == rows,
                dates_readable(rows),
                out@ == dates_of(rows.subrange(0, k as int)),
            decreases txs@.len() - k,
        {
            assert(rows[k as int] == crate::text::string_views(txs@[k as int]@));
            assert(rows[k as int].len() > 0);
            assert(rows[k as int][0] == txs@[k as int]@[0]@);
            match chrono_parse_dmy(txs[k][0].as_str()) {
                Some(day) => out.push(day),
                None => {
                    proof {
                        assert(false);
                    }
                },
            }
            assert(dates_of(rows.subrange(0, k + 1)) =~= dates_of(rows.subrange(0, k as int)).push(
                chrono_dmy_date(rows[k as int][0])->0,
            ));
            k = k + 1;
        }
        assert(rows.subrange(0, txs@.len() as int) =~= rows);
        out
    }

    /// The dates of the transactions the chart covers, when chrono reads all
    /// of them (see `get_all_dates`); `None` when a row has no date or one
    /// that does not read.
    pub fn checked_dates(&self, mode: &IndexedData, month: usize, year: usize) -> (r: Option<
        Vec<(i32, u32, u32)>,
    >)
        requires
            self.covers(mode.index as int, month as int, year as int),
            month <= i32::MAX,
            year <= i32::MAX,
        ensures
            ({
                let rows = rows_of(self.txs(), chart_keys(mode.index as int, month as int, year as int));
                match r {
                    Some(d) => dates_readable(rows) && d@ == dates_of(rows),
                    None => !dates_readable(rows),
                }
            }),
    {
        let ghost rows = rows_of(self.txs(), chart_keys(mode.index as int, month as int, year as int));
        let (txs, _) = self.get_data(mode, month, year);
        let mut k: usize = 0;
        while k < txs.len()
            invariant
                k <= txs@.len(),
                borrowed_rows_view(txs@) == rows,
                rows == rows_of(self.txs(), chart_keys(mode.index as int, month as int, year as int)),
                forall|i: int|
                    0 <= i < k ==> #[trigger] rows[i].len() > 0 && chrono_dmy_date(rows[i][0]) is Some,
            decreases txs@.len() - k,
        {
            assert(rows[k as int] == crate::text::string_views(txs@[k as int]@));
            if txs[k].len() == 0 {
                assert(rows[k as int].len() == 0);
                return None;
            }
            assert(rows[k as int][0] == txs@[k as int]@[0]@);
            if chrono_parse_dmy(txs[k][0].as_str()).is_none() {
                assert(chrono_dmy_date(rows[k as int][0]) is None);
                assert(rows[k as int].len() > 0);
                return None;
            }
            k = k + 1;
        }
        Some(self.get_all_dates(mode, month, year))
    }

    fn push_month<'a>(
        &'a self,
        txs: &mut Vec<&'a Vec<String>>,
        balances: &mut Vec<&'a Vec<String>>,
        key: i32,
    )
        requires
            self.txs().contains_key(key),
            self.balances().contains_key(key),
        ensures
            borrowed_rows_view(final(txs)@) == borrowed_rows_view(old(txs)@) + rows_view(
                self.txs()[key]@,
            ),
            borrowed_rows_view(final(balances)@) == borrowed_rows_view(old(balances)@) + rows_view(
                self.balances()[key]@,
            ),
    {
        match self.all_txs.get(&key) {
            Some(rows) => push_rows(txs, rows),
            None => {
                proof {
                    assert(false);
                }
            },
        }
        match self.all_balance.get(&key) {
            Some(rows) => push_rows(balances, rows),
            None => {
                proof {
                    assert(false);
                }
            },
        }
    }
}

} // verus!
