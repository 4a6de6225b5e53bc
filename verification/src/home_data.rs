use crate::activity::rows_view;
use crate::text::{owned, parse_i32, parse_i32_spec, string_views};
use vstd::prelude::*;

verus! {

/// The transactions of a month as shown on the Home page: each row is
/// `[date, details, tx_method, amount, tx_type, tags]`; beside each row the
/// balance of every method after it, the change it made to every method,
/// and its id number.
pub struct TransactionData {
    all_tx: Vec<Vec<String>>,
    all_balance: Vec<Vec<String>>,
    all_changes: Vec<Vec<String>>,
    all_id_num: Vec<String>,
}

/// The content of a `TransactionData`.
pub struct TransactionView {
    pub all_tx: Seq<Seq<Seq<char>>>,
    pub all_balance: Seq<Seq<Seq<char>>>,
    pub all_changes: Seq<Seq<Seq<char>>>,
    pub all_id_num: Seq<Seq<char>>,
}

impl View for TransactionData {
    type V = TransactionView;

    closed spec fn view(&self) -> TransactionView {
        TransactionView {
            all_tx: rows_view(self.all_tx@),
            all_balance: rows_view(self.all_balance@),
            all_changes: rows_view(self.all_changes@),
            all_id_num: string_views(self.all_id_num@),
        }
    }
}

/// A copy of a row of texts.
pub fn clone_row(row: &Vec<String>) -> (r: Vec<String>)
    ensures
        string_views(r@) == string_views(row@),
{
    let mut r: Vec<String> = Vec::new();
    let mut k: usize = 0;
    while k < row.len()
        invariant
            k <= row@.len(),
            r@.len() == k,
            forall|j: int| 0 <= j < k ==> #[trigger] r@[j]@ == row@[j]@,
        decreases row@.len() - k,
    {
        r.push(row[k].clone());
        k = k + 1;
    }
    assert(string_views(r@) =~= string_views(row@));
    r
}

/// A copy of a table of texts.
pub fn clone_rows(rows: &Vec<Vec<String>>) -> (r: Vec<Vec<String>>)
    ensures
        rows_view(r@) == rows_view(rows@),
{
    let mut r: Vec<Vec<String>> = Vec::new();
    let mut k: usize = 0;
    while k < rows.len()
        invariant
            k <= rows@.len(),
            r@.len() == k,
            forall|j: int| 0 <= j < k ==> #[trigger] string_views(r@[j]@) == string_views(rows@[j]@),
        decreases rows@.len() - k,
    {
        r.push(clone_row(&rows[k]));
        k = k + 1;
    }
    assert(rows_view(r@) =~= rows_view(rows@));
    r
}

/// A row headed by a title.
pub open spec fn titled(title: Seq<char>, row: Seq<Seq<char>>) -> Seq<Seq<char>> {
    seq![title] + row
}

impl TransactionData {
    /// The data of a month, as read from storage.
    pub fn new(
        all_tx: Vec<Vec<String>>,
        all_balance: Vec<Vec<String>>,
        all_changes: Vec<Vec<String>>,
        all_id_num: Vec<String>,
    ) -> (r: Self)
        ensures
            r@.all_tx == rows_view(all_tx@),
            r@.all_balance == rows_view(all_balance@),
            r@.all_changes == rows_view(all_changes@),
            r@.all_id_num == string_views(all_id_num@),
    {
        TransactionData { all_tx, all_balance, all_changes, all_id_num }
    }

    /// The transactions found by a search, with their id numbers and no
    /// balances or changes.
    pub fn new_search(all_tx: Vec<Vec<String>>, all_id_num: Vec<String>) -> (r: Self)
        ensures
            r@.all_tx == rows_view(all_tx@),
            r@.all_balance.len() == 0,
            r@.all_changes.len() == 0,
            r@.all_id_num == string_views(all_id_num@),
    {
        let r = TransactionData {
            all_tx,
            all_balance: Vec::new(),
            all_changes: Vec::new(),
            all_id_num,
        };
        assert(r@.all_balance =~= Seq::empty());
        r
    }

    /// A copy of every transaction row.
    pub fn get_txs(&self) -> (r: Vec<Vec<String>>)
        ensures
            rows_view(r@) == self@.all_tx,
    {
        clone_rows(&self.all_tx)
    }

    /// Whether there is no transaction.
    pub fn is_tx_empty(&self) -> (r: bool)
        ensures
            r == (self@.all_tx.len() == 0),
    {
        self.all_tx.len() == 0
    }

    /// The balances after the transaction at `index`, as stored.
    pub fn get_balance_row(&self, index: usize) -> (r: &Vec<String>)
        requires
            index < self@.all_balance.len(),
        ensures
            string_views(r@) == self@.all_balance[index as int],
    {
        &self.all_balance[index]
    }

    /// The changes made by the transaction at `index`, headed by "Changes".
    pub fn get_changes(&self, index: usize) -> (r: Vec<String>)
        requires
            index < self@.all_changes.len(),
        ensures
            string_views(r@) == titled("Changes"@, self@.all_changes[index as int]),
    {
        let mut changes_data = vec![owned("Changes")];
        let row = &self.all_changes[index];
        let mut k: usize = 0;
        while k < row.len()
            invariant
                k <= row@.len(),
                changes_data@.len() == k + 1,
                changes_data@[0]@ == "Changes"@,
                forall|j: int| 0 <= j < k ==> #[trigger] changes_data@[j + 1]@ == row@[j]@,
            decreases row@.len() - k,
        {
            changes_data.push(row[k].clone());
            k = k + 1;
        }
        assert(string_views(changes_data@) =~= titled("Changes"@, string_views(row@))) by {
            assert forall|j: int| 1 <= j < changes_data@.len() implies #[trigger] changes_data@[j]@
                == row@[j - 1]@ by {
                assert(changes_data@[(j - 1) + 1] == changes_data@[j]);
            }
        }
        changes_data
    }

    /// The id number of the transaction at `index`.
    pub fn get_id_num(&self, index: usize) -> (r: i32)
        requires
            index < self@.all_id_num.len(),
            parse_i32_spec(self@.all_id_num[index as int]) is Some,
        ensures
            Some(r) == parse_i32_spec(self@.all_id_num[index as int]),
    {
        match parse_i32(self.all_id_num[index].as_str()) {
            Some(v) => v,
            None => 0,
        }
    }

    /// The id number of the transaction at `index`, when there is one and
    /// its id is a number.
    pub fn checked_id_num(&self, index: usize) -> (r: Option<i32>)
        ensures
            index < self@.all_id_num.len() ==> r == parse_i32_spec(self@.all_id_num[index as int]),
            index >= self@.all_id_num.len() ==> r is None,
    {
        if index < self.all_id_num.len() {
            parse_i32(self.all_id_num[index].as_str())
        } else {
            None
        }
    }

    /// The transaction row at `index`.
    pub fn get_tx(&self, index: usize) -> (r: &Vec<String>)
        requires
            index < self@.all_tx.len(),
        ensures
            string_views(r@) == self@.all_tx[index as int],
    {
        &self.all_tx[index]
    }
}

} // verus!
