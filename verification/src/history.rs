use crate::activity::rows_view;
use crate::text::{owned, string_views};
use crate::ui_state::{activity_name, is_activity_name, ActivityType};
use std::collections::HashMap;
use vstd::prelude::*;

verus! {

broadcast use vstd::std_specs::hash::group_hash_axioms;

/// One entry of the history of changes: when it happened, what kind of
/// change it was and a description of it.
pub struct ActivityData {
    created_on: String,
    activity_type: ActivityType,
    description: String,
    activity_num: i32,
}

impl ActivityData {
    /// The date the activity was recorded on.
    pub closed spec fn created(&self) -> Seq<char> {
        self.created_on@
    }

    /// The kind of the activity.
    pub closed spec fn kind(&self) -> ActivityType {
        self.activity_type
    }

    /// The description of the activity.
    pub closed spec fn desc(&self) -> Seq<char> {
        self.description@
    }

    /// The number that ties the activity to its transactions.
    pub closed spec fn num(&self) -> i32 {
        self.activity_num
    }

    /// An activity read back from storage, its kind given by its stored name.
    pub fn new(date: String, activity_type: String, description: String, activity_num: i32) -> (r:
        Self)
        requires
            is_activity_name(activity_type@),
        ensures
            r.created() == date@,
            activity_name(r.kind()) == activity_type@,
            r.desc() == description@,
            r.num() == activity_num,
    {
        let kind = ActivityType::from_s(activity_type.as_str());
        ActivityData { created_on: date, activity_type: kind, description, activity_num }
    }

    /// The number that ties the activity to its transactions.
    pub fn activity_num(&self) -> (r: i32)
        ensures
            r == self.num(),
    {
        self.activity_num
    }

    /// The activity as a table row: date, kind, description.
    pub fn to_vec(&self) -> (r: Vec<String>)
        ensures
            string_views(r@) == details_row(*self),
    {
        let r = vec![self.created_on.clone(), self.activity_type.to_str(), self.description.clone()];
        assert(string_views(r@) =~= details_row(*self));
        r
    }
}

/// The table row of an activity: date, kind, description.
pub open spec fn details_row(d: ActivityData) -> Seq<Seq<char>> {
    seq![d.created(), activity_name(d.kind()), d.desc()]
}

/// A transaction as it was when an activity touched it.
pub struct ActivityTx {
    date: String,
    details: String,
    tx_method: String,
    amount: String,
    tx_type: String,
    tags: String,
    id_num: String,
    activity_num: i32,
    insertion_id: i32,
}

/// The fields of a transaction in table order.
pub open spec fn tx_fields(t: ActivityTx) -> Seq<Seq<char>> {
    t.fields()
}

/// The table row of a transaction. When an id to compare with is given, a
/// last cell says whether this is the newer ("New Tx": its insertion id is
/// that id) or the other version of an edited transaction.
pub open spec fn tx_row(t: ActivityTx, compare_with: Option<i32>) -> Seq<Seq<char>> {
    match compare_with {
        Some(id) => tx_fields(t).push(
            if id == t.insertion() {
                "New Tx"@
            } else {
                "Old Tx"@
            },
        ),
        None => tx_fields(t),
    }
}

impl ActivityTx {
    /// The texts of the transaction: date, details, method, amount, type,
    /// tags and id.
    pub closed spec fn fields(&self) -> Seq<Seq<char>> {
        seq![
            self.date@,
            self.details@,
            self.tx_method@,
            self.amount@,
            self.tx_type@,
            self.tags@,
            self.id_num@,
        ]
    }

    /// The number of the activity this transaction belongs to.
    pub closed spec fn num(&self) -> i32 {
        self.activity_num
    }

    /// The order in which the transaction was recorded.
    pub closed spec fn insertion(&self) -> i32 {
        self.insertion_id
    }

    /// A transaction read back from storage.
    pub fn new(
        date: String,
        details: String,
        tx_method: String,
        amount: String,
        tx_type: String,
        tags: String,
        id_num: String,
        activity_num: i32,
        insertion_id: i32,
    ) -> (r: Self)
        ensures
            r.fields() == seq![date@, details@, tx_method@, amount@, tx_type@, tags@, id_num@],
            r.num() == activity_num && r.insertion() == insertion_id,
    {
        ActivityTx {
            date,
            details,
            tx_method,
            amount,
            tx_type,
            tags,
            id_num,
            activity_num,
            insertion_id,
        }
    }

    /// The number of the activity this transaction belongs to.
    pub fn activity_num(&self) -> (r: i32)
        ensures
            r == self.num(),
    {
        self.activity_num
    }

    /// The transaction as a table row (see `tx_row`).
    pub fn to_vec(&self, compare_with: Option<i32>) -> (r: Vec<String>)
        ensures
            string_views(r@) == tx_row(*self, compare_with),
    {
        let mut r = vec![
            self.date.clone(),
            self.details.clone(),
            self.tx_method.clone(),
            self.amount.clone(),
            self.tx_type.clone(),
            self.tags.clone(),
            self.id_num.clone(),
        ];
        assert(string_views(r@) =~= tx_fields(*self));
        if let Some(id) = compare_with {
            if id == self.insertion_id {
                r.push(owned("New Tx"));
            } else {
                r.push(owned("Old Tx"));
            }
            assert(string_views(r@) =~= tx_row(*self, compare_with));
        }
        r
    }
}

/// The activities of a month, with the transactions each one touched.
pub struct HistoryData {
    pub activities: Vec<ActivityData>,
    activity_txs: HashMap<i32, Vec<ActivityTx>>,
}

/// The id the transactions of an activity are compared with: for an
/// activity with exactly two transactions that is not a swap of positions,
/// the insertion id of the first; none otherwise.
pub open spec fn newer_id(kind: ActivityType, txs: Seq<ActivityTx>) -> Option<i32> {
    if txs.len() == 2 && !(kind is IDNumSwap) {
        Some(txs[0].insertion())
    } else {
        None
    }
}

/// Whether the rows of an activity get a "New ID" cell: a swap of positions
/// of exactly two transactions.
pub open spec fn marks_new_id(kind: ActivityType, txs: Seq<ActivityTx>) -> bool {
    txs.len() == 2 && kind is IDNumSwap
}

/// The rows of the transactions of an activity (see `newer_id` and
/// `marks_new_id`).
pub open spec fn activity_tx_rows(kind: ActivityType, txs: Seq<ActivityTx>) -> Seq<Seq<Seq<char>>> {
    Seq::new(
        txs.len(),
        |j: int|
            if marks_new_id(kind, txs) {
                tx_row(txs[j], newer_id(kind, txs)).push("New ID"@)
            } else {
                tx_row(txs[j], newer_id(kind, txs))
            },
    )
}

impl HistoryData {
    /// The activities, in the order they are listed.
    pub closed spec fn list(&self) -> Seq<ActivityData> {
        self.activities@
    }

    /// The transactions of each activity, by activity number.
    pub closed spec fn txs(&self) -> Map<i32, Seq<ActivityTx>> {
        self.activity_txs@.map_values(|v: Vec<ActivityTx>| v@)
    }

    /// Whether the activity at `index` has its transactions recorded.
    pub open spec fn has_txs(&self, index: int) -> bool {
        0 <= index < self.list().len() && self.txs().contains_key(
            self.list()[index].num(),
        )
    }

    /// The activities of a month and their transactions, as read from
    /// storage.
    pub fn new(activities: Vec<ActivityData>, activity_txs: HashMap<i32, Vec<ActivityTx>>) -> (r:
        Self)
        ensures
            r.list() == activities@,
            r.txs() == activity_txs@.map_values(|v: Vec<ActivityTx>| v@),
    {
        HistoryData { activities, activity_txs }
    }

    /// Every activity as a table row (see `details_row`).
    pub fn get_txs(&self) -> (r: Vec<Vec<String>>)
        ensures
            rows_view(r@) == self.list().map_values(|d: ActivityData| details_row(d)),
    {
        let mut txs: Vec<Vec<String>> = Vec::new();
        let mut k: usize = 0;
        while k < self.activities.len()
            invariant
                k <= self.list().len(),
                txs@.len() == k,
                forall|j: int|
                    0 <= j < k ==> #[trigger] string_views(txs@[j]@) == details_row(
                        self.list()[j],
                    ),
            decreases self.list().len() - k,
        {
            let row = self.activities[k].to_vec();
            txs.push(row);
            k = k + 1;
        }
        assert(rows_view(txs@) =~= self.list().map_values(|d: ActivityData| details_row(d)));
        txs
    }

    /// The transactions of the activity at `index` as table rows (see
    /// `activity_tx_rows`); none when no activity is selected.
    pub fn get_activity_txs(&self, index: Option<usize>) -> (r: Vec<Vec<String>>)
        requires
            index matches Some(i) ==> self.has_txs(i as int),
        ensures
            rows_view(r@) == match index {
                Some(i) => activity_tx_rows(
                    self.list()[i as int].kind(),
                    self.txs()[self.list()[i as int].num()],
                ),
                None => Seq::empty(),
            },
    {
        let index = match index {
            Some(i) => i,
            None => {
                let r: Vec<Vec<String>> = Vec::new();
                assert(rows_view(r@) =~= Seq::empty());
                return r;
            },
        };
        let kind = self.activities[index].activity_type;
        let target_activity_num = self.activities[index].activity_num();
        let target_txs = match self.activity_txs.get(&target_activity_num) {
            Some(v) => v,
            None => {
                proof {
                    assert(false);
                }
                return Vec::new();
            },
        };
        let ghost ts = target_txs@;
        assert(ts == self.txs()[target_activity_num]);
        let mut is_swap = false;
        let compare_with = if target_txs.len() == 2 {
            if let ActivityType::IDNumSwap(_, _) = kind {
                is_swap = true;
                None
            } else {
                Some(target_txs[0].insertion_id)
            }
        } else {
            None
        };
        assert(compare_with == newer_id(kind, ts));
        assert(is_swap == marks_new_id(kind, ts));
        let mut txs: Vec<Vec<String>> = Vec::new();
        let mut k: usize = 0;
        while k < target_txs.len()
            invariant
                k <= ts.len(),
                ts == target_txs@,
                compare_with == newer_id(kind, ts),
                is_swap == marks_new_id(kind, ts),
                txs@.len() == k,
                forall|j: int|
                    0 <= j < k ==> #[trigger] string_views(txs@[j]@) == activity_tx_rows(
                        kind,
                        ts,
                    )[j],
            decreases ts.len() - k,
        {
            let mut data = target_txs[k].to_vec(compare_with);
            if is_swap {
                data.push(owned("New ID"));
                assert(string_views(data@) =~= tx_row(ts[k as int], compare_with).push("New ID"@));
            }
            txs.push(data);
            k = k + 1;
        }
        assert(rows_view(txs@) =~= activity_tx_rows(kind, ts));
        txs
    }

    /// Whether there is no activity at all.
    pub fn is_activity_empty(&self) -> (r: bool)
        ensures
            r == (self.list().len() == 0),
    {
        self.activities.len() == 0
    }

    /// Whether the activity at `index` is shown with an extra column: edits
    /// and swaps of positions are.
    pub fn add_extra_field(&self, index: usize) -> (r: bool)
        requires
            index < self.list().len(),
        ensures
            r == (self.list()[index as int].kind() is EditTX
                || self.list()[index as int].kind() is IDNumSwap),
    {
        match self.activities[index].activity_type {
            ActivityType::EditTX(_) => true,
            ActivityType::IDNumSwap(_, _) => true,
            _ => false,
        }
    }
}

} // verus!
