use crate::text::{owned, string_views};
use crate::ui_state::{activity_name, is_activity_name, ActivityType};
use std::collections::HashMap;
use vstd::prelude::*;

verus! {

broadcast use vstd::std_specs::hash::group_hash_axioms;

/// One entry of the activity history: when it happened, what kind of
/// change it was and a description of it.
pub struct ActivityDetails {
    created_on: String,
    pub activity_type: ActivityType,
    pub description: String,
    activity_num: i32,
}

/// The rows of a table, each row a sequence of cell texts.
pub open spec fn rows_view(v: Seq<Vec<String>>) -> Seq<Seq<Seq<char>>> {
    v.map_values(|r: Vec<String>| string_views(r@))
}

impl ActivityDetails {
    /// The date the activity was recorded on.
    pub closed spec fn created(&self) -> Seq<char> {
        self.created_on@
    }

    /// The kind of the activity.
    pub closed spec fn kind(&self) -> ActivityType {
        self.activity_type
    }

    /// The description of the activity.
    pub closed spec fn desc(&self) -> Seq<char> {
        self.description@
    }

    /// The number that ties the activity to its transactions.
    pub closed spec fn num(&self) -> i32 {
        self.activity_num
    }

    /// An activity read back from storage, its kind given by its stored name.
    pub fn new(date: String, activity_type: String, description: String, activity_num: i32) -> (r:
        Self)
        requires
            is_activity_name(activity_type@),
        ensures
            r.created() == date@,
            activity_name(r.kind()) == activity_type@,
            r.desc() == description@,
            r.num() == activity_num,
    {
        let kind = ActivityType::from_s(activity_type.as_str());
        ActivityDetails { created_on: date, activity_type: kind, description, activity_num }
    }

    /// The number that ties the activity to its transactions.
    pub fn activity_num(&self) -> (r: i32)
        ensures
            r == self.num(),
    {
        self.activity_num
    }

    /// The activity as a table row: date, kind, description.
    pub fn to_vec(&self) -> (r: Vec<String>)
        ensures
            string_views(r@) == details_row(*self),
    {
        let r = vec![self.created_on.clone(), self.activity_type.to_str(), self.description.clone()];
        assert(string_views(r@) =~= details_row(*self));
        r
    }
}

/// The table row of an activity: date, kind, description.
pub open spec fn details_row(d: ActivityDetails) -> Seq<Seq<char>> {
    seq![d.created(), activity_name(d.kind()), d.desc()]
}

/// A transaction as it was when an activity touched it.
pub struct ActivityTx {
    pub date: String,
    pub details: String,
    pub tx_method: String,
    pub amount: String,
    pub tx_type: String,
    pub tags: String,
    pub id_num: String,
    activity_num: i32,
    insertion_id: i32,
}

/// The fields of a transaction in table order.
pub open spec fn tx_fields(t: ActivityTx) -> Seq<Seq<char>> {
    t.fields()
}

/// The table row of a transaction. When an id to compare with is given, a
/// last cell says whether this is the newer ("New Tx": its insertion id is
/// that id) or the older version of an edited transaction.
pub open spec fn tx_row(t: ActivityTx, compare_with: Option<i32>) -> Seq<Seq<char>> {
    match compare_with {
        Some(id) => tx_fields(t).push(
            if id == t.insertion() {
                "New Tx"@
            } else {
                "Old Tx"@
            },
        ),
        None => tx_fields(t),
    }
}

impl ActivityTx {
    /// The texts of the transaction: date, details, method, amount, type,
    /// tags and id.
    pub closed spec fn fields(&self) -> Seq<Seq<char>> {
        seq![
            self.date@,
            self.details@,
            self.tx_method@,
            self.amount@,
            self.tx_type@,
            self.tags@,
            self.id_num@,
        ]
    }

    /// The number of the activity this transaction belongs to.
    pub closed spec fn num(&self) -> i32 {
        self.activity_num
    }

    /// The order in which the transaction was recorded.
    pub closed spec fn insertion(&self) -> i32 {
        self.insertion_id
    }

    /// A transaction read back from storage.
    pub fn new(
        date: String,
        details: String,
        tx_method: String,
        amount: String,
        tx_type: String,
        tags: String,
        id_num: String,
        activity_num: i32,
        insertion_id: i32,
    ) -> (r: Self)
        ensures
            r.fields() == seq![date@, details@, tx_method@, amount@, tx_type@, tags@, id_num@],
            r.num() == activity_num && r.insertion() == insertion_id,
    {
        ActivityTx {
            date,
            details,
            tx_method,
            amount,
            tx_type,
            tags,
            id_num,
            activity_num,
            insertion_id,
        }
    }

    /// The number of the activity this transaction belongs to.
    pub fn activity_num(&self) -> (r: i32)
        ensures
            r == self.num(),
    {
        self.activity_num
    }

    /// The transaction as a table row (see `tx_row`).
    pub fn to_vec(&self, smaller_num: Option<i32>) -> (r: Vec<String>)
        ensures
            string_views(r@) == tx_row(*self, smaller_num),
    {
        let mut r = vec![
            self.date.clone(),
            self.details.clone(),
            self.tx_method.clone(),
            self.amount.clone(),
            self.tx_type.clone(),
            self.tags.clone(),
            self.id_num.clone(),
        ];
        assert(string_views(r@) =~= tx_fields(*self));
        if let Some(id) = smaller_num {
            if id == self.insertion_id {
                r.push(owned("New Tx"));
            } else {
                r.push(owned("Old Tx"));
            }
            assert(string_views(r@) =~= tx_row(*self, smaller_num));
        }
        r
    }
}

/// The activities of a month, with the transactions each one touched.
pub struct ActivityData {
    pub activities: Vec<ActivityDetails>,
    activity_txs: HashMap<i32, Vec<ActivityTx>>,
}

/// Which transaction of an activity is the newer one: for an activity with
/// exactly two transactions, the smaller insertion id; none for a swap of
/// positions or any other count.
pub open spec fn newer_id(kind: ActivityType, txs: Seq<ActivityTx>) -> Option<i32> {
    if kind is IDNumSwap {
        None
    } else if txs.len() == 2 {
        if txs[0].insertion() < txs[1].insertion() {
            Some(txs[0].insertion())
        } else {
            Some(txs[1].insertion())
        }
    } else {
        None
    }
}

/// The rows of the transactions of an activity: a swap of positions adds a
/// "New ID" cell to every row.
pub open spec fn activity_tx_rows(kind: ActivityType, txs: Seq<ActivityTx>) -> Seq<Seq<Seq<char>>> {
    Seq::new(
        txs.len(),
        |j: int|
            if kind is IDNumSwap {
                tx_row(txs[j], newer_id(kind, txs)).push("New ID"@)
            } else {
                tx_row(txs[j], newer_id(kind, txs))
            },
    )
}

impl ActivityData {
    /// The activities, in the order they are listed.
    pub closed spec fn list(&self) -> Seq<ActivityDetails> {
        self.activities@
    }

    /// The transactions of each activity, by activity number.
    pub closed spec fn txs(&self) -> Map<i32, Seq<ActivityTx>> {
        self.activity_txs@.map_values(|v: Vec<ActivityTx>| v@)
    }

    /// Whether the activity at `index` has its transactions recorded.
    pub open spec fn has_txs(&self, index: int) -> bool {
        0 <= index < self.list().len() && self.txs().contains_key(
            self.list()[index].num(),
        )
    }

    /// The activities of a month and their transactions, as read from
    /// storage.
    pub fn new(activities: Vec<ActivityDetails>, activity_txs: HashMap<i32, Vec<ActivityTx>>) -> (r:
        Self)
        ensures
            r.list() == activities@,
            r.txs() == activity_txs@.map_values(|v: Vec<ActivityTx>| v@),
    {
        ActivityData { activities, activity_txs }
    }

    /// Every activity as a table row (see `details_row`).
    pub fn get_txs(&self) -> (r: Vec<Vec<String>>)
        ensures
            rows_view(r@) == self.list().map_values(|d: ActivityDetails| details_row(d)),
    {
        let mut txs: Vec<Vec<String>> = Vec::new();
        let mut k: usize = 0;
        while k < self.activities.len()
            invariant
                k <= self.list().len(),
                txs@.len() == k,
                forall|j: int|
                    0 <= j < k ==> #[trigger] string_views(txs@[j]@) == details_row(
                        self.list()[j],
                    ),
            decreases self.list().len() - k,
        {
            let row = self.activities[k].to_vec();
            txs.push(row);
            k = k + 1;
        }
        assert(rows_view(txs@) =~= self.list().map_values(|d: ActivityDetails| details_row(d)));
        txs
    }

    /// The transactions of the activity at `index` as table rows (see
    /// `activity_tx_rows`); none when no activity is selected.
    pub fn get_activity_txs(&self, index: Option<usize>) -> (r: Vec<Vec<String>>)
        requires
            index matches Some(i) ==> self.has_txs(i as int),
        ensures
            rows_view(r@) == match index {
                Some(i) => activity_tx_rows(
                    self.list()[i as int].kind(),
                    self.txs()[self.list()[i as int].num()],
                ),
                None => Seq::empty(),
            },
    {
        let index = match index {
            Some(i) => i,
            None => {
                let r: Vec<Vec<String>> = Vec::new();
                assert(rows_view(r@) =~= Seq::empty());
                return r;
            },
        };
        let kind = self.activities[index].activity_type;
        let target_activity_num = self.activities[index].activity_num();
        let target_txs = match self.activity_txs.get(&target_activity_num) {
            Some(v) => v,
            None => {
                proof {
                    assert(false);
                }
                return Vec::new();
            },
        };
        let ghost ts = target_txs@;
        assert(ts == self.txs()[target_activity_num]);
        let mut is_swap = false;
        let mut smaller_num = if target_txs.len() == 2 {
            let first_tx_id = target_txs[0].insertion_id;
            let second_tx_id = target_txs[1].insertion_id;
            if first_tx_id < second_tx_id {
                Some(first_tx_id)
            } else {
                Some(second_tx_id)
            }
        } else {
            None
        };
        if let ActivityType::IDNumSwap(_, _) = kind {
            is_swap = true;
            smaller_num = None;
        }
        assert(smaller_num == newer_id(kind, ts));
        assert(is_swap == kind is IDNumSwap);
        let mut txs: Vec<Vec<String>> = Vec::new();
        let mut k: usize = 0;
        while k < target_txs.len()
            invariant
                k <= ts.len(),
                ts == target_txs@,
                smaller_num == newer_id(kind, ts),
                is_swap == kind is IDNumSwap,
                txs@.len() == k,
                forall|j: int|
                    0 <= j < k ==> #[trigger] string_views(txs@[j]@) == activity_tx_rows(
                        kind,
                        ts,
                    )[j],
            decreases ts.len() - k,
        {
            let mut data = target_txs[k].to_vec(smaller_num);
            if is_swap {
                data.push(owned("New ID"));
                assert(string_views(data@) =~= tx_row(ts[k as int], smaller_num).push("New ID"@));
            }
            txs.push(data);
            k = k + 1;
        }
        assert(rows_view(txs@) =~= activity_tx_rows(kind, ts));
        txs
    }

    /// Whether there is no activity at all.
    pub fn is_activity_empty(&self) -> (r: bool)
        ensures
            r == (self.list().len() == 0),
    {
        self.activities.len() == 0
    }

    /// Whether the activity at `index` is shown with an extra column: edits
    /// and swaps of positions are.
    pub fn add_extra_field(&self, index: usize) -> (r: bool)
        requires
            index < self.list().len(),
        ensures
            r == (self.list()[index as int].kind() is EditTX
                || self.list()[index as int].kind() is IDNumSwap),
    {
        match self.activities[index].activity_type {
            ActivityType::EditTX(_) => true,
            ActivityType::IDNumSwap(_, _) => true,
            _ => false,
        }
    }
}

} // verus!
