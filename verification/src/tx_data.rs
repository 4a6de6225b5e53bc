use crate::date::{step_date, step_date_spec, verify_date, verify_date_spec};
use crate::field_checks::{
    step_tx_type, step_tx_type_spec, verify_tags, verify_tags_spec, verify_tx_type,
    verify_tx_type_spec,
};
use crate::amount::{check_comparison, replace_text, replaced, ComparisonType};
use crate::method_match::{
    first_index_of, lemma_first_index_stays, methods_fit, methods_usable, ranked_method_spec,
    step_method_spec, step_tx_method, verify_ranked_method,
};
use crate::outputs::{CheckingError, NAType, StepType, SteppingError, TxType, VerifyingOutput};
use crate::text::{
    byte_len, str_len, text_len, add_char_to, ascii_lower, char_count, chars_of, concat, edit_at_cursor, join, join_spec, owned,
    split_char, split_spec, str_eq, string_views, to_ascii_lowercase, trim, trim_spec,
    contains_char, has_char, lower, lowercase,
};
use crate::ui_state::{DateType, TxTab};
use vstd::prelude::*;

verus! {

/// The fields of a transaction being entered, as the user typed them.
pub struct TxData {
    date: String,
    details: String,
    from_method: String,
    to_method: String,
    amount: String,
    tx_type: String,
    tags: String,
    tx_status: Vec<String>,
    editing_tx: bool,
    id_num: i32,
    current_index: usize,
    autofill: String,
}

/// The content of a `TxData`.
pub struct TxDataView {
    pub date: Seq<char>,
    pub details: Seq<char>,
    pub from_method: Seq<char>,
    pub to_method: Seq<char>,
    pub amount: Seq<char>,
    pub tx_type: Seq<char>,
    pub tags: Seq<char>,
    pub tx_status: Seq<Seq<char>>,
    pub editing_tx: bool,
    pub id_num: i32,
    pub current_index: nat,
    pub autofill: Seq<char>,
}

impl View for TxData {
    type V = TxDataView;

    closed spec fn view(&self) -> TxDataView {
        TxDataView {
            date: self.date@,
            details: self.details@,
            from_method: self.from_method@,
            to_method: self.to_method@,
            amount: self.amount@,
            tx_type: self.tx_type@,
            tags: self.tags@,
            tx_status: string_views(self.tx_status@),
            editing_tx: self.editing_tx,
            id_num: self.id_num,
            current_index: self.current_index as nat,
            autofill: self.autofill@,
        }
    }
}

/// The field of a transaction that a tab of the Add Transaction page edits
/// (`None` for no field).
pub open spec fn field_of(v: TxDataView, tab: TxTab) -> Option<Seq<char>> {
    match tab {
        TxTab::Date => Some(v.date),
        TxTab::Details => Some(v.details),
        TxTab::FromMethod => Some(v.from_method),
        TxTab::ToMethod => Some(v.to_method),
        TxTab::Amount => Some(v.amount),
        TxTab::TxType => Some(v.tx_type),
        TxTab::Tags => Some(v.tags),
        TxTab::Nothing => None,
    }
}

/// The length of the field a tab edits, in bytes as `str::len` counts them
/// (0 for no field).
pub open spec fn field_len(v: TxDataView, tab: TxTab) -> nat {
    match field_of(v, tab) {
        Some(f) => str_len(f),
        None => 0,
    }
}

/// Whether two views agree on everything but the cursor.
pub open spec fn same_but_cursor(a: TxDataView, b: TxDataView) -> bool {
    &&& a.date == b.date
    &&& a.details == b.details
    &&& a.from_method == b.from_method
    &&& a.to_method == b.to_method
    &&& a.amount == b.amount
    &&& a.tx_type == b.tx_type
    &&& a.tags == b.tags
    &&& a.tx_status == b.tx_status
    &&& a.editing_tx == b.editing_tx
    &&& a.id_num == b.id_num
    &&& a.autofill == b.autofill
}

/// The status lines after adding one: the oldest is dropped when thirty are
/// already shown.
pub open spec fn push_status(s: Seq<Seq<char>>, data: Seq<char>) -> Seq<Seq<char>> {
    if s.len() == 30 {
        s.drop_first().push(data)
    } else {
        s.push(data)
    }
}

/// The date of an edited transaction: "DD-MM-YYYY" turned into "YYYY-MM-DD"
/// (the first three '-' separated parts, in reverse order).
pub open spec fn reorder_date(date: Seq<char>) -> Seq<char> {
    let p = split_spec(date, '-');
    p[2] + "-"@ + p[1] + "-"@ + p[0]
}

/// The problem that keeps a transaction from being saved, if any.
pub open spec fn missing_field(v: TxDataView) -> Option<CheckingError> {
    if v.date.len() == 0 {
        Some(CheckingError::EmptyDate)
    } else if v.from_method.len() == 0 && v.tx_type != "Transfer"@ {
        Some(CheckingError::EmptyMethod)
    } else if v.amount.len() == 0 {
        Some(CheckingError::EmptyAmount)
    } else if v.tx_type.len() == 0 {
        Some(CheckingError::EmptyTxType)
    } else if v.tx_type == "Transfer"@ && v.from_method == v.to_method {
        Some(CheckingError::SameTxMethod)
    } else if v.tx_type == "Transfer"@ && (v.from_method.len() == 0 || v.to_method.len() == 0) {
        Some(CheckingError::EmptyMethod)
    } else {
        None
    }
}

/// The method text saved with a transaction: "A to B" for a transfer, else
/// the from method.
pub open spec fn tx_method_text(v: TxDataView) -> Seq<char> {
    if v.tx_type == "Transfer"@ {
        v.from_method + " to "@ + v.to_method
    } else {
        v.from_method
    }
}

/// The tags after accepting the suggestion: the last comma separated tag is
/// replaced by the suggestion and the tags are joined with ", ".
pub open spec fn tags_with_suggestion(tags: Seq<char>, suggestion: Seq<char>) -> Seq<char> {
    let parts = split_spec(tags, ',').map_values(|p: Seq<char>| trim_spec(p));
    join_spec(parts.drop_last().push(suggestion), ", "@)
}

/// What the 'b' shortcut gives for an amount, with the amount afterwards: in
/// an amount holding 'b' (in any case), every 'b' of its lower case becomes
/// the balance of the method the money leaves, when that method is known; the
/// amount is kept when it is not. Without a method the value of 'b' is
/// unknown.
pub open spec fn b_field_spec(
    amount: Seq<char>,
    from: Seq<char>,
    methods: Seq<Seq<char>>,
    balances: Seq<Seq<char>>,
) -> (Result<(), VerifyingOutput>, Seq<char>) {
    let l = lowercase(amount);
    if has_char(l, 'b') {
        if from.len() > 0 {
            match first_index_of(methods, from, methods.len() as int) {
                Some(x) => (Ok(()), replaced(l, seq!['b'], balances[x])),
                None => (Ok(()), amount),
            }
        } else {
            (Err(VerifyingOutput::NotAccepted(NAType::InvalidBValue)), amount)
        }
    } else {
        (Ok(()), amount)
    }
}

/// The amount to check and the comparison it asks for: the lower case of the
/// amount, and, when searching, the comparison it starts with, whose symbol
/// is taken out of it.
pub open spec fn amount_parts(amount: Seq<char>, is_search: bool) -> (ComparisonType, Seq<char>) {
    let l = lowercase(amount);
    let c = if is_search {
        crate::amount::comparison_of(l)
    } else {
        ComparisonType::Equal
    };
    match c.symbol_spec() {
        Some(sym) => (c, replaced(l, sym, Seq::<char>::empty())),
        None => (c, l),
    }
}

/// A transaction ready to be written to the database.
pub struct TxSubmission {
    pub date: String,
    pub details: String,
    pub tx_method: String,
    pub amount: String,
    pub tx_type: String,
    pub tags: String,
    /// The id of the transaction being edited: it is to be deleted and the
    /// new one saved under the same id.
    pub replaces_id: Option<i32>,
}

impl TxData {
    /// A transaction dated with the local date and no other field filled.
    pub fn new() -> (r: Self)
        ensures
            r@.details.len() == 0 && r@.from_method.len() == 0 && r@.to_method.len() == 0,
            r@.amount.len() == 0 && r@.tx_type.len() == 0 && r@.tags.len() == 0,
            r@.tx_status.len() == 0 && r@.autofill.len() == 0,
            !r@.editing_tx && r@.id_num == 0 && r@.current_index == 0,
        r@.date.len() == 10 && crate::clock::written_date(r@.date),
    {
        let date = crate::clock::local_date_text();
        TxData {
            date,
            details: String::new(),
            from_method: String::new(),
            to_method: String::new(),
            amount: String::new(),
            tx_type: String::new(),
            tags: String::new(),
            tx_status: Vec::new(),
            editing_tx: false,
            id_num: 0,
            current_index: 0,
            autofill: String::new(),
        }
    }

    /// A transaction with every field empty.
    pub fn new_empty() -> (r: Self)
        ensures
            r@.date.len() == 0 && r@.details.len() == 0 && r@.from_method.len() == 0,
            r@.to_method.len() == 0 && r@.amount.len() == 0 && r@.tx_type.len() == 0,
            r@.tags.len() == 0 && r@.tx_status.len() == 0 && r@.autofill.len() == 0,
            !r@.editing_tx && r@.id_num == 0 && r@.current_index == 0,
    {
        TxData {
            date: String::new(),
            details: String::new(),
            from_method: String::new(),
            to_method: String::new(),
            amount: String::new(),
            tx_type: String::new(),
            tags: String::new(),
            tx_status: Vec::new(),
            editing_tx: false,
            id_num: 0,
            current_index: 0,
            autofill: String::new(),
        }
    }

    /// The fields of a saved transaction, to be edited. The date comes as
    /// "DD-MM-YYYY" (as the tables show it) and is stored as "YYYY-MM-DD".
    pub fn custom(
        date: &str,
        details: &str,
        from_method: &str,
        to_method: &str,
        amount: &str,
        tx_type: &str,
        tags: &str,
        id_num: i32,
    ) -> (r: Self)
        requires
            date@.len() > 0 ==> split_spec(date@, '-').len() >= 3,
        ensures
            r@.date == (if date@.len() > 0 {
                reorder_date(date@)
            } else {
                Seq::<char>::empty()
            }),
            r@.details == details@ && r@.from_method == from_method@ && r@.to_method == to_method@,
            r@.amount == amount@ && r@.tx_type == tx_type@ && r@.tags == tags@,
            r@.tx_status.len() == 0 && r@.autofill.len() == 0,
            r@.editing_tx && r@.id_num == id_num && r@.current_index == 0,
    {
        let new_date = if char_count(date) > 0 {
            reorder_date_text(date)
        } else {
            String::new()
        };
        TxData {
            date: new_date,
            details: owned(details),
            from_method: owned(from_method),
            to_method: owned(to_method),
            amount: owned(amount),
            tx_type: owned(tx_type),
            tags: owned(tags),
            tx_status: Vec::new(),
            editing_tx: true,
            id_num,
            current_index: 0,
            autofill: String::new(),
        }
    }

    /// Every field shown on the page: date, details, from method, to method,
    /// amount, type, tags and the autofill suggestion.
    pub fn get_all_texts(&self) -> (r: Vec<&str>)
        ensures
            r@.len() == 8,
            r@[0]@ == self@.date && r@[1]@ == self@.details && r@[2]@ == self@.from_method,
            r@[3]@ == self@.to_method && r@[4]@ == self@.amount && r@[5]@ == self@.tx_type,
            r@[6]@ == self@.tags && r@[7]@ == self@.autofill,
    {
        vec![
            self.date.as_str(),
            self.details.as_str(),
            self.from_method.as_str(),
            self.to_method.as_str(),
            self.amount.as_str(),
            self.tx_type.as_str(),
            self.tags.as_str(),
            self.autofill.as_str(),
        ]
    }

    /// The method text saved with the transaction.
    fn get_tx_method(&self) -> (r: String)
        ensures
            r@ == tx_method_text(self@),
    {
        if str_eq(self.tx_type.as_str(), "Transfer") {
            let a = concat(self.from_method.as_str(), " to ");
            concat(a.as_str(), self.to_method.as_str())
        } else {
            self.from_method.clone()
        }
    }

    /// The status lines shown on the page, oldest first.
    pub fn get_tx_status(&self) -> (r: &Vec<String>)
        ensures
            string_views(r@) == self@.tx_status,
    {
        &self.tx_status
    }

    /// Whether the type names a transfer: its first letter is 't' or 'T'.
    /// Anything else (also an empty type) counts as income or expense.
    pub fn get_tx_type(&self) -> (r: TxType)
        ensures
            r == (if self@.tx_type.len() > 0 && ascii_lower(self@.tx_type[0]) == 't' {
                TxType::Transfer
            } else {
                TxType::IncomeExpense
            }),
    {
        let v = chars_of(self.tx_type.as_str());
        if v.len() > 0 {
            let first = to_ascii_lowercase(v[0]);
            if first == 't' {
                return TxType::Transfer;
            }
        }
        TxType::IncomeExpense
    }

    /// Inserts a character at the cursor of the date field, or removes the one
    /// before it.
    pub fn edit_date(&mut self, to_add: Option<char>)
        requires
            byte_len(old(self)@.date) + 4 <= usize::MAX,
        ensures
            (final(self)@.current_index, final(self)@.date) == edit_at_cursor(
                to_add,
                old(self)@.current_index,
                old(self)@.date,
            ),
            final(self)@ == (TxDataView {
                date: final(self)@.date,
                current_index: final(self)@.current_index,
                ..old(self)@
            }),
    {
        add_char_to(to_add, &mut self.current_index, &mut self.date);
    }

    /// Inserts a character at the cursor of the details field, or removes the
    /// one before it.
    pub fn edit_details(&mut self, to_add: Option<char>)
        requires
            byte_len(old(self)@.details) + 4 <= usize::MAX,
        ensures
            (final(self)@.current_index, final(self)@.details) == edit_at_cursor(
                to_add,
                old(self)@.current_index,
                old(self)@.details,
            ),
            final(self)@ == (TxDataView {
                details: final(self)@.details,
                current_index: final(self)@.current_index,
                ..old(self)@
            }),
    {
        add_char_to(to_add, &mut self.current_index, &mut self.details);
    }

    /// Inserts a character at the cursor of the from method field, or removes
    /// the one before it.
    pub fn edit_from_method(&mut self, to_add: Option<char>)
        requires
            byte_len(old(self)@.from_method) + 4 <= usize::MAX,
        ensures
            (final(self)@.current_index, final(self)@.from_method) == edit_at_cursor(
                to_add,
                old(self)@.current_index,
                old(self)@.from_method,
            ),
            final(self)@ == (TxDataView {
                from_method: final(self)@.from_method,
                current_index: final(self)@.current_index,
                ..old(self)@
            }),
    {
        add_char_to(to_add, &mut self.current_index, &mut self.from_method);
    }

    /// Inserts a character at the cursor of the to method field, or removes the
    /// one before it.
    pub fn edit_to_method(&mut self, to_add: Option<char>)
        requires
            byte_len(old(self)@.to_method) + 4 <= usize::MAX,
        ensures
            (final(self)@.current_index, final(self)@.to_method) == edit_at_cursor(
                to_add,
                old(self)@.current_index,
                old(self)@.to_method,
            ),
            final(self)@ == (TxDataView {
                to_method: final(self)@.to_method,
                current_index: final(self)@.current_index,
                ..old(self)@
            }),
    {
        add_char_to(to_add, &mut self.current_index, &mut self.to_method);
    }

    /// Inserts a character at the cursor of the amount field, or removes the
    /// one before it.
    pub fn edit_amount(&mut self, to_add: Option<char>)
        requires
            byte_len(old(self)@.amount) + 4 <= usize::MAX,
        ensures
            (final(self)@.current_index, final(self)@.amount) == edit_at_cursor(
                to_add,
                old(self)@.current_index,
                old(self)@.amount,
            ),
            final(self)@ == (TxDataView {
                amount: final(self)@.amount,
                current_index: final(self)@.current_index,
                ..old(self)@
            }),
    {
        add_char_to(to_add, &mut self.current_index, &mut self.amount);
    }

    /// Inserts a character at the cursor of the type field, or removes the one
    /// before it.
    pub fn edit_tx_type(&mut self, to_add: Option<char>)
        requires
            byte_len(old(self)@.tx_type) + 4 <= usize::MAX,
        ensures
            (final(self)@.current_index, final(self)@.tx_type) == edit_at_cursor(
                to_add,
                old(self)@.current_index,
                old(self)@.tx_type,
            ),
            final(self)@ == (TxDataView {
                tx_type: final(self)@.tx_type,
                current_index: final(self)@.current_index,
                ..old(self)@
            }),
    {
        add_char_to(to_add, &mut self.current_index, &mut self.tx_type);
    }

    /// Inserts a character at the cursor of the tags field, or removes the one
    /// before it.
    pub fn edit_tags(&mut self, to_add: Option<char>)
        requires
            byte_len(old(self)@.tags) + 4 <= usize::MAX,
        ensures
            (final(self)@.current_index, final(self)@.tags) == edit_at_cursor(
                to_add,
                old(self)@.current_index,
                old(self)@.tags,
            ),
            final(self)@ == (TxDataView {
                tags: final(self)@.tags,
                current_index: final(self)@.current_index,
                ..old(self)@
            }),
    {
        add_char_to(to_add, &mut self.current_index, &mut self.tags);
    }

    /// Prepares the transaction for saving. When a required field is missing,
    /// returns the problem's message and changes nothing. Otherwise empty tags
    /// become "Unknown", a transaction that was being edited stops being
    /// edited, and the transaction to write is returned: when it replaces an
    /// edited one, that one is to be deleted first and the id reused.
    pub fn add_tx(&mut self) -> (r: Result<TxSubmission, String>)
        ensures
            match missing_field(old(self)@) {
                Some(e) => final(self)@ == old(self)@ && (r matches Err(m) && m@ == e.text()),
                None => {
                    let tags = if old(self)@.tags.len() == 0 {
                        "Unknown"@
                    } else {
                        old(self)@.tags
                    };
                    &&& final(self)@ == (TxDataView { tags, editing_tx: false, ..old(self)@ })
                    &&& r matches Ok(s) && s.date@ == old(self)@.date && s.details@ == old(
                        self,
                    )@.details && s.tx_method@ == tx_method_text(old(self)@) && s.amount@ == old(
                        self,
                    )@.amount && s.tx_type@ == old(self)@.tx_type && s.tags@ == tags
                        && s.replaces_id == (if old(self)@.editing_tx {
                        Some(old(self)@.id_num)
                    } else {
                        None
                    })
                },
            },
    {
        if let Some(output) = self.check_all_fields() {
            return Err(output.to_text());
        }
        let tx_method = self.get_tx_method();
        let replaces_id = if self.editing_tx {
            self.editing_tx = false;
            Some(self.id_num)
        } else {
            None
        };
        Ok(
            TxSubmission {
                date: self.date.clone(),
                details: self.details.clone(),
                tx_method,
                amount: self.amount.clone(),
                tx_type: self.tx_type.clone(),
                tags: self.tags.clone(),
                replaces_id,
            },
        )
    }

    /// Adds a status line; the oldest one is dropped when thirty are shown.
    pub fn add_tx_status(&mut self, data: String)
        ensures
            final(self)@ == (TxDataView {
                tx_status: push_status(old(self)@.tx_status, data@),
                ..old(self)@
            }),
    {
        if self.tx_status.len() == 30 {
            self.tx_status.remove(0);
        }
        self.tx_status.push(data);
        proof {
            assert(string_views(self.tx_status@) =~= push_status(old(self)@.tx_status, data@));
        }
    }

    /// Sets the autofill suggestion for the field of the current tab to the
    /// one found for what was typed there (the caller looks it up among the
    /// saved details, methods or tags); a tab without suggestions gets none.
    pub fn check_autofill(&mut self, current_tab: &TxTab, suggestion: &str)
        ensures
            final(self)@ == (TxDataView {
                autofill: match *current_tab {
                    TxTab::Details | TxTab::FromMethod | TxTab::ToMethod | TxTab::Tags => suggestion@,
                    _ => Seq::<char>::empty(),
                },
                ..old(self)@
            }),
    {
        self.autofill = match current_tab {
            TxTab::Details | TxTab::FromMethod | TxTab::ToMethod | TxTab::Tags => owned(suggestion),
            _ => String::new(),
        };
    }

    /// Takes the autofill suggestion into the field of the current tab: it
    /// replaces the details or a method, and the last tag of the tags. The
    /// suggestion is then cleared and the cursor put at the end of the field.
    pub fn accept_autofill(&mut self, current_tab: &TxTab)
        ensures
            ({
                let o = old(self)@;
                let updated = match *current_tab {
                    TxTab::Details => TxDataView { details: o.autofill, ..o },
                    TxTab::FromMethod => TxDataView { from_method: o.autofill, ..o },
                    TxTab::ToMethod => TxDataView { to_method: o.autofill, ..o },
                    TxTab::Tags => TxDataView { tags: tags_with_suggestion(o.tags, o.autofill), ..o },
                    _ => o,
                };
                final(self)@ == (TxDataView {
                    autofill: Seq::<char>::empty(),
                    current_index: field_len(updated, *current_tab),
                    ..updated
                })
            }),
    {
        match current_tab {
            TxTab::Details => self.details = self.autofill.clone(),
            TxTab::FromMethod => self.from_method = self.autofill.clone(),
            TxTab::ToMethod => self.to_method = self.autofill.clone(),
            TxTab::Tags => {
                let raw = split_char(self.tags.as_str(), ',');
                let mut parts: Vec<String> = Vec::new();
                let mut k: usize = 0;
                while k < raw.len()
                    invariant
                        k <= raw@.len(),
                        parts@.len() == k,
                        forall|j: int| 0 <= j < k ==> #[trigger] parts@[j]@ == trim_spec(raw@[j]@),
                    decreases raw@.len() - k,
                {
                    parts.push(trim(raw[k].as_str()));
                    k = k + 1;
                }
                let ghost trimmed = string_views(parts@);
                assert(trimmed =~= split_spec(old(self)@.tags, ',').map_values(
                    |p: Seq<char>| trim_spec(p),
                ));
                parts.pop();
                parts.push(self.autofill.clone());
                assert(string_views(parts@) =~= trimmed.drop_last().push(old(self)@.autofill));
                self.tags = join(&parts, ", ");
            },
            _ => {},
        }
        self.autofill = String::new();
        self.go_current_index(current_tab);
    }

    /// Checks the date for the given date type and keeps the corrected text
    /// (see `verify_date`); the cursor goes to the end of the date.
    pub fn check_date(&mut self, date_type: &DateType) -> (r: VerifyingOutput)
        ensures
            ({
                let (out, text) = verify_date_spec(old(self)@.date, *date_type);
                &&& r == out
                &&& final(self)@ == (TxDataView {
                    date: text,
                    current_index: str_len(text),
                    ..old(self)@
                })
            }),
            *date_type == DateType::Exact && r is Accepted ==> crate::date::accepted_day(
                final(self)@.date,
            ),
    {
        let mut user_date = self.date.clone();
        let status = verify_date(&mut user_date, date_type);
        self.date = user_date;
        self.go_current_index(&TxTab::Date);
        status
    }

    /// Checks the transaction type and keeps the expanded text (see
    /// `verify_tx_type`); the cursor goes to the end of the type.
    pub fn check_tx_type(&mut self) -> (r: VerifyingOutput)
        ensures
            ({
                let (out, text) = verify_tx_type_spec(old(self)@.tx_type);
                &&& r == out
                &&& final(self)@ == (TxDataView {
                    tx_type: text,
                    current_index: str_len(text),
                    ..old(self)@
                })
            }),
    {
        let mut tx_type = self.tx_type.clone();
        let status = verify_tx_type(&mut tx_type);
        self.tx_type = tx_type;
        self.go_current_index(&TxTab::TxType);
        status
    }

    /// Checks a transaction type (see `verify_tx_type_spec`).
    pub fn verify_tx_type(&self, tx_type: &mut String) -> (r: VerifyingOutput)
        ensures
            (r, final(tx_type)@) == verify_tx_type_spec(old(tx_type)@),
            r is Nothing <==> crate::text::remove_all(old(tx_type)@, ' ').len() == 0,
            crate::text::remove_all(old(tx_type)@, ' ').len() > 0 ==> lowercase(
                crate::text::remove_all(old(tx_type)@, ' '),
            ).len() > 0,
    {
        verify_tx_type(tx_type)
    }

    /// Checks a method against the known methods and corrects it (see
    /// `ranked_method_spec`).
    pub fn verify_tx_method(&self, cu_method: &mut String, all_tx_methods: &Vec<String>) -> (r:
        VerifyingOutput)
        requires
            trim_spec(old(cu_method)@).len() > 0 ==> all_tx_methods@.len() > 0,
            methods_fit(string_views(all_tx_methods@)),
        ensures
            (r, final(cu_method)@) == ranked_method_spec(
                old(cu_method)@,
                string_views(all_tx_methods@),
            ),
    {
        verify_ranked_method(cu_method, all_tx_methods)
    }

    /// Checks the method the money leaves (see `ranked_method_spec`); the
    /// cursor goes to the end of the method.
    pub fn check_from_method(&mut self, all_tx_methods: &Vec<String>) -> (r: VerifyingOutput)
        requires
            trim_spec(old(self)@.from_method).len() > 0 ==> all_tx_methods@.len() > 0,
            methods_fit(string_views(all_tx_methods@)),
        ensures
            ({
                let (out, text) = ranked_method_spec(
                    old(self)@.from_method,
                    string_views(all_tx_methods@),
                );
                &&& r == out
                &&& final(self)@ == (TxDataView {
                    from_method: text,
                    current_index: str_len(text),
                    ..old(self)@
                })
            }),
    {
        let mut current_method = self.from_method.clone();
        let status = verify_ranked_method(&mut current_method, all_tx_methods);
        self.from_method = current_method;
        self.go_current_index(&TxTab::FromMethod);
        status
    }

    /// Checks the method the money goes to (see `ranked_method_spec`); the
    /// cursor goes to the end of the method.
    pub fn check_to_method(&mut self, all_tx_methods: &Vec<String>) -> (r: VerifyingOutput)
        requires
            trim_spec(old(self)@.to_method).len() > 0 ==> all_tx_methods@.len() > 0,
            methods_fit(string_views(all_tx_methods@)),
        ensures
            ({
                let (out, text) = ranked_method_spec(
                    old(self)@.to_method,
                    string_views(all_tx_methods@),
                );
                &&& r == out
                &&& final(self)@ == (TxDataView {
                    to_method: text,
                    current_index: str_len(text),
                    ..old(self)@
                })
            }),
    {
        let mut current_method = self.to_method.clone();
        let status = verify_ranked_method(&mut current_method, all_tx_methods);
        self.to_method = current_method;
        self.go_current_index(&TxTab::ToMethod);
        status
    }

    /// Steps the method the money leaves up or down (see `step_method_spec`);
    /// the cursor goes to the end of the method.
    fn step_from_method(&mut self, step: StepType, all_tx_methods: &Vec<String>) -> (r: Result<
        (),
        SteppingError,
    >)
        requires
            methods_usable(string_views(all_tx_methods@)),
        ensures
            ({
                let (res, text) = step_method_spec(
                    old(self)@.from_method,
                    step,
                    string_views(all_tx_methods@),
                );
                &&& r == res
                &&& final(self)@ == (TxDataView {
                    from_method: text,
                    current_index: str_len(text),
                    ..old(self)@
                })
            }),
    {
        let mut user_method = self.from_method.clone();
        let status = step_tx_method(&mut user_method, step, all_tx_methods);
        self.from_method = user_method;
        self.go_current_index(&TxTab::FromMethod);
        status
    }

    /// Steps the method the money goes to up or down (see
    /// `step_method_spec`); the cursor goes to the end of the method.
    fn step_to_method(&mut self, step: StepType, all_tx_methods: &Vec<String>) -> (r: Result<
        (),
        SteppingError,
    >)
        requires
            methods_usable(string_views(all_tx_methods@)),
        ensures
            ({
                let (res, text) = step_method_spec(
                    old(self)@.to_method,
                    step,
                    string_views(all_tx_methods@),
                );
                &&& r == res
                &&& final(self)@ == (TxDataView {
                    to_method: text,
                    current_index: str_len(text),
                    ..old(self)@
                })
            }),
    {
        let mut user_method = self.to_method.clone();
        let status = step_tx_method(&mut user_method, step, all_tx_methods);
        self.to_method = user_method;
        self.go_current_index(&TxTab::ToMethod);
        status
    }

    /// Steps the method the money leaves to the next known method.
    pub fn do_from_method_up(&mut self, all_tx_methods: &Vec<String>) -> (r: Result<
        (),
        SteppingError,
    >)
        requires
            methods_usable(string_views(all_tx_methods@)),
        ensures
            ({
                let (res, text) = step_method_spec(
                    old(self)@.from_method,
                    StepType::StepUp,
                    string_views(all_tx_methods@),
                );
                &&& r == res
                &&& final(self)@ == (TxDataView {
                    from_method: text,
                    current_index: str_len(text),
                    ..old(self)@
                })
            }),
    {
        self.step_from_method(StepType::StepUp, all_tx_methods)
    }

    /// Steps the method the money leaves to the previous known method.
    pub fn do_from_method_down(&mut self, all_tx_methods: &Vec<String>) -> (r: Result<
        (),
        SteppingError,
    >)
        requires
            methods_usable(string_views(all_tx_methods@)),
        ensures
            ({
                let (res, text) = step_method_spec(
                    old(self)@.from_method,
                    StepType::StepDown,
                    string_views(all_tx_methods@),
                );
                &&& r == res
                &&& final(self)@ == (TxDataView {
                    from_method: text,
                    current_index: str_len(text),
                    ..old(self)@
                })
            }),
    {
        self.step_from_method(StepType::StepDown, all_tx_methods)
    }

    /// Steps the method the money goes to to the next known method.
    pub fn do_to_method_up(&mut self, all_tx_methods: &Vec<String>) -> (r: Result<
        (),
        SteppingError,
    >)
        requires
            methods_usable(string_views(all_tx_methods@)),
        ensures
            ({
                let (res, text) = step_method_spec(
                    old(self)@.to_method,
                    StepType::StepUp,
                    string_views(all_tx_methods@),
                );
                &&& r == res
                &&& final(self)@ == (TxDataView {
                    to_method: text,
                    current_index: str_len(text),
                    ..old(self)@
                })
            }),
    {
        self.step_to_method(StepType::StepUp, all_tx_methods)
    }

    /// Steps the method the money goes to to the previous known method.
    pub fn do_to_method_down(&mut self, all_tx_methods: &Vec<String>) -> (r: Result<
        (),
        SteppingError,
    >)
        requires
            methods_usable(string_views(all_tx_methods@)),
        ensures
            ({
                let (res, text) = step_method_spec(
                    old(self)@.to_method,
                    StepType::StepDown,
                    string_views(all_tx_methods@),
                );
                &&& r == res
                &&& final(self)@ == (TxDataView {
                    to_method: text,
                    current_index: str_len(text),
                    ..old(self)@
                })
            }),
    {
        self.step_to_method(StepType::StepDown, all_tx_methods)
    }

    /// Replaces the 'b' shortcut in the amount by the balance of the method
    /// the money leaves (see `b_field_spec`); the balances are given in the
    /// order of the methods.
    pub fn check_b_field(&mut self, all_methods: &Vec<String>, last_balances: &Vec<String>) -> (r:
        Result<(), VerifyingOutput>)
        requires
            all_methods@.len() <= last_balances@.len(),
        ensures
            ({
                let (res, text) = b_field_spec(
                    old(self)@.amount,
                    old(self)@.from_method,
                    string_views(all_methods@),
                    string_views(last_balances@),
                );
                &&& r == res
                &&& final(self)@ == (TxDataView { amount: text, ..old(self)@ })
            }),
    {
        let ghost ms = string_views(all_methods@);
        let user_amount = lower(self.amount.as_str());
        if contains_char(user_amount.as_str(), 'b') {
            if char_count(self.from_method.as_str()) == 0 {
                return Err(VerifyingOutput::NotAccepted(NAType::InvalidBValue));
            }
            let mut x: usize = 0;
            while x < all_methods.len()
                invariant
                    x <= ms.len(),
                    ms == string_views(all_methods@),
                    all_methods@.len() <= last_balances@.len(),
                    self@ == old(self)@,
                    user_amount@ == lowercase(old(self)@.amount),
                    has_char(user_amount@, 'b'),
                    self@.from_method.len() > 0,
                    first_index_of(ms, self@.from_method, x as int) is None,
                decreases ms.len() - x,
            {
                if str_eq(all_methods[x].as_str(), self.from_method.as_str()) {
                    proof {
                        assert(ms[x as int] == all_methods@[x as int]@);
                        assert(first_index_of(ms, self@.from_method, x + 1) == Some(x as int));
                        lemma_first_index_stays(ms, self@.from_method, x as int, ms.len() as int);
                        reveal_strlit("b");
                        assert("b"@ =~= seq!['b']);
                    }
                    self.amount = replace_text(user_amount.as_str(), "b", last_balances[x].as_str());
                    return Ok(());
                }
                x = x + 1;
            }
        }
        Ok(())
    }

    /// The amount to check, with the comparison it asks for taken off when
    /// searching (see `amount_parts`).
    pub fn amount_to_verify(&self, is_search: bool) -> (r: (ComparisonType, String))
        ensures
            r.0 == amount_parts(self@.amount, is_search).0,
            r.1@ == amount_parts(self@.amount, is_search).1,
    {
        let user_amount = lower(self.amount.as_str());
        let comparison = if is_search {
            check_comparison(user_amount.as_str())
        } else {
            ComparisonType::Equal
        };
        match comparison.symbol() {
            Some(symbol) => {
                proof {
                    reveal_strlit(">=");
                    reveal_strlit("<=");
                    reveal_strlit(">");
                    reveal_strlit("<");
                    reveal_strlit("");
                    assert(""@ =~= Seq::<char>::empty());
                }
                (comparison, replace_text(user_amount.as_str(), symbol, ""))
            },
            None => (comparison, user_amount),
        }
    }

    /// Stores the checked amount, with the comparison's symbol put back in
    /// front; the cursor goes to the end of the amount.
    pub fn finish_amount(&mut self, comparison: ComparisonType, checked: &str)
        ensures
            ({
                let text = match comparison.symbol_spec() {
                    Some(sym) => sym + checked@,
                    None => checked@,
                };
                final(self)@ == (TxDataView { amount: text, current_index: str_len(text), ..old(self)@ })
            }),
    {
        self.amount = match comparison.symbol() {
            Some(symbol) => concat(symbol, checked),
            None => owned(checked),
        };
        self.go_current_index(&TxTab::Amount);
    }

    /// Tidies the tags (see `verify_tags`); the cursor goes to their end.
    pub fn check_tags(&mut self)
        ensures
            ({
                let text = verify_tags_spec(old(self)@.tags);
                final(self)@ == (TxDataView { tags: text, current_index: str_len(text), ..old(self)@ })
            }),
    {
        let mut tags = self.tags.clone();
        verify_tags(&mut tags);
        self.tags = tags;
        self.go_current_index(&TxTab::Tags);
    }

    /// Returns the problem that keeps the transaction from being saved, if any;
    /// when there is none, empty tags become "Unknown".
    pub fn check_all_fields(&mut self) -> (r: Option<CheckingError>)
        ensures
            r == missing_field(old(self)@),
            r is Some ==> final(self)@ == old(self)@,
            r is None ==> final(self)@ == (TxDataView {
                tags: if old(self)@.tags.len() == 0 {
                    "Unknown"@
                } else {
                    old(self)@.tags
                },
                ..old(self)@
            }),
    {
        let is_transfer = str_eq(self.tx_type.as_str(), "Transfer");
        if char_count(self.date.as_str()) == 0 {
            return Some(CheckingError::EmptyDate);
        } else if char_count(self.from_method.as_str()) == 0 && !is_transfer {
            return Some(CheckingError::EmptyMethod);
        } else if char_count(self.amount.as_str()) == 0 {
            return Some(CheckingError::EmptyAmount);
        } else if char_count(self.tx_type.as_str()) == 0 {
            return Some(CheckingError::EmptyTxType);
        } else if is_transfer && str_eq(self.from_method.as_str(), self.to_method.as_str()) {
            return Some(CheckingError::SameTxMethod);
        } else if is_transfer && (char_count(self.from_method.as_str()) == 0 || char_count(
            self.to_method.as_str(),
        ) == 0) {
            return Some(CheckingError::EmptyMethod);
        }
        if char_count(self.tags.as_str()) == 0 {
            self.tags = owned("Unknown");
        }
        None
    }

    /// Whether every field (the suggestion aside) is empty.
    pub fn check_all_empty(&self) -> (r: bool)
        ensures
            r == (self@.date.len() == 0 && self@.details.len() == 0 && self@.from_method.len() == 0
                && self@.to_method.len() == 0 && self@.amount.len() == 0 && self@.tx_type.len() == 0
                && self@.tags.len() == 0),
    {
        char_count(self.date.as_str()) == 0 && char_count(self.details.as_str()) == 0 && char_count(
            self.from_method.as_str(),
        ) == 0 && char_count(self.to_method.as_str()) == 0 && char_count(self.amount.as_str()) == 0
            && char_count(self.tx_type.as_str()) == 0 && char_count(self.tags.as_str()) == 0
    }

    /// Empties the date.
    pub fn clear_date(&mut self)
        ensures
            final(self)@ == (TxDataView { date: Seq::<char>::empty(), ..old(self)@ }),
    {
        self.date = String::new();
    }

    /// The cursor position in the field being edited.
    pub fn get_current_index(&self) -> (r: usize)
        ensures
            r == self@.current_index,
    {
        self.current_index
    }

    /// The length of the field a tab edits (0 for no field).
    fn get_data_len(&self, current_tab: &TxTab) -> (r: usize)
        ensures
            r == field_len(self@, *current_tab),
    {
        match current_tab {
            TxTab::Date => text_len(self.date.as_str()),
            TxTab::Details => text_len(self.details.as_str()),
            TxTab::FromMethod => text_len(self.from_method.as_str()),
            TxTab::ToMethod => text_len(self.to_method.as_str()),
            TxTab::Amount => text_len(self.amount.as_str()),
            TxTab::TxType => text_len(self.tx_type.as_str()),
            TxTab::Tags => text_len(self.tags.as_str()),
            TxTab::Nothing => 0,
        }
    }

    /// Moves the cursor one byte left; a cursor past the end of the field goes
    /// to the end instead.
    pub fn move_index_left(&mut self, current_tab: &TxTab)
        ensures
            same_but_cursor(final(self)@, old(self)@),
            final(self)@.current_index == (if old(self)@.current_index > field_len(
                old(self)@,
                *current_tab,
            ) {
                field_len(old(self)@, *current_tab)
            } else if old(self)@.current_index > 0 {
                (old(self)@.current_index - 1) as nat
            } else {
                0
            }),
    {
        let data_len = self.get_data_len(current_tab);
        if self.current_index > data_len {
            self.current_index = data_len;
        } else if self.current_index > 0 {
            self.current_index = self.current_index - 1;
        }
    }

    /// Moves the cursor one byte right, never past the end of the field.
    pub fn move_index_right(&mut self, current_tab: &TxTab)
        ensures
            same_but_cursor(final(self)@, old(self)@),
            final(self)@.current_index == (if field_len(old(self)@, *current_tab)
                < old(self)@.current_index {
                field_len(old(self)@, *current_tab)
            } else if field_len(old(self)@, *current_tab) > old(self)@.current_index {
                old(self)@.current_index + 1
            } else {
                old(self)@.current_index
            }),
    {
        let data_len = self.get_data_len(current_tab);
        if data_len < self.current_index {
            self.current_index = data_len;
        } else if data_len > self.current_index {
            self.current_index = self.current_index + 1;
        }
    }

    /// Puts the cursor at the end of the field a tab edits.
    pub fn go_current_index(&mut self, current_tab: &TxTab)
        ensures
            same_but_cursor(final(self)@, old(self)@),
            final(self)@.current_index == field_len(old(self)@, *current_tab),
    {
        self.current_index = self.get_data_len(current_tab);
    }

    /// Steps the date one day, month or year up (see `step_date`); the cursor
    /// goes to the end of the date.
    pub fn do_date_up(&mut self, date_type: &DateType) -> (r: Result<(), SteppingError>)
        ensures
            ({
                let (res, text) = step_date_spec(old(self)@.date, StepType::StepUp, *date_type);
                &&& r == res
                &&& final(self)@ == (TxDataView {
                    date: text,
                    current_index: str_len(text),
                    ..old(self)@
                })
            }),
    {
        let mut user_date = self.date.clone();
        let step_status = step_date(&mut user_date, StepType::StepUp, date_type);
        self.date = user_date;
        self.go_current_index(&TxTab::Date);
        step_status
    }

    /// Steps the date one day, month or year down (see `step_date`); the cursor
    /// goes to the end of the date.
    pub fn do_date_down(&mut self, date_type: &DateType) -> (r: Result<(), SteppingError>)
        ensures
            ({
                let (res, text) = step_date_spec(old(self)@.date, StepType::StepDown, *date_type);
                &&& r == res
                &&& final(self)@ == (TxDataView {
                    date: text,
                    current_index: str_len(text),
                    ..old(self)@
                })
            }),
    {
        let mut user_date = self.date.clone();
        let step_status = step_date(&mut user_date, StepType::StepDown, date_type);
        self.date = user_date;
        self.go_current_index(&TxTab::Date);
        step_status
    }

    /// Steps the transaction type (see `step_tx_type`); the cursor goes to the
    /// end of the type.
    pub fn do_tx_type_up(&mut self) -> (r: Result<(), SteppingError>)
        ensures
            ({
                let (res, text) = step_tx_type_spec(old(self)@.tx_type);
                &&& r == res
                &&& final(self)@ == (TxDataView {
                    tx_type: text,
                    current_index: str_len(text),
                    ..old(self)@
                })
            }),
    {
        let mut user_type = self.tx_type.clone();
        let step_status = step_tx_type(&mut user_type);
        self.tx_type = user_type;
        self.go_current_index(&TxTab::TxType);
        step_status
    }

    /// Steps the transaction type (see `step_tx_type`); the cursor goes to the
    /// end of the type.
    pub fn do_tx_type_down(&mut self) -> (r: Result<(), SteppingError>)
        ensures
            ({
                let (res, text) = step_tx_type_spec(old(self)@.tx_type);
                &&& r == res
                &&& final(self)@ == (TxDataView {
                    tx_type: text,
                    current_index: str_len(text),
                    ..old(self)@
                })
            }),
    {
        let mut user_type = self.tx_type.clone();
        let step_status = step_tx_type(&mut user_type);
        self.tx_type = user_type;
        self.go_current_index(&TxTab::TxType);
        step_status
    }
}

/// Turns "DD-MM-YYYY" into "YYYY-MM-DD" (the first three parts, reversed).
pub fn reorder_date_text(date: &str) -> (r: String)
    requires
        split_spec(date@, '-').len() >= 3,
    ensures
        r@ == reorder_date(date@),
{
    let data = split_char(date, '-');
    proof {
        assert(data@[0]@ == split_spec(date@, '-')[0]);
        assert(data@[1]@ == split_spec(date@, '-')[1]);
        assert(data@[2]@ == split_spec(date@, '-')[2]);
    }
    let a = concat(data[2].as_str(), "-");
    let b = concat(a.as_str(), data[1].as_str());
    let c = concat(b.as_str(), "-");
    concat(c.as_str(), data[0].as_str())
}

/// The status list never holds more than thirty lines, and the newest line is
/// always the one just added.
pub proof fn lemma_status_bounded(s: Seq<Seq<char>>, data: Seq<char>)
    requires
        s.len() <= 30,
    ensures
        push_status(s, data).len() <= 30,
        push_status(s, data).last() == data,
        s.len() < 30 ==> push_status(s, data).drop_last() == s,
{
    if s.len() < 30 {
        assert(s.push(data).drop_last() =~= s);
    }
}

} // verus!
