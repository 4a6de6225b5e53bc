use crate::date::{status_date_spec, status_verify_date};
use crate::status_checks::{
    methods_nonblank, status_tx_type_spec, status_verify_tx_type, verify_tx_method,
    verify_tx_method_spec,
};
use crate::amount::{replace_text, replaced};
use crate::method_match::{first_index_of, lemma_first_index_found, lemma_first_index_stays};
use crate::text::{
    char_count, concat, contains_char, has_char, lower, lowercase, owned, split_spec, str_eq,
    string_views, trim_spec,
};
use crate::tx_data::{reorder_date, reorder_date_text, TxSubmission};
use vstd::prelude::*;

verus! {

/// The fields of a transaction typed on the Add Transaction page, with the
/// status lines of the checks made so far.
pub struct AddTxData {
    date: String,
    details: String,
    tx_method: String,
    amount: String,
    tx_type: String,
    tags: String,
    pub tx_status: Vec<String>,
    editing_tx: bool,
    id_num: i32,
}

/// The content of an `AddTxData`.
pub struct AddTxView {
    pub date: Seq<char>,
    pub details: Seq<char>,
    pub tx_method: Seq<char>,
    pub amount: Seq<char>,
    pub tx_type: Seq<char>,
    pub tags: Seq<char>,
    pub tx_status: Seq<Seq<char>>,
    pub editing_tx: bool,
    pub id_num: i32,
}

impl View for AddTxData {
    type V = AddTxView;

    closed spec fn view(&self) -> AddTxView {
        AddTxView {
            date: self.date@,
            details: self.details@,
            tx_method: self.tx_method@,
            amount: self.amount@,
            tx_type: self.tx_type@,
            tags: self.tags@,
            tx_status: string_views(self.tx_status@),
            editing_tx: self.editing_tx,
            id_num: self.id_num,
        }
    }
}

/// A field after a key press: backspace (`pop_last`) removes the last
/// character if there is one, any other key appends its character.
pub open spec fn typed(field: Seq<char>, text: char, pop_last: bool) -> Seq<char> {
    if pop_last {
        if field.len() > 0 {
            field.drop_last()
        } else {
            field
        }
    } else {
        field.push(text)
    }
}

/// The status lines after adding one: the oldest is dropped when twenty are
/// already shown.
pub open spec fn push_status_20(s: Seq<Seq<char>>, data: Seq<char>) -> Seq<Seq<char>> {
    if s.len() == 20 {
        s.drop_first().push(data)
    } else {
        s.push(data)
    }
}

/// The message for the first empty required field of a transaction.
pub open spec fn add_tx_problem(v: AddTxView) -> Option<Seq<char>> {
    if v.date.len() == 0 {
        Some("Date: Date cannot be empty"@)
    } else if v.details.len() == 0 {
        Some("Details: Details cannot be empty"@)
    } else if v.tx_method.len() == 0 {
        Some("Tx Method: Transaction method cannot be empty"@)
    } else if v.amount.len() == 0 {
        Some("Amount: Amount cannot be empty"@)
    } else if v.tx_type.len() == 0 {
        Some("Tx Type: Transaction Type cannot be empty"@)
    } else {
        None
    }
}

/// What preparing an amount for its check gives, with the amount
/// afterwards. An amount holding 'b' (in any case) needs a method: without
/// one, or with a method that is not known, the check stops with a message;
/// otherwise every 'b' of the lower case amount becomes the method's balance
/// (and every lower case 'b' of the amount too). Other amounts are checked in
/// lower case.
pub open spec fn amount_check_spec(
    amount: Seq<char>,
    method: Seq<char>,
    methods: Seq<Seq<char>>,
    balances: Seq<Seq<char>>,
) -> (Result<Seq<char>, Seq<char>>, Seq<char>) {
    let l = lowercase(amount);
    if has_char(l, 'b') {
        if method.len() == 0 {
            (Err("Amount: TX Method cannot be empty. Value of B cannot be determined"@), amount)
        } else {
            match first_index_of(methods, method, methods.len() as int) {
                Some(x) => (
                    Ok(replaced(l, seq!['b'], balances[x])),
                    replaced(amount, seq!['b'], balances[x]),
                ),
                None => (Err("Amount: TX Method not found. B value cannot be accepted"@), amount),
            }
        }
    } else {
        (Ok(l), amount)
    }
}

/// Applies a key press to a field (see `typed`).
pub fn type_into(field: &mut String, text: char, pop_last: bool)
    ensures
        final(field)@ == typed(old(field)@, text, pop_last),
{
    let mut v = crate::text::chars_of(field.as_str());
    if pop_last {
        if v.len() > 0 {
            v.pop();
            *field = crate::text::from_chars(&v);
        }
    } else {
        v.push(text);
        *field = crate::text::from_chars(&v);
    }
}

impl AddTxData {
    /// A transaction dated with the local date and no other field filled.
    pub fn new() -> (r: Self)
        ensures
            r@.details.len() == 0 && r@.tx_method.len() == 0 && r@.amount.len() == 0,
            r@.tx_type.len() == 0 && r@.tags.len() == 0 && r@.tx_status.len() == 0,
            !r@.editing_tx && r@.id_num == 0,
        r@.date.len() == 10 && crate::clock::written_date(r@.date),
    {
        AddTxData {
            date: crate::clock::local_date_text(),
            details: String::new(),
            tx_method: String::new(),
            amount: String::new(),
            tx_type: String::new(),
            tags: String::new(),
            tx_status: Vec::new(),
            editing_tx: false,
            id_num: 0,
        }
    }

    /// The fields of a saved transaction, to be edited. The date comes as
    /// "DD-MM-YYYY" and is stored as "YYYY-MM-DD".
    pub fn custom(
        date: &str,
        details: &str,
        tx_method: &str,
        amount: &str,
        tx_type: &str,
        tags: &str,
        id_num: i32,
    ) -> (r: Self)
        requires
            split_spec(date@, '-').len() >= 3,
        ensures
            r@.date == reorder_date(date@),
            r@.details == details@ && r@.tx_method == tx_method@ && r@.amount == amount@,
            r@.tx_type == tx_type@ && r@.tags == tags@ && r@.tx_status.len() == 0,
            r@.editing_tx && r@.id_num == id_num,
    {
        AddTxData {
            date: reorder_date_text(date),
            details: owned(details),
            tx_method: owned(tx_method),
            amount: owned(amount),
            tx_type: owned(tx_type),
            tags: owned(tags),
            tx_status: Vec::new(),
            editing_tx: true,
            id_num,
        }
    }

    /// The fields in page order: date, details, method, amount, type, tags.
    pub fn get_all_texts(&self) -> (r: Vec<&str>)
        ensures
            r@.len() == 6,
            r@[0]@ == self@.date && r@[1]@ == self@.details && r@[2]@ == self@.tx_method,
            r@[3]@ == self@.amount && r@[4]@ == self@.tx_type && r@[5]@ == self@.tags,
    {
        vec![
            self.date.as_str(),
            self.details.as_str(),
            self.tx_method.as_str(),
            self.amount.as_str(),
            self.tx_type.as_str(),
            self.tags.as_str(),
        ]
    }

    /// Applies a key press to the date.
    pub fn edit_date(&mut self, text: char, pop_last: bool)
        ensures
            final(self)@ == (AddTxView { date: typed(old(self)@.date, text, pop_last), ..old(self)@ }),
    {
        type_into(&mut self.date, text, pop_last);
    }

    /// Applies a key press to the details.
    pub fn edit_details(&mut self, text: char, pop_last: bool)
        ensures
            final(self)@ == (AddTxView {
                details: typed(old(self)@.details, text, pop_last),
                ..old(self)@
            }),
    {
        type_into(&mut self.details, text, pop_last);
    }

    /// Applies a key press to the method.
    pub fn edit_tx_method(&mut self, text: char, pop_last: bool)
        ensures
            final(self)@ == (AddTxView {
                tx_method: typed(old(self)@.tx_method, text, pop_last),
                ..old(self)@
            }),
    {
        type_into(&mut self.tx_method, text, pop_last);
    }

    /// Applies a key press to the amount.
    pub fn edit_amount(&mut self, text: char, pop_last: bool)
        ensures
            final(self)@ == (AddTxView {
                amount: typed(old(self)@.amount, text, pop_last),
                ..old(self)@
            }),
    {
        type_into(&mut self.amount, text, pop_last);
    }

    /// Applies a key press to the transaction type.
    pub fn edit_tx_type(&mut self, text: char, pop_last: bool)
        ensures
            final(self)@ == (AddTxView {
                tx_type: typed(old(self)@.tx_type, text, pop_last),
                ..old(self)@
            }),
    {
        type_into(&mut self.tx_type, text, pop_last);
    }

    /// Applies a key press to the tags.
    pub fn edit_tags(&mut self, text: char, pop_last: bool)
        ensures
            final(self)@ == (AddTxView { tags: typed(old(self)@.tags, text, pop_last), ..old(self)@ }),
    {
        type_into(&mut self.tags, text, pop_last);
    }

    /// Prepares the transaction for saving. When a required field is empty,
    /// returns its message and changes nothing. Otherwise empty tags become
    /// "Unknown", editing stops, and the transaction to write is returned;
    /// when it replaces an edited one, that one is to be deleted first and its
    /// id reused.
    pub fn add_tx(&mut self) -> (r: Result<TxSubmission, String>)
        ensures
            match add_tx_problem(old(self)@) {
                Some(m) => final(self)@ == old(self)@ && (r matches Err(e) && e@ == m),
                None => {
                    let tags = if old(self)@.tags.len() == 0 {
                        "Unknown"@
                    } else {
                        old(self)@.tags
                    };
                    &&& final(self)@ == (AddTxView { tags, editing_tx: false, ..old(self)@ })
                    &&& r matches Ok(s) && s.date@ == old(self)@.date && s.details@ == old(
                        self,
                    )@.details && s.tx_method@ == old(self)@.tx_method && s.amount@ == old(
                        self,
                    )@.amount && s.tx_type@ == old(self)@.tx_type && s.tags@ == tags
                        && s.replaces_id == (if old(self)@.editing_tx {
                        Some(old(self)@.id_num)
                    } else {
                        None
                    })
                },
            },
    {
        if char_count(self.date.as_str()) == 0 {
            return Err(owned("Date: Date cannot be empty"));
        } else if char_count(self.details.as_str()) == 0 {
            return Err(owned("Details: Details cannot be empty"));
        } else if char_count(self.tx_method.as_str()) == 0 {
            return Err(owned("Tx Method: Transaction method cannot be empty"));
        } else if char_count(self.amount.as_str()) == 0 {
            return Err(owned("Amount: Amount cannot be empty"));
        } else if char_count(self.tx_type.as_str()) == 0 {
            return Err(owned("Tx Type: Transaction Type cannot be empty"));
        }
        if char_count(self.tags.as_str()) == 0 {
            self.tags = owned("Unknown");
        }
        let replaces_id = if self.editing_tx {
            self.editing_tx = false;
            Some(self.id_num)
        } else {
            None
        };
        Ok(
            TxSubmission {
                date: self.date.clone(),
                details: self.details.clone(),
                tx_method: self.tx_method.clone(),
                amount: self.amount.clone(),
                tx_type: self.tx_type.clone(),
                tags: self.tags.clone(),
                replaces_id,
            },
        )
    }

    /// Adds a status line; the oldest is dropped when twenty are shown.
    pub fn add_tx_status(&mut self, data: &str)
        ensures
            final(self)@ == (AddTxView {
                tx_status: push_status_20(old(self)@.tx_status, data@),
                ..old(self)@
            }),
    {
        if self.tx_status.len() == 20 {
            self.tx_status.remove(0);
        }
        self.tx_status.push(owned(data));
        proof {
            assert(string_views(self.tx_status@) =~= push_status_20(old(self)@.tx_status, data@));
        }
    }

    /// Checks the date and keeps the corrected text (see `status_verify_date`).
    /// A part that is not a number gives its parsing error.
    pub fn check_date(&mut self) -> (r: Result<String, std::num::ParseIntError>)
        ensures
            ({
                let (res, text) = status_date_spec(old(self)@.date);
                match r {
                    Ok(m) => res == Ok::<Seq<char>, ()>(m@) && final(self)@ == (AddTxView {
                        date: text,
                        ..old(self)@
                    }),
                    Err(_) => res is Err && final(self)@ == old(self)@,
                }
            }),
            r matches Ok(m) && m@ == "Date: Date Accepted"@ ==> crate::date::accepted_day(
                final(self)@.date,
            ),
    {
        let mut user_date = self.date.clone();
        let status = status_verify_date(&mut user_date);
        match status {
            Ok(m) => {
                self.date = user_date;
                Ok(m)
            },
            Err(e) => Err(e),
        }
    }

    /// Prepares the amount for its check: the 'b' shortcut stands for the
    /// balance of the transaction's method (see `amount_check_spec`). Returns
    /// the status message when the check stops here, or the amount to check.
    pub fn amount_to_check(&mut self, all_methods: &Vec<String>, last_balances: &Vec<String>) -> (r:
        Result<String, String>)
        requires
            all_methods@.len() <= last_balances@.len(),
        ensures
            ({
                let (res, text) = amount_check_spec(
                    old(self)@.amount,
                    old(self)@.tx_method,
                    string_views(all_methods@),
                    string_views(last_balances@),
                );
                &&& final(self)@ == (AddTxView { amount: text, ..old(self)@ })
                &&& match r {
                    Ok(a) => res == Ok::<Seq<char>, Seq<char>>(a@),
                    Err(m) => res == Err::<Seq<char>, Seq<char>>(m@),
                }
            }),
    {
        let ghost ms = string_views(all_methods@);
        let user_amount = lower(self.amount.as_str());
        if contains_char(user_amount.as_str(), 'b') {
            if char_count(self.tx_method.as_str()) == 0 {
                return Err(owned("Amount: TX Method cannot be empty. Value of B cannot be determined"));
            }
            let mut x: usize = 0;
            while x < all_methods.len()
                invariant
                    x <= ms.len(),
                    ms == string_views(all_methods@),
                    all_methods@.len() <= last_balances@.len(),
                    self@ == old(self)@,
                    user_amount@ == lowercase(old(self)@.amount),
                    has_char(user_amount@, 'b'),
                    self@.tx_method.len() > 0,
                    first_index_of(ms, self@.tx_method, x as int) is None,
                decreases ms.len() - x,
            {
                if str_eq(all_methods[x].as_str(), self.tx_method.as_str()) {
                    proof {
                        assert(ms[x as int] == all_methods@[x as int]@);
                        assert(first_index_of(ms, self@.tx_method, x + 1) == Some(x as int));
                        lemma_first_index_stays(ms, self@.tx_method, x as int, ms.len() as int);
                        reveal_strlit("b");
                        assert("b"@ =~= seq!['b']);
                    }
                    let replaced_amount = replace_text(
                        user_amount.as_str(),
                        "b",
                        last_balances[x].as_str(),
                    );
                    self.amount = replace_text(self.amount.as_str(), "b", last_balances[x].as_str());
                    return Ok(replaced_amount);
                }
                x = x + 1;
            }
            proof {
                lemma_first_index_found(ms, self@.tx_method, ms.len() as int);
            }
            return Err(owned("Amount: TX Method not found. B value cannot be accepted"));
        }
        Ok(user_amount)
    }

    /// Stores the amount after its check.
    pub fn set_checked_amount(&mut self, amount: String)
        ensures
            final(self)@ == (AddTxView { amount: amount@, ..old(self)@ }),
    {
        self.amount = amount;
    }

    /// Checks the method against the known methods and keeps the corrected
    /// text (see `verify_tx_method`).
    pub fn check_tx_method(&mut self, all_tx_methods: &Vec<String>) -> (r: String)
        requires
            trim_spec(old(self)@.tx_method).len() > 0 ==> all_tx_methods@.len() > 0,
            methods_nonblank(string_views(all_tx_methods@)),
        ensures
            ({
                let (m, text) = verify_tx_method_spec(
                    old(self)@.tx_method,
                    string_views(all_tx_methods@),
                );
                &&& r@ == m
                &&& final(self)@ == (AddTxView { tx_method: text, ..old(self)@ })
            }),
    {
        let mut cu_method = self.tx_method.clone();
        let status = verify_tx_method(&mut cu_method, all_tx_methods);
        self.tx_method = cu_method;
        status
    }

    /// Checks the transaction type and keeps the expanded text (see
    /// `status_verify_tx_type`).
    pub fn check_tx_type(&mut self) -> (r: String)
        ensures
            ({
                let (m, text) = status_tx_type_spec(old(self)@.tx_type);
                &&& r@ == m
                &&& final(self)@ == (AddTxView { tx_type: text, ..old(self)@ })
            }),
    {
        let mut tx_type = self.tx_type.clone();
        let status = status_verify_tx_type(&mut tx_type);
        self.tx_type = tx_type;
        status
    }
}

/// The status list never holds more than twenty lines, the newest is last,
/// and below twenty no line is lost.
pub proof fn lemma_status_20_bounded(s: Seq<Seq<char>>, data: Seq<char>)
    requires
        s.len() <= 20,
    ensures
        push_status_20(s, data).len() <= 20,
        push_status_20(s, data).last() == data,
        s.len() < 20 ==> push_status_20(s, data).drop_last() == s,
        s.len() == 20 ==> push_status_20(s, data).drop_last() == s.drop_first(),
{
    assert(s.push(data).drop_last() =~= s);
    if s.len() == 20 {
        assert(s.drop_first().push(data).drop_last() =~= s.drop_first());
    }
}

/// Typing a character and then pressing backspace leaves a field as it was.
pub proof fn lemma_type_then_pop(field: Seq<char>, c: char)
    ensures
        typed(typed(field, c, false), c, true) == field,
{
    assert(field.push(c).drop_last() =~= field);
}

} // verus!
