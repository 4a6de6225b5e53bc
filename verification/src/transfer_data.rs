use crate::add_tx_data::{push_status_20, type_into, typed};
use crate::date::{status_date_spec, status_verify_date};
use crate::status_checks::{methods_nonblank, verify_tx_method, verify_tx_method_spec};
use crate::text::{char_count, concat, owned, split_spec, str_eq, string_views, trim_spec};
use crate::tx_data::{reorder_date, reorder_date_text, TxSubmission};
use vstd::prelude::*;

verus! {

/// The fields of a transfer between two transaction methods typed on the
/// Transfer page, with the status lines of the checks made so far.
pub struct TransferData {
    date: String,
    details: String,
    from: String,
    to: String,
    amount: String,
    tx_type: String,
    pub tx_status: Vec<String>,
    editing_tx: bool,
    id_num: i32,
}

/// The content of a `TransferData`.
pub struct TransferView {
    pub date: Seq<char>,
    pub details: Seq<char>,
    pub from: Seq<char>,
    pub to: Seq<char>,
    pub amount: Seq<char>,
    pub tx_type: Seq<char>,
    pub tx_status: Seq<Seq<char>>,
    pub editing_tx: bool,
    pub id_num: i32,
}

impl View for TransferData {
    type V = TransferView;

    closed spec fn view(&self) -> TransferView {
        TransferView {
            date: self.date@,
            details: self.details@,
            from: self.from@,
            to: self.to@,
            amount: self.amount@,
            tx_type: self.tx_type@,
            tx_status: string_views(self.tx_status@),
            editing_tx: self.editing_tx,
            id_num: self.id_num,
        }
    }
}

/// The message for the first problem that keeps a transfer from being saved:
/// an empty field, or the same method on both sides.
pub open spec fn transfer_problem(v: TransferView) -> Option<Seq<char>> {
    if v.date.len() == 0 {
        Some("Date: Date cannot be empty"@)
    } else if v.details.len() == 0 {
        Some("Details: Details cannot be empty"@)
    } else if v.from.len() == 0 {
        Some("From TX Method: Transaction method cannot be empty"@)
    } else if v.to.len() == 0 {
        Some("To TX Method: Transaction method cannot be empty"@)
    } else if v.from == v.to {
        Some("Tx Method: Transaction method From and To cannot be the same"@)
    } else if v.amount.len() == 0 {
        Some("Amount: Amount cannot be empty"@)
    } else if v.tx_type.len() == 0 {
        Some("Tx Type: Transaction Type cannot be empty"@)
    } else {
        None
    }
}

/// The method a transfer is saved under: "<from> to <to>".
pub open spec fn transfer_method(from: Seq<char>, to: Seq<char>) -> Seq<char> {
    from + " to "@ + to
}

/// What checking one side of a transfer gives: the status message and the
/// side's new text. `side` is "From " or "To ", `mine` the side checked and
/// `other` the opposite side. When the corrected method equals the other
/// side (both sides being filled), the side is left as it was.
pub open spec fn check_side_spec(
    side: Seq<char>,
    mine: Seq<char>,
    other: Seq<char>,
    methods: Seq<Seq<char>>,
) -> (Seq<char>, Seq<char>) {
    let (m, text) = verify_tx_method_spec(mine, methods);
    if text == other && other.len() > 0 && mine.len() > 0 {
        (side + "TX Method: To and From Transaction Methods cannot be the same"@, mine)
    } else {
        (side + m, text)
    }
}

/// Checks one side of a transfer (see `check_side_spec`).
fn check_side(side: &str, mine: &mut String, other: &str, all_tx_methods: &Vec<String>) -> (r:
    String)
    requires
        trim_spec(old(mine)@).len() > 0 ==> all_tx_methods@.len() > 0,
        methods_nonblank(string_views(all_tx_methods@)),
    ensures
        (r@, final(mine)@) == check_side_spec(
            side@,
            old(mine)@,
            other@,
            string_views(all_tx_methods@),
        ),
{
    let mut cu_method = mine.clone();
    let status = verify_tx_method(&mut cu_method, all_tx_methods);
    if str_eq(cu_method.as_str(), other) && char_count(other) > 0 && char_count(mine.as_str()) > 0 {
        return concat(side, "TX Method: To and From Transaction Methods cannot be the same");
    }
    *mine = cu_method;
    concat(side, status.as_str())
}

impl TransferData {
    /// A transfer dated with the local date and no other field filled.
    pub fn new() -> (r: Self)
        ensures
            r@.details.len() == 0 && r@.from.len() == 0 && r@.to.len() == 0,
            r@.amount.len() == 0 && r@.tx_type == "Transfer"@ && r@.tx_status.len() == 0,
            !r@.editing_tx && r@.id_num == 0,
            r@.date.len() == 10 && crate::clock::written_date(r@.date),
    {
        TransferData {
            date: crate::clock::local_date_text(),
            details: String::new(),
            from: String::new(),
            to: String::new(),
            amount: String::new(),
            tx_type: owned("Transfer"),
            tx_status: Vec::new(),
            editing_tx: false,
            id_num: 0,
        }
    }

    /// The fields of a saved transfer, to be edited. The date comes as
    /// "DD-MM-YYYY" and is stored as "YYYY-MM-DD".
    pub fn custom(date: &str, details: &str, from: &str, to: &str, amount: &str, id_num: i32) -> (r:
        Self)
        requires
            split_spec(date@, '-').len() >= 3,
        ensures
            r@.date == reorder_date(date@),
            r@.details == details@ && r@.from == from@ && r@.to == to@ && r@.amount == amount@,
            r@.tx_type == "Transfer"@ && r@.tx_status.len() == 0,
            r@.editing_tx && r@.id_num == id_num,
    {
        TransferData {
            date: reorder_date_text(date),
            details: owned(details),
            from: owned(from),
            to: owned(to),
            amount: owned(amount),
            tx_type: owned("Transfer"),
            tx_status: Vec::new(),
            editing_tx: true,
            id_num,
        }
    }

    /// The fields in page order: date, details, from, to, amount, type.
    pub fn get_all_texts(&self) -> (r: Vec<&str>)
        ensures
            r@.len() == 6,
            r@[0]@ == self@.date && r@[1]@ == self@.details && r@[2]@ == self@.from,
            r@[3]@ == self@.to && r@[4]@ == self@.amount && r@[5]@ == self@.tx_type,
    {
        vec![
            self.date.as_str(),
            self.details.as_str(),
            self.from.as_str(),
            self.to.as_str(),
            self.amount.as_str(),
            self.tx_type.as_str(),
        ]
    }

    /// Applies a key press to the date.
    pub fn edit_date(&mut self, text: char, pop_last: bool)
        ensures
            final(self)@ == (TransferView {
                date: typed(old(self)@.date, text, pop_last),
                ..old(self)@
            }),
    {
        type_into(&mut self.date, text, pop_last);
    }

    /// Applies a key press to the details.
    pub fn edit_details(&mut self, text: char, pop_last: bool)
        ensures
            final(self)@ == (TransferView {
                details: typed(old(self)@.details, text, pop_last),
                ..old(self)@
            }),
    {
        type_into(&mut self.details, text, pop_last);
    }

    /// Applies a key press to the method the money leaves.
    pub fn edit_from(&mut self, text: char, pop_last: bool)
        ensures
            final(self)@ == (TransferView {
                from: typed(old(self)@.from, text, pop_last),
                ..old(self)@
            }),
    {
        type_into(&mut self.from, text, pop_last);
    }

    /// Applies a key press to the method the money goes to.
    pub fn edit_to(&mut self, text: char, pop_last: bool)
        ensures
            final(self)@ == (TransferView { to: typed(old(self)@.to, text, pop_last), ..old(self)@ }),
    {
        type_into(&mut self.to, text, pop_last);
    }

    /// Applies a key press to the amount.
    pub fn edit_amount(&mut self, text: char, pop_last: bool)
        ensures
            final(self)@ == (TransferView {
                amount: typed(old(self)@.amount, text, pop_last),
                ..old(self)@
            }),
    {
        type_into(&mut self.amount, text, pop_last);
    }

    /// Stores the amount after its check.
    pub fn set_checked_amount(&mut self, amount: String)
        ensures
            final(self)@ == (TransferView { amount: amount@, ..old(self)@ }),
    {
        self.amount = amount;
    }

    /// Prepares the transfer for saving. When a field is empty or both sides
    /// name the same method, returns the message and changes nothing.
    /// Otherwise editing stops and the transaction to write is returned, under
    /// the method "<from> to <to>" and with no tags; when it replaces an
    /// edited one, that one is to be deleted first and its id reused.
    pub fn add_tx(&mut self) -> (r: Result<TxSubmission, String>)
        ensures
            match transfer_problem(old(self)@) {
                Some(m) => final(self)@ == old(self)@ && (r matches Err(e) && e@ == m),
                None => {
                    &&& final(self)@ == (TransferView { editing_tx: false, ..old(self)@ })
                    &&& r matches Ok(s) && s.date@ == old(self)@.date && s.details@ == old(
                        self,
                    )@.details && s.tx_method@ == transfer_method(old(self)@.from, old(self)@.to)
                        && s.amount@ == old(self)@.amount && s.tx_type@ == old(self)@.tx_type
                        && s.tags@.len() == 0 && s.replaces_id == (if old(self)@.editing_tx {
                        Some(old(self)@.id_num)
                    } else {
                        None
                    })
                },
            },
    {
        if char_count(self.date.as_str()) == 0 {
            return Err(owned("Date: Date cannot be empty"));
        } else if char_count(self.details.as_str()) == 0 {
            return Err(owned("Details: Details cannot be empty"));
        } else if char_count(self.from.as_str()) == 0 {
            return Err(owned("From TX Method: Transaction method cannot be empty"));
        } else if char_count(self.to.as_str()) == 0 {
            return Err(owned("To TX Method: Transaction method cannot be empty"));
        } else if str_eq(self.from.as_str(), self.to.as_str()) {
            return Err(owned("Tx Method: Transaction method From and To cannot be the same"));
        } else if char_count(self.amount.as_str()) == 0 {
            return Err(owned("Amount: Amount cannot be empty"));
        } else if char_count(self.tx_type.as_str()) == 0 {
            return Err(owned("Tx Type: Transaction Type cannot be empty"));
        }
        let from_part = concat(self.from.as_str(), " to ");
        let tx_method = concat(from_part.as_str(), self.to.as_str());
        let replaces_id = if self.editing_tx {
            self.editing_tx = false;
            Some(self.id_num)
        } else {
            None
        };
        Ok(
            TxSubmission {
                date: self.date.clone(),
                details: self.details.clone(),
                tx_method,
                amount: self.amount.clone(),
                tx_type: self.tx_type.clone(),
                tags: String::new(),
                replaces_id,
            },
        )
    }

    /// Adds a status line; the oldest is dropped when twenty are shown.
    pub fn add_tx_status(&mut self, data: &str)
        ensures
            final(self)@ == (TransferView {
                tx_status: push_status_20(old(self)@.tx_status, data@),
                ..old(self)@
            }),
    {
        if self.tx_status.len() == 20 {
            self.tx_status.remove(0);
        }
        self.tx_status.push(owned(data));
        proof {
            assert(string_views(self.tx_status@) =~= push_status_20(old(self)@.tx_status, data@));
        }
    }

    /// Checks the date and keeps the corrected text (see `status_verify_date`).
    /// A part that is not a number gives its parsing error.
    pub fn check_date(&mut self) -> (r: Result<String, std::num::ParseIntError>)
        ensures
            ({
                let (res, text) = status_date_spec(old(self)@.date);
                match r {
                    Ok(m) => res == Ok::<Seq<char>, ()>(m@) && final(self)@ == (TransferView {
                        date: text,
                        ..old(self)@
                    }),
                    Err(_) => res is Err && final(self)@ == old(self)@,
                }
            }),
            r matches Ok(m) && m@ == "Date: Date Accepted"@ ==> crate::date::accepted_day(
                final(self)@.date,
            ),
    {
        let mut user_date = self.date.clone();
        let status = status_verify_date(&mut user_date);
        match status {
            Ok(m) => {
                self.date = user_date;
                Ok(m)
            },
            Err(e) => Err(e),
        }
    }

    /// Checks the method the money leaves against the known methods (see
    /// `check_side_spec`).
    pub fn check_from(&mut self, all_tx_methods: &Vec<String>) -> (r: String)
        requires
            trim_spec(old(self)@.from).len() > 0 ==> all_tx_methods@.len() > 0,
            methods_nonblank(string_views(all_tx_methods@)),
        ensures
            ({
                let (m, text) = check_side_spec(
                    "From "@,
                    old(self)@.from,
                    old(self)@.to,
                    string_views(all_tx_methods@),
                );
                &&& r@ == m
                &&& final(self)@ == (TransferView { from: text, ..old(self)@ })
            }),
    {
        check_side("From ", &mut self.from, self.to.as_str(), all_tx_methods)
    }

    /// Checks the method the money goes to against the known methods (see
    /// `check_side_spec`).
    pub fn check_to(&mut self, all_tx_methods: &Vec<String>) -> (r: String)
        requires
            trim_spec(old(self)@.to).len() > 0 ==> all_tx_methods@.len() > 0,
            methods_nonblank(string_views(all_tx_methods@)),
        ensures
            ({
                let (m, text) = check_side_spec(
                    "To "@,
                    old(self)@.to,
                    old(self)@.from,
                    string_views(all_tx_methods@),
                );
                &&& r@ == m
                &&& final(self)@ == (TransferView { to: text, ..old(self)@ })
            }),
    {
        check_side("To ", &mut self.to, self.from.as_str(), all_tx_methods)
    }
}

} // verus!
