use crate::date::{step_date_spec, verify_date_spec};
use crate::field_checks::{step_tx_type_spec, verify_tags_spec, verify_tx_type_spec};
use crate::keys::Key;
use crate::method_match::{methods_fit, methods_usable, ranked_method_spec, step_method_spec};
use crate::outputs::{StepType, SteppingError, TxType, VerifyingOutput};
use crate::text::{
    ascii_lower, byte_len, edit_at_cursor, lemma_type_then_backspace, str_len, string_views,
    trim_spec,
};
use crate::tx_data::{field_len, field_of, push_status, TxData, TxDataView};
use crate::ui_state::{DateType, TxTab};
use vstd::prelude::*;

verus! {

/// A field after a key typed into it: a character goes in at the cursor,
/// Backspace (no character) takes out the one before it.
pub open spec fn typed_into(v: TxDataView, field: TxTab, to_add: Option<char>) -> TxDataView {
    match field {
        TxTab::Date => {
            let (i, t) = edit_at_cursor(to_add, v.current_index, v.date);
            TxDataView { date: t, current_index: i, ..v }
        },
        TxTab::Details => {
            let (i, t) = edit_at_cursor(to_add, v.current_index, v.details);
            TxDataView { details: t, current_index: i, ..v }
        },
        TxTab::FromMethod => {
            let (i, t) = edit_at_cursor(to_add, v.current_index, v.from_method);
            TxDataView { from_method: t, current_index: i, ..v }
        },
        TxTab::ToMethod => {
            let (i, t) = edit_at_cursor(to_add, v.current_index, v.to_method);
            TxDataView { to_method: t, current_index: i, ..v }
        },
        TxTab::Amount => {
            let (i, t) = edit_at_cursor(to_add, v.current_index, v.amount);
            TxDataView { amount: t, current_index: i, ..v }
        },
        TxTab::TxType => {
            let (i, t) = edit_at_cursor(to_add, v.current_index, v.tx_type);
            TxDataView { tx_type: t, current_index: i, ..v }
        },
        TxTab::Tags => {
            let (i, t) = edit_at_cursor(to_add, v.current_index, v.tags);
            TxDataView { tags: t, current_index: i, ..v }
        },
        TxTab::Nothing => v,
    }
}

/// On any field of the page, typing a character and then pressing Backspace
/// gives back the fields and the cursor as they were, wherever between two
/// characters of the field the cursor stood (here after the first `k`).
pub proof fn lemma_entry_type_then_backspace(v: TxDataView, field: TxTab, c: char, k: int)
    requires
        match field_of(v, field) {
            Some(f) => 0 <= k <= f.len() && v.current_index == byte_len(f.subrange(0, k)),
            None => true,
        },
    ensures
        typed_into(typed_into(v, field, Some(c)), field, None) == v,
{
    match field {
        TxTab::Date => lemma_type_then_backspace(c, k, v.date),
        TxTab::Details => lemma_type_then_backspace(c, k, v.details),
        TxTab::FromMethod => lemma_type_then_backspace(c, k, v.from_method),
        TxTab::ToMethod => lemma_type_then_backspace(c, k, v.to_method),
        TxTab::Amount => lemma_type_then_backspace(c, k, v.amount),
        TxTab::TxType => lemma_type_then_backspace(c, k, v.tx_type),
        TxTab::Tags => lemma_type_then_backspace(c, k, v.tags),
        TxTab::Nothing => {},
    }
}

/// The kind of transaction a type text names: a first letter 't' or 'T'
/// makes a transfer, anything else income or expense.
pub open spec fn tx_type_of(v: TxDataView) -> TxType {
    if v.tx_type.len() > 0 && ascii_lower(v.tx_type[0]) == 't' {
        TxType::Transfer
    } else {
        TxType::IncomeExpense
    }
}

/// Leaving a checked field with Enter or Esc: the check's message is added
/// to the status lines. A value that was not accepted keeps the field
/// selected; otherwise Enter selects the next field, with the cursor at its
/// end, and Esc selects no field.
pub open spec fn leave_field_spec(
    v: TxDataView,
    tab: TxTab,
    key: Key,
    status: VerifyingOutput,
    next: TxTab,
) -> (TxDataView, TxTab) {
    let noted = TxDataView { tx_status: push_status(v.tx_status, status.text()), ..v };
    if status is NotAccepted {
        (noted, tab)
    } else if key == Key::Enter {
        (TxDataView { current_index: field_len(noted, next), ..noted }, next)
    } else {
        (noted, TxTab::Nothing)
    }
}

/// A checked field after a key: Enter and Esc leave it with the result of
/// its check (see `leave_field_spec`), Backspace and characters edit it,
/// other keys do nothing.
pub open spec fn field_key_spec(
    v: TxDataView,
    tab: TxTab,
    key: Key,
    field: TxTab,
    checked: (VerifyingOutput, TxDataView),
    next: TxTab,
) -> (TxDataView, TxTab) {
    match key {
        Key::Enter | Key::Esc => leave_field_spec(checked.1, tab, key, checked.0, next),
        Key::Backspace => (typed_into(v, field, None), tab),
        Key::Char(c) => (typed_into(v, field, Some(c)), tab),
        _ => (v, tab),
    }
}

/// Checking the date for a date type: the result, and the fields with the
/// corrected date and the cursor at its end.
pub open spec fn date_checked(v: TxDataView, dt: DateType) -> (VerifyingOutput, TxDataView) {
    let (out, text) = verify_date_spec(v.date, dt);
    (out, TxDataView { date: text, current_index: str_len(text), ..v })
}

/// Checking the type: the result, and the fields with the expanded type and
/// the cursor at its end.
pub open spec fn type_checked(v: TxDataView) -> (VerifyingOutput, TxDataView) {
    let (out, text) = verify_tx_type_spec(v.tx_type);
    (out, TxDataView { tx_type: text, current_index: str_len(text), ..v })
}

/// Checking the method the money leaves against the known methods.
pub open spec fn from_checked(v: TxDataView, methods: Seq<Seq<char>>) -> (
    VerifyingOutput,
    TxDataView,
) {
    let (out, text) = ranked_method_spec(v.from_method, methods);
    (out, TxDataView { from_method: text, current_index: str_len(text), ..v })
}

/// Checking the method the money goes to against the known methods.
pub open spec fn to_checked(v: TxDataView, methods: Seq<Seq<char>>) -> (
    VerifyingOutput,
    TxDataView,
) {
    let (out, text) = ranked_method_spec(v.to_method, methods);
    (out, TxDataView { to_method: text, current_index: str_len(text), ..v })
}

/// The field after the method the money leaves: the method it goes to for a
/// transfer, else the amount.
pub open spec fn after_from(v: TxDataView) -> TxTab {
    match tx_type_of(v) {
        TxType::Transfer => TxTab::ToMethod,
        TxType::IncomeExpense => TxTab::Amount,
    }
}

/// Leaves a checked field with Enter or Esc (see `leave_field_spec`).
pub fn leave_field(
    data: &mut TxData,
    tab: &mut TxTab,
    key: Key,
    status: VerifyingOutput,
    next: TxTab,
)
    requires
        key == Key::Enter || key == Key::Esc,
    ensures
        (final(data)@, *final(tab)) == leave_field_spec(old(data)@, *old(tab), key, status, next),
{
    data.add_tx_status(status.to_text());
    match status {
        VerifyingOutput::NotAccepted(_) => {},
        _ => {
            if key == Key::Enter {
                *tab = next;
                data.go_current_index(&next);
            } else {
                *tab = TxTab::Nothing;
            }
        },
    }
}

/// Types a key into a field (see `typed_into`).
fn type_in(data: &mut TxData, field: TxTab, to_add: Option<char>)
    requires
        match field_of(old(data)@, field) {
            Some(f) => byte_len(f) + 4 <= usize::MAX,
            None => true,
        },
    ensures
        final(data)@ == typed_into(old(data)@, field, to_add),
{
    match field {
        TxTab::Date => data.edit_date(to_add),
        TxTab::Details => data.edit_details(to_add),
        TxTab::FromMethod => data.edit_from_method(to_add),
        TxTab::ToMethod => data.edit_to_method(to_add),
        TxTab::Amount => data.edit_amount(to_add),
        TxTab::TxType => data.edit_tx_type(to_add),
        TxTab::Tags => data.edit_tags(to_add),
        TxTab::Nothing => {},
    }
}

/// Types a key into a field; Backspace and characters edit it, other keys
/// do nothing.
fn type_key(data: &mut TxData, field: TxTab, key: Key)
    requires
        match field_of(old(data)@, field) {
            Some(f) => byte_len(f) + 4 <= usize::MAX,
            None => true,
        },
        !(key is Enter || key is Esc),
    ensures
        final(data)@ == (match key {
            Key::Backspace => typed_into(old(data)@, field, None),
            Key::Char(c) => typed_into(old(data)@, field, Some(c)),
            _ => old(data)@,
        }),
{
    match key {
        Key::Backspace => type_in(data, field, None),
        Key::Char(c) => type_in(data, field, Some(c)),
        _ => {},
    }
}

/// A key on the date field of the Add Transaction page (with the exact date
/// type) or of the Search page (with the chosen one); the details come next.
pub fn check_date_field(data: &mut TxData, tab: &mut TxTab, key: Key, date_type: &DateType)
    requires
        byte_len(old(data)@.date) + 4 <= usize::MAX,
    ensures
        (final(data)@, *final(tab)) == field_key_spec(
            old(data)@,
            *old(tab),
            key,
            TxTab::Date,
            date_checked(old(data)@, *date_type),
            TxTab::Details,
        ),
{
    match key {
        Key::Enter | Key::Esc => {
            let status = data.check_date(date_type);
            leave_field(data, tab, key, status, TxTab::Details);
        },
        _ => type_key(data, TxTab::Date, key),
    }
}

/// A key on the details field: Enter selects the type with the cursor at
/// its end, Esc selects no field, Backspace and characters edit it. Details
/// are not checked.
pub open spec fn details_key_spec(v: TxDataView, tab: TxTab, key: Key) -> (TxDataView, TxTab) {
    match key {
        Key::Enter => (TxDataView { current_index: str_len(v.tx_type), ..v }, TxTab::TxType),
        Key::Esc => (v, TxTab::Nothing),
        Key::Backspace => (typed_into(v, TxTab::Details, None), tab),
        Key::Char(c) => (typed_into(v, TxTab::Details, Some(c)), tab),
        _ => (v, tab),
    }
}

/// A key on the details field (see `details_key_spec`).
pub fn check_details_field(data: &mut TxData, tab: &mut TxTab, key: Key)
    requires
        byte_len(old(data)@.details) + 4 <= usize::MAX,
    ensures
        (final(data)@, *final(tab)) == details_key_spec(old(data)@, *old(tab), key),
{
    match key {
        Key::Enter => {
            *tab = TxTab::TxType;
            data.go_current_index(&TxTab::TxType);
        },
        Key::Esc => {
            *tab = TxTab::Nothing;
        },
        _ => type_key(data, TxTab::Details, key),
    }
}

/// A key on the type field; the method the money leaves comes next.
pub fn check_type_field(data: &mut TxData, tab: &mut TxTab, key: Key)
    requires
        byte_len(old(data)@.tx_type) + 4 <= usize::MAX,
    ensures
        (final(data)@, *final(tab)) == field_key_spec(
            old(data)@,
            *old(tab),
            key,
            TxTab::TxType,
            type_checked(old(data)@),
            TxTab::FromMethod,
        ),
{
    match key {
        Key::Enter | Key::Esc => {
            let status = data.check_tx_type();
            leave_field(data, tab, key, status, TxTab::FromMethod);
        },
        _ => type_key(data, TxTab::TxType, key),
    }
}

/// A key on the field of the method the money leaves, checked against the
/// known methods; the method it goes to comes next for a transfer, else the
/// amount.
pub fn check_from_field(
    data: &mut TxData,
    tab: &mut TxTab,
    key: Key,
    all_tx_methods: &Vec<String>,
)
    requires
        byte_len(old(data)@.from_method) + 4 <= usize::MAX,
        (key is Enter || key is Esc) && trim_spec(old(data)@.from_method).len() > 0
            ==> all_tx_methods@.len() > 0,
        methods_fit(string_views(all_tx_methods@)),
    ensures
        ({
            let checked = from_checked(old(data)@, string_views(all_tx_methods@));
            (final(data)@, *final(tab)) == field_key_spec(
                old(data)@,
                *old(tab),
                key,
                TxTab::FromMethod,
                checked,
                after_from(checked.1),
            )
        }),
{
    match key {
        Key::Enter | Key::Esc => {
            let status = data.check_from_method(all_tx_methods);
            let next = match data.get_tx_type() {
                TxType::IncomeExpense => TxTab::Amount,
                TxType::Transfer => TxTab::ToMethod,
            };
            leave_field(data, tab, key, status, next);
        },
        _ => type_key(data, TxTab::FromMethod, key),
    }
}

/// A key on the field of the method the money goes to, checked against the
/// known methods; the amount comes next.
pub fn check_to_field(data: &mut TxData, tab: &mut TxTab, key: Key, all_tx_methods: &Vec<String>)
    requires
        byte_len(old(data)@.to_method) + 4 <= usize::MAX,
        (key is Enter || key is Esc) && trim_spec(old(data)@.to_method).len() > 0
            ==> all_tx_methods@.len() > 0,
        methods_fit(string_views(all_tx_methods@)),
    ensures
        (final(data)@, *final(tab)) == field_key_spec(
            old(data)@,
            *old(tab),
            key,
            TxTab::ToMethod,
            to_checked(old(data)@, string_views(all_tx_methods@)),
            TxTab::Amount,
        ),
{
    match key {
        Key::Enter | Key::Esc => {
            let status = data.check_to_method(all_tx_methods);
            leave_field(data, tab, key, status, TxTab::Amount);
        },
        _ => type_key(data, TxTab::ToMethod, key),
    }
}

/// A key on the tags field of the Add Transaction page: Enter and Esc tidy
/// the tags (see `verify_tags`), with the cursor at their end, and select no
/// field; Backspace and characters edit them.
pub open spec fn tags_key_spec(v: TxDataView, tab: TxTab, key: Key) -> (TxDataView, TxTab) {
    match key {
        Key::Enter | Key::Esc => {
            let text = verify_tags_spec(v.tags);
            (TxDataView { tags: text, current_index: str_len(text), ..v }, TxTab::Nothing)
        },
        Key::Backspace => (typed_into(v, TxTab::Tags, None), tab),
        Key::Char(c) => (typed_into(v, TxTab::Tags, Some(c)), tab),
        _ => (v, tab),
    }
}

/// A key on the tags field of the Add Transaction page (see
/// `tags_key_spec`).
pub fn check_tags_field(data: &mut TxData, tab: &mut TxTab, key: Key)
    requires
        byte_len(old(data)@.tags) + 4 <= usize::MAX,
    ensures
        (final(data)@, *final(tab)) == tags_key_spec(old(data)@, *old(tab), key),
{
    match key {
        Key::Enter | Key::Esc => {
            *tab = TxTab::Nothing;
            data.check_tags();
        },
        _ => type_key(data, TxTab::Tags, key),
    }
}

/// A step's result and the stepped text put into the field of a tab, with
/// the cursor at its end.
pub open spec fn stepped_into(
    v: TxDataView,
    field: TxTab,
    step: (Result<(), SteppingError>, Seq<char>),
) -> (Result<(), SteppingError>, TxDataView) {
    let text = step.1;
    let w = match field {
        TxTab::Date => TxDataView { date: text, ..v },
        TxTab::FromMethod => TxDataView { from_method: text, ..v },
        TxTab::ToMethod => TxDataView { to_method: text, ..v },
        _ => TxDataView { tx_type: text, ..v },
    };
    (step.0, TxDataView { current_index: str_len(text), ..w })
}

/// The up (`up`) or down arrow on the selected field of the Add Transaction
/// or Search page: the date steps a day, month or year (by the date type),
/// a method steps through the known methods, the type switches between
/// income and expense; the step's error, if any, is added to the status
/// lines. Other fields are not stepped here (`None`).
pub open spec fn step_field_spec(
    v: TxDataView,
    tab: TxTab,
    up: bool,
    dt: DateType,
    methods: Seq<Seq<char>>,
) -> Option<TxDataView> {
    let st = if up {
        StepType::StepUp
    } else {
        StepType::StepDown
    };
    let stepped = match tab {
        TxTab::Date => Some(stepped_into(v, tab, step_date_spec(v.date, st, dt))),
        TxTab::FromMethod => Some(stepped_into(v, tab, step_method_spec(v.from_method, st, methods))),
        TxTab::ToMethod => Some(stepped_into(v, tab, step_method_spec(v.to_method, st, methods))),
        TxTab::TxType => Some(stepped_into(v, tab, step_tx_type_spec(v.tx_type))),
        _ => None,
    };
    match stepped {
        None => None,
        Some((res, w)) => Some(
            match res {
                Ok(()) => w,
                Err(e) => TxDataView { tx_status: push_status(w.tx_status, e.text()), ..w },
            },
        ),
    }
}

/// Steps the selected field up or down (see `step_field_spec`); `false`,
/// with nothing changed, for a field that is not stepped here.
pub fn step_selected_field(
    data: &mut TxData,
    tab: TxTab,
    up: bool,
    date_type: &DateType,
    all_tx_methods: &Vec<String>,
) -> (r: bool)
    requires
        (tab is FromMethod || tab is ToMethod) ==> methods_usable(string_views(all_tx_methods@)),
    ensures
        match step_field_spec(old(data)@, tab, up, *date_type, string_views(all_tx_methods@)) {
            Some(w) => r && final(data)@ == w,
            None => !r && final(data)@ == old(data)@,
        },
{
    let status = match tab {
        TxTab::Date => {
            if up {
                data.do_date_up(date_type)
            } else {
                data.do_date_down(date_type)
            }
        },
        TxTab::FromMethod => {
            if up {
                data.do_from_method_up(all_tx_methods)
            } else {
                data.do_from_method_down(all_tx_methods)
            }
        },
        TxTab::ToMethod => {
            if up {
                data.do_to_method_up(all_tx_methods)
            } else {
                data.do_to_method_down(all_tx_methods)
            }
        },
        TxTab::TxType => {
            if up {
                data.do_tx_type_up()
            } else {
                data.do_tx_type_down()
            }
        },
        _ => {
            return false;
        },
    };
    if let Err(e) = status {
        data.add_tx_status(e.to_text());
    }
    true
}

} // verus!
