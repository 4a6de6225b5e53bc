use crate::amount::{transfer_sides, transfer_sides_spec};
use crate::keys::Key;
use crate::text::{split_spec, str_eq, string_views};
use crate::tx_data::{reorder_date, TxData};
use crate::ui_state::{CurrentUi, DeletionStatus, HomeTab, PopupState, SummaryTab, TableData};
use vstd::prelude::*;

verus! {

/// The fields a saved transaction is edited with, from its row (date,
/// details, method, amount, type, tags): a transfer's method "<from> to
/// <to>" gives both methods and its type is written "Transfer"; any other
/// transaction has no method the money goes to. In order: date, details,
/// from method, to method, amount, type, tags.
pub open spec fn edit_fields(row: Seq<Seq<char>>) -> Seq<Seq<char>> {
    if row[4] == "Transfer"@ {
        let (from, to) = transfer_sides_spec(row[2])->0;
        seq![row[0], row[1], from, to, row[3], "Transfer"@, row[5]]
    } else {
        seq![row[0], row[1], row[2], Seq::<char>::empty(), row[3], row[4], row[5]]
    }
}

/// Whether a row can be edited: it has the six fields, its date (if any)
/// has three '-' separated parts, and a transfer's method names both sides.
pub open spec fn editable_row(row: Seq<Seq<char>>) -> bool {
    &&& row.len() >= 6
    &&& row[0].len() > 0 ==> split_spec(row[0], '-').len() >= 3
    &&& row[4] == "Transfer"@ ==> transfer_sides_spec(row[2]) is Some
}

/// The transaction of a table row opened for editing (see `edit_fields`);
/// the row's date "DD-MM-YYYY" is stored as "YYYY-MM-DD".
pub fn edit_target(row: &Vec<String>, id_num: i32) -> (r: TxData)
    requires
        editable_row(string_views(row@)),
    ensures
        ({
            let f = edit_fields(string_views(row@));
            &&& r@.date == (if f[0].len() > 0 {
                reorder_date(f[0])
            } else {
                Seq::<char>::empty()
            })
            &&& r@.details == f[1] && r@.from_method == f[2] && r@.to_method == f[3]
            &&& r@.amount == f[4] && r@.tx_type == f[5] && r@.tags == f[6]
            &&& r@.tx_status.len() == 0 && r@.autofill.len() == 0
            &&& r@.editing_tx && r@.id_num == id_num && r@.current_index == 0
        }),
{
    let ghost rv = string_views(row@);
    assert(rv[0] == row@[0]@ && rv[1] == row@[1]@ && rv[2] == row@[2]@);
    assert(rv[3] == row@[3]@ && rv[4] == row@[4]@ && rv[5] == row@[5]@);
    proof {
        reveal_strlit("Transfer");
        reveal_strlit("");
        assert(""@ =~= Seq::<char>::empty());
    }
    if !str_eq(row[4].as_str(), "Transfer") {
        TxData::custom(
            row[0].as_str(),
            row[1].as_str(),
            row[2].as_str(),
            "",
            row[3].as_str(),
            row[4].as_str(),
            row[5].as_str(),
            id_num,
        )
    } else {
        match transfer_sides(row[2].as_str()) {
            Some((from, to)) => TxData::custom(
                row[0].as_str(),
                row[1].as_str(),
                from.as_str(),
                to.as_str(),
                row[3].as_str(),
                "Transfer",
                row[5].as_str(),
                id_num,
            ),
            None => {
                assert(false);
                TxData::new_empty()
            },
        }
    }
}

/// The row a selected transaction swaps places with when moved up: the one
/// above it, when there is one and both are of the same date.
pub open spec fn switch_up_spec(sel: Option<usize>, rows: Seq<Seq<Seq<char>>>) -> Option<usize> {
    match sel {
        None => None,
        Some(i) => if rows.len() <= 1 || i == 0 {
            None
        } else if rows[i as int][0] != rows[i - 1][0] {
            None
        } else {
            Some((i - 1) as usize)
        },
    }
}

/// The row a selected transaction swaps places with when moved down: the
/// one below it, when there is one and both are of the same date.
pub open spec fn switch_down_spec(sel: Option<usize>, rows: Seq<Seq<Seq<char>>>) -> Option<
    usize,
> {
    match sel {
        None => None,
        Some(i) => if rows.len() <= 1 || i == rows.len() - 1 {
            None
        } else if rows[i as int][0] != rows[i + 1][0] {
            None
        } else {
            Some((i + 1) as usize)
        },
    }
}

/// Whether the selection lies in the table and every row has a date.
pub open spec fn dated_selection(sel: Option<usize>, rows: Seq<Seq<Seq<char>>>) -> bool {
    &&& sel matches Some(i) ==> i < rows.len()
    &&& forall|k: int| 0 <= k < rows.len() ==> #[trigger] rows[k].len() > 0
}

/// The row to swap the selected transaction with when moving it up (see
/// `switch_up_spec`).
pub fn switch_partner_up(sel: Option<usize>, rows: &Vec<Vec<String>>) -> (r: Option<usize>)
    requires
        dated_selection(sel, rows@.map_values(|row: Vec<String>| string_views(row@))),
    ensures
        r == switch_up_spec(sel, rows@.map_values(|row: Vec<String>| string_views(row@))),
{
    let ghost rv = rows@.map_values(|row: Vec<String>| string_views(row@));
    match sel {
        None => None,
        Some(i) => {
            if rows.len() <= 1 || i == 0 {
                None
            } else {
                assert(rv[i as int].len() > 0 && rv[i - 1].len() > 0);
                assert(rv[i as int][0] == rows@[i as int]@[0]@);
                assert(rv[i - 1][0] == rows@[i - 1]@[0]@);
                if str_eq(rows[i][0].as_str(), rows[i - 1][0].as_str()) {
                    Some(i - 1)
                } else {
                    None
                }
            }
        },
    }
}

/// The row to swap the selected transaction with when moving it down (see
/// `switch_down_spec`).
pub fn switch_partner_down(sel: Option<usize>, rows: &Vec<Vec<String>>) -> (r: Option<usize>)
    requires
        dated_selection(sel, rows@.map_values(|row: Vec<String>| string_views(row@))),
    ensures
        r == switch_down_spec(sel, rows@.map_values(|row: Vec<String>| string_views(row@))),
{
    let ghost rv = rows@.map_values(|row: Vec<String>| string_views(row@));
    match sel {
        None => None,
        Some(i) => {
            if rows.len() <= 1 || i == rows.len() - 1 {
                None
            } else {
                assert(rv[i as int].len() > 0 && rv[i + 1].len() > 0);
                assert(rv[i as int][0] == rows@[i as int]@[0]@);
                assert(rv[i + 1][0] == rows@[i + 1]@[0]@);
                if str_eq(rows[i][0].as_str(), rows[i + 1][0].as_str()) {
                    Some(i + 1)
                } else {
                    None
                }
            }
        },
    }
}

/// The help popup of a page (none on the first page).
pub open spec fn help_spec(page: CurrentUi) -> PopupState {
    match page {
        CurrentUi::Home => PopupState::HomeHelp,
        CurrentUi::AddTx => PopupState::AddTxHelp,
        CurrentUi::Chart => PopupState::ChartHelp,
        CurrentUi::Summary => PopupState::SummaryHelp,
        CurrentUi::Search => PopupState::SearchHelp,
        CurrentUi::History => PopupState::ActivityHelp,
        CurrentUi::Initial => PopupState::Nothing,
    }
}

/// Opens the help popup of the page; the first page has none and keeps the
/// popup it has.
pub fn do_help_popup(page: CurrentUi, popup: &mut PopupState)
    ensures
        *final(popup) == (if page is Initial {
            *old(popup)
        } else {
            help_spec(page)
        }),
{
    match page {
        CurrentUi::Home => *popup = PopupState::HomeHelp,
        CurrentUi::AddTx => *popup = PopupState::AddTxHelp,
        CurrentUi::Chart => *popup = PopupState::ChartHelp,
        CurrentUi::Summary => *popup = PopupState::SummaryHelp,
        CurrentUi::Search => *popup = PopupState::SearchHelp,
        CurrentUi::History => *popup = PopupState::ActivityHelp,
        CurrentUi::Initial => {},
    }
}

/// Opens the deletion popup when a transaction is selected on the Home or
/// Search page (the selection of that page's table is given); otherwise the
/// popup stays.
pub fn do_deletion_popup(page: CurrentUi, selected: Option<usize>, popup: &mut PopupState)
    ensures
        *final(popup) == (if (page is Home || page is Search) && selected is Some {
            PopupState::TxDeletion
        } else {
            *old(popup)
        }),
{
    match page {
        CurrentUi::Home | CurrentUi::Search => {
            if selected.is_some() {
                *popup = PopupState::TxDeletion;
            }
        },
        _ => {},
    }
}

/// What a key does while the deletion popup is shown.
#[derive(Clone, Copy, Debug, PartialEq, Eq, Structural)]
pub enum DeletionAction {
    /// The choice switches between yes and no.
    Toggle,
    /// The selected transaction is deleted and the popup closed.
    DeleteSelected,
    /// The popup is closed.
    Close,
    Nothing,
}

/// A key on the deletion popup: the left and right arrows switch the
/// choice; Enter on "yes" deletes the transaction selected on the Home or
/// Search page and closes the popup (on another page it does nothing), and
/// on "no" closes the popup.
pub open spec fn deletion_spec(status: DeletionStatus, key: Key, page: CurrentUi) -> DeletionAction {
    match key {
        Key::Left | Key::Right => DeletionAction::Toggle,
        Key::Enter => match status {
            DeletionStatus::Yes => if page is Home || page is Search {
                DeletionAction::DeleteSelected
            } else {
                DeletionAction::Nothing
            },
            DeletionStatus::No => DeletionAction::Close,
        },
        _ => DeletionAction::Nothing,
    }
}

/// What a key does on the deletion popup (see `deletion_spec`).
pub fn handle_deletion_popup(status: DeletionStatus, key: Key, page: CurrentUi) -> (r:
    DeletionAction)
    ensures
        r == deletion_spec(status, key, page),
{
    match key {
        Key::Left | Key::Right => DeletionAction::Toggle,
        Key::Enter => match status {
            DeletionStatus::Yes => match page {
                CurrentUi::Home | CurrentUi::Search => DeletionAction::DeleteSelected,
                _ => DeletionAction::Nothing,
            },
            DeletionStatus::No => DeletionAction::Close,
        },
        _ => DeletionAction::Nothing,
    }
}

/// Hides or shows the top widgets of the Summary page: hidden, the table is
/// selected, with its first row when it has tags; shown again, the mode
/// widget is selected. The row selection stays otherwise.
pub fn do_summary_hidden_mode(
    hidden: &mut bool,
    summary_tab: &mut SummaryTab,
    selected: &mut Option<usize>,
    total_tags: usize,
)
    ensures
        *final(hidden) == !*old(hidden),
        *final(summary_tab) == (if *final(hidden) {
            SummaryTab::Table
        } else {
            SummaryTab::ModeSelection
        }),
        *final(selected) == (if *final(hidden) && total_tags > 0 {
            Some(0usize)
        } else {
            *old(selected)
        }),
{
    *hidden = !*hidden;
    if *hidden {
        *summary_tab = SummaryTab::Table;
        if total_tags > 0 {
            *selected = Some(0);
        }
    } else {
        *summary_tab = SummaryTab::ModeSelection;
    }
}

/// Selects a row of the Home page's table, reloaded after the transaction
/// at `index` was deleted: the row above it; when the first row was deleted,
/// no row, and the months widget is selected.
pub fn select_after_delete(index: usize, home_tab: &mut HomeTab, table: &mut TableData)
    ensures
        final(table).items@ == old(table).items@,
        index == 0 ==> final(table).state is None && *final(home_tab) == HomeTab::Months,
        index > 0 ==> final(table).state == Some((index - 1) as usize) && *final(home_tab)
            == *old(home_tab),
{
    if index == 0 {
        table.state = None;
        *home_tab = HomeTab::Months;
    } else {
        table.state = Some(index - 1);
    }
}

} // verus!
