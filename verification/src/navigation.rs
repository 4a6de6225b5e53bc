use crate::outputs::TxType;
use crate::ui_state::{
    table_next, table_previous, ChartTab, HistoryTab, HomeTab, SummaryTab, TableData, TxTab,
};
use vstd::prelude::*;

verus! {

/// Whether a table's selection points inside it (or at nothing).
pub open spec fn selection_fits(sel: Option<usize>, len: int) -> bool {
    sel matches Some(i) ==> i < len
}

/// The Home page after the up arrow: the widget selected and the selected
/// row. From the first row the selection leaves the table for the months;
/// from the years it enters the table at its last row (or wraps to the
/// months when there is no transaction).
pub open spec fn home_up_spec(tab: HomeTab, sel: Option<usize>, len: int, empty: bool) -> (
    HomeTab,
    Option<usize>,
) {
    match tab {
        HomeTab::Table => if empty {
            (tab.up(), sel)
        } else if sel == Some(0usize) {
            (HomeTab::Months, None)
        } else {
            (tab, Some(table_previous(sel, len) as usize))
        },
        HomeTab::Years => if empty {
            (tab.down(), sel)
        } else {
            (tab.up(), Some((len - 1) as usize))
        },
        HomeTab::Months => (tab.up(), sel),
    }
}

/// The Home page after the down arrow (the mirror of `home_up_spec`).
pub open spec fn home_down_spec(tab: HomeTab, sel: Option<usize>, len: int, empty: bool) -> (
    HomeTab,
    Option<usize>,
) {
    match tab {
        HomeTab::Table => if empty {
            (tab.down(), sel)
        } else if sel == Some((len - 1) as usize) {
            (HomeTab::Years, None)
        } else {
            (tab, Some(table_next(sel, len) as usize))
        },
        HomeTab::Months => if empty {
            (tab.up(), sel)
        } else {
            (tab.down(), Some(0usize))
        },
        HomeTab::Years => (tab.down(), sel),
    }
}

/// Moves the selection of the Home page up (see `home_up_spec`).
pub fn do_home_up(home_tab: &mut HomeTab, table: &mut TableData, tx_empty: bool)
    requires
        !tx_empty ==> old(table).items@.len() > 0,
        old(table).state is Some ==> old(table).items@.len() > 0,
    ensures
        final(table).items@ == old(table).items@,
        (*final(home_tab), final(table).state) == home_up_spec(
            *old(home_tab),
            old(table).state,
            old(table).items@.len() as int,
            tx_empty,
        ),
{
    match home_tab {
        HomeTab::Table => {
            if tx_empty {
                *home_tab = home_tab.change_tab_up();
            } else if table.state == Some(0) {
                *home_tab = HomeTab::Months;
                table.state = None;
            } else {
                table.previous();
            }
        },
        HomeTab::Years => {
            if tx_empty {
                *home_tab = home_tab.change_tab_down();
            } else {
                table.state = Some(table.items.len() - 1);
                *home_tab = home_tab.change_tab_up();
            }
        },
        HomeTab::Months => {
            *home_tab = home_tab.change_tab_up();
        },
    }
}

/// Moves the selection of the Home page down (see `home_down_spec`).
pub fn do_home_down(home_tab: &mut HomeTab, table: &mut TableData, tx_empty: bool)
    requires
        !tx_empty ==> old(table).items@.len() > 0,
        old(table).state is Some ==> old(table).items@.len() > 0,
    ensures
        final(table).items@ == old(table).items@,
        (*final(home_tab), final(table).state) == home_down_spec(
            *old(home_tab),
            old(table).state,
            old(table).items@.len() as int,
            tx_empty,
        ),
{
    match home_tab {
        HomeTab::Table => {
            if tx_empty {
                *home_tab = home_tab.change_tab_down();
            } else if table.state == Some((table.items.len() - 1) as usize) {
                *home_tab = HomeTab::Years;
                table.state = None;
            } else {
                table.next();
            }
        },
        HomeTab::Months => {
            if tx_empty {
                *home_tab = home_tab.change_tab_up();
            } else {
                *home_tab = home_tab.change_tab_down();
                table.state = Some(0);
            }
        },
        HomeTab::Years => {
            *home_tab = home_tab.change_tab_down();
        },
    }
}

/// Whether a Home page state is one the keys keep: a row is selected exactly
/// when the table is, it lies inside the table, and the table is only
/// selected when it has rows.
pub open spec fn home_state_ok(tab: HomeTab, sel: Option<usize>, len: int, empty: bool) -> bool {
    &&& empty == (len == 0)
    &&& (sel is Some <==> tab == HomeTab::Table)
    &&& selection_fits(sel, len)
}

/// On the Home page the up and down arrows undo each other, and both keep
/// the page in a state the keys keep.
pub proof fn lemma_home_moves_undo(tab: HomeTab, sel: Option<usize>, len: int, empty: bool)
    requires
        home_state_ok(tab, sel, len, empty),
        0 <= len <= usize::MAX,
    ensures
        home_state_ok(
            home_up_spec(tab, sel, len, empty).0,
            home_up_spec(tab, sel, len, empty).1,
            len,
            empty,
        ),
        home_down_spec(
            home_up_spec(tab, sel, len, empty).0,
            home_up_spec(tab, sel, len, empty).1,
            len,
            empty,
        ) == (tab, sel),
        home_state_ok(
            home_down_spec(tab, sel, len, empty).0,
            home_down_spec(tab, sel, len, empty).1,
            len,
            empty,
        ),
        home_up_spec(
            home_down_spec(tab, sel, len, empty).0,
            home_down_spec(tab, sel, len, empty).1,
            len,
            empty,
        ) == (tab, sel),
{
    match sel {
        Some(i) => {
            assert(tab == HomeTab::Table);
            assert(!empty);
            assert(home_state_ok(HomeTab::Months, None::<usize>, len, empty));
            assert(home_state_ok(HomeTab::Years, None::<usize>, len, empty));
            if i == 0 {
                assert(home_up_spec(tab, sel, len, empty) == (HomeTab::Months, None::<usize>));
                assert(home_down_spec(HomeTab::Months, None::<usize>, len, empty) == (tab, Some(0usize)));
            } else {
                let j = (i - 1) as usize;
                assert(home_up_spec(tab, sel, len, empty) == (tab, Some(j)));
                assert(home_state_ok(tab, Some(j), len, empty));
                assert(Some(j) != Some((len - 1) as usize));
                assert(table_next(Some(j), len) == i);
                assert(home_down_spec(tab, Some(j), len, empty) == (tab, sel));
            }
            if i == len - 1 {
                assert((len - 1) as usize == i);
                assert(home_down_spec(tab, sel, len, empty) == (HomeTab::Years, None::<usize>));
                assert(home_up_spec(HomeTab::Years, None::<usize>, len, empty) == (tab, Some((len - 1) as usize)));
            } else {
                let j = (i + 1) as usize;
                assert(home_down_spec(tab, sel, len, empty) == (tab, Some(j)));
                assert(home_state_ok(tab, Some(j), len, empty));
                assert(Some(j) != Some(0usize));
                assert(table_previous(Some(j), len) == i);
                assert(home_up_spec(tab, Some(j), len, empty) == (tab, sel));
            }
        },
        None => {
            assert(tab != HomeTab::Table);
            if !empty {
                assert((len - 1) as usize == len - 1);
                assert(home_state_ok(HomeTab::Table, Some((len - 1) as usize), len, empty));
                assert(home_state_ok(HomeTab::Table, Some(0usize), len, empty));
            }
        },
    }
}

/// The History page after the up arrow: the widget selected and the
/// selected activity (as on the Home page, with the list in place of the
/// table).
pub open spec fn history_up_spec(tab: HistoryTab, sel: Option<usize>, len: int, empty: bool) -> (
    HistoryTab,
    Option<usize>,
) {
    match tab {
        HistoryTab::Years => if empty {
            (tab.down(), sel)
        } else {
            (tab.up(), Some((len - 1) as usize))
        },
        HistoryTab::Months => (tab.up(), sel),
        HistoryTab::List => if sel == Some(0usize) {
            (tab.up(), None)
        } else {
            (tab, Some(table_previous(sel, len) as usize))
        },
    }
}

/// The History page after the down arrow (the mirror of `history_up_spec`).
pub open spec fn history_down_spec(tab: HistoryTab, sel: Option<usize>, len: int, empty: bool) -> (
    HistoryTab,
    Option<usize>,
) {
    match tab {
        HistoryTab::Years => (tab.down(), sel),
        HistoryTab::Months => if empty {
            (tab.up(), sel)
        } else {
            (tab.down(), Some(0usize))
        },
        HistoryTab::List => if sel == Some((len - 1) as usize) {
            (tab.down(), None)
        } else {
            (tab, Some(table_next(sel, len) as usize))
        },
    }
}

/// Moves the selection of the History page up (see `history_up_spec`).
pub fn do_history_up(history_tab: &mut HistoryTab, table: &mut TableData, activity_empty: bool)
    requires
        !activity_empty ==> old(table).items@.len() > 0,
        old(table).state is Some ==> old(table).items@.len() > 0,
    ensures
        final(table).items@ == old(table).items@,
        (*final(history_tab), final(table).state) == history_up_spec(
            *old(history_tab),
            old(table).state,
            old(table).items@.len() as int,
            activity_empty,
        ),
{
    match history_tab {
        HistoryTab::Years => {
            if activity_empty {
                *history_tab = history_tab.change_tab_down();
            } else {
                *history_tab = history_tab.change_tab_up();
                table.state = Some(table.items.len() - 1);
            }
        },
        HistoryTab::Months => {
            *history_tab = history_tab.change_tab_up();
        },
        HistoryTab::List => {
            if table.state == Some(0) {
                table.state = None;
                *history_tab = history_tab.change_tab_up();
            } else {
                table.previous();
            }
        },
    }
}

/// Moves the selection of the History page down (see `history_down_spec`).
pub fn do_history_down(history_tab: &mut HistoryTab, table: &mut TableData, activity_empty: bool)
    requires
        !activity_empty ==> old(table).items@.len() > 0,
        old(table).state is Some ==> old(table).items@.len() > 0,
        *old(history_tab) == HistoryTab::List ==> old(table).items@.len() > 0,
    ensures
        final(table).items@ == old(table).items@,
        (*final(history_tab), final(table).state) == history_down_spec(
            *old(history_tab),
            old(table).state,
            old(table).items@.len() as int,
            activity_empty,
        ),
{
    match history_tab {
        HistoryTab::Years => {
            *history_tab = history_tab.change_tab_down();
        },
        HistoryTab::Months => {
            if activity_empty {
                *history_tab = history_tab.change_tab_up();
            } else {
                *history_tab = history_tab.change_tab_down();
                table.state = Some(0);
            }
        },
        HistoryTab::List => {
            if table.state == Some((table.items.len() - 1) as usize) {
                *history_tab = history_tab.change_tab_down();
                table.state = None;
            } else {
                table.next();
            }
        },
    }
}

/// Whether a History page state is one the keys keep (see `home_state_ok`).
pub open spec fn history_state_ok(tab: HistoryTab, sel: Option<usize>, len: int, empty: bool) -> bool {
    &&& empty == (len == 0)
    &&& (sel is Some <==> tab == HistoryTab::List)
    &&& selection_fits(sel, len)
}

/// On the History page the up and down arrows undo each other, and both keep
/// the page in a state the keys keep.
pub proof fn lemma_history_moves_undo(tab: HistoryTab, sel: Option<usize>, len: int, empty: bool)
    requires
        history_state_ok(tab, sel, len, empty),
        0 <= len <= usize::MAX,
    ensures
        history_state_ok(
            history_up_spec(tab, sel, len, empty).0,
            history_up_spec(tab, sel, len, empty).1,
            len,
            empty,
        ),
        history_down_spec(
            history_up_spec(tab, sel, len, empty).0,
            history_up_spec(tab, sel, len, empty).1,
            len,
            empty,
        ) == (tab, sel),
        history_state_ok(
            history_down_spec(tab, sel, len, empty).0,
            history_down_spec(tab, sel, len, empty).1,
            len,
            empty,
        ),
        history_up_spec(
            history_down_spec(tab, sel, len, empty).0,
            history_down_spec(tab, sel, len, empty).1,
            len,
            empty,
        ) == (tab, sel),
{
    match sel {
        Some(i) => {
            assert(tab == HistoryTab::List);
            assert(!empty);
            assert(history_state_ok(HistoryTab::Months, None::<usize>, len, empty));
            assert(history_state_ok(HistoryTab::Years, None::<usize>, len, empty));
            if i == 0 {
                assert(history_up_spec(tab, sel, len, empty) == (HistoryTab::Months, None::<usize>));
                assert(history_down_spec(HistoryTab::Months, None::<usize>, len, empty) == (tab, Some(0usize)));
            } else {
                let j = (i - 1) as usize;
                assert(history_up_spec(tab, sel, len, empty) == (tab, Some(j)));
                assert(history_state_ok(tab, Some(j), len, empty));
                assert(Some(j) != Some((len - 1) as usize));
                assert(table_next(Some(j), len) == i);
                assert(history_down_spec(tab, Some(j), len, empty) == (tab, sel));
            }
            if i == len - 1 {
                assert((len - 1) as usize == i);
                assert(history_down_spec(tab, sel, len, empty) == (HistoryTab::Years, None::<usize>));
                assert(history_up_spec(HistoryTab::Years, None::<usize>, len, empty) == (tab, Some((len - 1) as usize)));
            } else {
                let j = (i + 1) as usize;
                assert(history_down_spec(tab, sel, len, empty) == (tab, Some(j)));
                assert(history_state_ok(tab, Some(j), len, empty));
                assert(Some(j) != Some(0usize));
                assert(table_previous(Some(j), len) == i);
                assert(history_up_spec(tab, Some(j), len, empty) == (tab, sel));
            }
        },
        None => {
            assert(tab != HistoryTab::List);
            if !empty {
                assert((len - 1) as usize == len - 1);
                assert(history_state_ok(HistoryTab::List, Some((len - 1) as usize), len, empty));
                assert(history_state_ok(HistoryTab::List, Some(0usize), len, empty));
            }
        },
    }
}

/// The Chart page after the up arrow: the widgets cycle in the monthly and
/// yearly modes; nothing moves in the all time mode or with the widgets
/// hidden.
pub open spec fn chart_up_spec(hidden: bool, mode: usize, tab: ChartTab) -> ChartTab {
    if hidden {
        tab
    } else if mode == 0 {
        tab.up_monthly()
    } else if mode == 1 {
        tab.toggle_yearly()
    } else {
        tab
    }
}

/// The Chart page after the down arrow (the mirror of `chart_up_spec`).
pub open spec fn chart_down_spec(hidden: bool, mode: usize, tab: ChartTab) -> ChartTab {
    if hidden {
        tab
    } else if mode == 0 {
        tab.down_monthly()
    } else if mode == 1 {
        tab.toggle_yearly()
    } else {
        tab
    }
}

/// Moves the selected widget of the Chart page up (see `chart_up_spec`).
pub fn do_chart_up(hidden: bool, mode: usize, chart_tab: &mut ChartTab)
    ensures
        *final(chart_tab) == chart_up_spec(hidden, mode, *old(chart_tab)),
{
    if !hidden {
        if mode == 0 {
            *chart_tab = chart_tab.change_tab_up_monthly();
        } else if mode == 1 {
            *chart_tab = chart_tab.change_tab_up_yearly();
        }
    }
}

/// Moves the selected widget of the Chart page down (see `chart_down_spec`).
pub fn do_chart_down(hidden: bool, mode: usize, chart_tab: &mut ChartTab)
    ensures
        *final(chart_tab) == chart_down_spec(hidden, mode, *old(chart_tab)),
{
    if !hidden {
        if mode == 0 {
            *chart_tab = chart_tab.change_tab_down_monthly();
        } else if mode == 1 {
            *chart_tab = chart_tab.change_tab_down_yearly();
        }
    }
}

/// The field a number key selects on the Add Transaction and Search pages:
/// a transfer has a "to" method as field 5, which moves the amount and the
/// tags one number further.
pub open spec fn number_tab_spec(tx_type: TxType, key: char) -> Option<TxTab> {
    if key == '1' {
        Some(TxTab::Date)
    } else if key == '2' {
        Some(TxTab::Details)
    } else if key == '3' {
        Some(TxTab::TxType)
    } else if key == '4' {
        Some(TxTab::FromMethod)
    } else if tx_type == TxType::IncomeExpense {
        if key == '5' {
            Some(TxTab::Amount)
        } else if key == '6' {
            Some(TxTab::Tags)
        } else {
            None
        }
    } else {
        if key == '5' {
            Some(TxTab::ToMethod)
        } else if key == '6' {
            Some(TxTab::Amount)
        } else if key == '7' {
            Some(TxTab::Tags)
        } else {
            None
        }
    }
}

/// The field a number key selects (see `number_tab_spec`); other keys keep
/// the current field.
pub fn number_tab(tx_type: TxType, key: char, current: TxTab) -> (r: TxTab)
    ensures
        r == match number_tab_spec(tx_type, key) {
            Some(t) => t,
            None => current,
        },
{
    match key {
        '1' => TxTab::Date,
        '2' => TxTab::Details,
        '3' => TxTab::TxType,
        '4' => TxTab::FromMethod,
        '5' => match tx_type {
            TxType::IncomeExpense => TxTab::Amount,
            TxType::Transfer => TxTab::ToMethod,
        },
        '6' => match tx_type {
            TxType::IncomeExpense => TxTab::Tags,
            TxType::Transfer => TxTab::Amount,
        },
        '7' => match tx_type {
            TxType::IncomeExpense => current,
            TxType::Transfer => TxTab::Tags,
        },
        _ => current,
    }
}

/// The summary widget after one step up in a mode (0 monthly, 1 yearly,
/// 2 all time); any other mode stays.
pub open spec fn summary_step_up(mode: usize, tab: SummaryTab) -> SummaryTab {
    if mode == 0 {
        tab.up_monthly()
    } else if mode == 1 {
        tab.up_yearly()
    } else if mode == 2 {
        tab.toggle_all_time()
    } else {
        tab
    }
}

/// The summary widget after one step down in a mode.
pub open spec fn summary_step_down(mode: usize, tab: SummaryTab) -> SummaryTab {
    if mode == 0 {
        tab.down_monthly()
    } else if mode == 1 {
        tab.down_yearly()
    } else if mode == 2 {
        tab.toggle_all_time()
    } else {
        tab
    }
}

/// The Summary page after the up arrow: the widget and the selected tag row.
/// With the widgets shown, the first row leaves the table; from the mode
/// widget the table is entered at its last row, or skipped when it is empty.
/// With the widgets hidden, only the table moves, wrapping around. In the
/// all time mode the year and month widgets do not move; an unknown mode
/// changes nothing.
pub open spec fn summary_up_spec(
    hidden: bool,
    mode: usize,
    tab: SummaryTab,
    sel: Option<usize>,
    tags: int,
) -> (SummaryTab, Option<usize>) {
    if !hidden {
        if mode > 2 {
            (tab, sel)
        } else {
            match tab {
                SummaryTab::Table => if sel == Some(0usize) {
                    (summary_step_up(mode, tab), sel)
                } else {
                    (tab, Some(table_previous(sel, tags) as usize))
                },
                SummaryTab::ModeSelection => if tags > 0 {
                    (summary_step_up(mode, tab), Some((tags - 1) as usize))
                } else {
                    (summary_step_up(mode, summary_step_up(mode, tab)), None)
                },
                _ => if mode == 2 {
                    (tab, sel)
                } else {
                    (summary_step_up(mode, tab), sel)
                },
            }
        }
    } else if tags > 0 {
        if sel == Some(0usize) {
            (tab, Some((tags - 1) as usize))
        } else {
            (tab, Some(table_previous(sel, tags) as usize))
        }
    } else {
        (tab, sel)
    }
}

/// The Summary page after the down arrow (the mirror of `summary_up_spec`,
/// entering the table at its first row from the widget above it).
pub open spec fn summary_down_spec(
    hidden: bool,
    mode: usize,
    tab: SummaryTab,
    sel: Option<usize>,
    tags: int,
) -> (SummaryTab, Option<usize>) {
    if !hidden {
        if mode > 2 {
            (tab, sel)
        } else {
            let above = if mode == 0 {
                SummaryTab::Months
            } else if mode == 1 {
                SummaryTab::Years
            } else {
                SummaryTab::ModeSelection
            };
            if tab == SummaryTab::Table {
                if sel == Some((tags - 1) as usize) {
                    (summary_step_down(mode, tab), sel)
                } else {
                    (tab, Some(table_next(sel, tags) as usize))
                }
            } else if tab == above {
                if tags > 0 {
                    (summary_step_down(mode, tab), Some(0usize))
                } else {
                    (summary_step_down(mode, summary_step_down(mode, tab)), None)
                }
            } else if mode == 2 {
                (tab, sel)
            } else {
                (summary_step_down(mode, tab), sel)
            }
        }
    } else if tags > 0 {
        if sel == Some((tags - 1) as usize) {
            (tab, Some(0usize))
        } else {
            (tab, Some(table_next(sel, tags) as usize))
        }
    } else {
        (tab, sel)
    }
}

fn summary_up_once(mode: usize, tab: SummaryTab) -> (r: SummaryTab)
    ensures
        r == summary_step_up(mode, tab),
{
    let mut t = tab;
    if mode == 0 {
        t.change_tab_up_monthly()
    } else if mode == 1 {
        t.change_tab_up_yearly()
    } else if mode == 2 {
        t.change_tab_up_all_time()
    } else {
        tab
    }
}

fn summary_down_once(mode: usize, tab: SummaryTab) -> (r: SummaryTab)
    ensures
        r == summary_step_down(mode, tab),
{
    let mut t = tab;
    if mode == 0 {
        t.change_tab_down_monthly()
    } else if mode == 1 {
        t.change_tab_down_yearly()
    } else if mode == 2 {
        t.change_tab_down_all_time()
    } else {
        tab
    }
}

/// Moves the selection of the Summary page up (see `summary_up_spec`); the
/// table holds one row per tag.
pub fn do_summary_up(
    hidden: bool,
    mode: usize,
    summary_tab: &mut SummaryTab,
    table: &mut TableData,
    total_tags: usize,
)
    requires
        old(table).items@.len() == total_tags,
        old(table).state is Some ==> total_tags > 0,
    ensures
        final(table).items@ == old(table).items@,
        (*final(summary_tab), final(table).state) == summary_up_spec(
            hidden,
            mode,
            *old(summary_tab),
            old(table).state,
            total_tags as int,
        ),
{
    if !hidden {
        if mode <= 2 {
            match summary_tab {
                SummaryTab::Table => {
                    if table.state == Some(0) {
                        *summary_tab = summary_up_once(mode, *summary_tab);
                    } else {
                        table.previous();
                    }
                },
                SummaryTab::ModeSelection => {
                    if total_tags > 0 {
                        table.state = Some(total_tags - 1);
                        *summary_tab = summary_up_once(mode, *summary_tab);
                    } else {
                        *summary_tab = summary_up_once(mode, *summary_tab);
                        *summary_tab = summary_up_once(mode, *summary_tab);
                        table.state = None;
                    }
                },
                _ => {
                    if mode != 2 {
                        *summary_tab = summary_up_once(mode, *summary_tab);
                    }
                },
            }
        }
    } else if total_tags > 0 {
        if table.state == Some(0) {
            table.state = Some(total_tags - 1);
        } else {
            table.previous();
        }
    }
}

/// Moves the selection of the Summary page down (see `summary_down_spec`);
/// the table holds one row per tag.
pub fn do_summary_down(
    hidden: bool,
    mode: usize,
    summary_tab: &mut SummaryTab,
    table: &mut TableData,
    total_tags: usize,
)
    requires
        old(table).items@.len() == total_tags,
        old(table).state is Some ==> total_tags > 0,
        !hidden && mode <= 2 && *old(summary_tab) == SummaryTab::Table ==> total_tags > 0,
    ensures
        final(table).items@ == old(table).items@,
        (*final(summary_tab), final(table).state) == summary_down_spec(
            hidden,
            mode,
            *old(summary_tab),
            old(table).state,
            total_tags as int,
        ),
{
    if !hidden {
        if mode <= 2 {
            let above = if mode == 0 {
                SummaryTab::Months
            } else if mode == 1 {
                SummaryTab::Years
            } else {
                SummaryTab::ModeSelection
            };
            if *summary_tab == SummaryTab::Table {
                if table.state == Some(total_tags - 1) {
                    *summary_tab = summary_down_once(mode, *summary_tab);
                } else {
                    table.next();
                }
            } else if *summary_tab == above {
                if total_tags > 0 {
                    table.state = Some(0);
                    *summary_tab = summary_down_once(mode, *summary_tab);
                } else {
                    *summary_tab = summary_down_once(mode, *summary_tab);
                    *summary_tab = summary_down_once(mode, *summary_tab);
                    table.state = None;
                }
            } else if mode != 2 {
                *summary_tab = summary_down_once(mode, *summary_tab);
            }
        }
    } else if total_tags > 0 {
        if table.state == Some(total_tags - 1) {
            table.state = Some(0);
        } else {
            table.next();
        }
    }
}

/// The search results after the up arrow with no field selected: the row
/// above, wrapping from the first row to the last.
pub open spec fn search_up_spec(sel: Option<usize>, len: int, empty: bool) -> Option<usize> {
    if sel == Some(0usize) {
        Some((len - 1) as usize)
    } else if !empty {
        Some(table_previous(sel, len) as usize)
    } else {
        sel
    }
}

/// The search results after the down arrow with no field selected: the row
/// below, wrapping from the last row to the first.
pub open spec fn search_down_spec(sel: Option<usize>, len: int, empty: bool) -> Option<usize> {
    if sel == Some((len - 1) as usize) {
        Some(0usize)
    } else if !empty {
        Some(table_next(sel, len) as usize)
    } else {
        sel
    }
}

/// Moves the selected search result up (see `search_up_spec`).
pub fn do_search_table_up(table: &mut TableData, txs_empty: bool)
    requires
        !txs_empty ==> old(table).items@.len() > 0,
        old(table).state is Some ==> old(table).items@.len() > 0,
    ensures
        final(table).items@ == old(table).items@,
        final(table).state == search_up_spec(
            old(table).state,
            old(table).items@.len() as int,
            txs_empty,
        ),
{
    if table.state == Some(0) {
        table.state = Some(table.items.len() - 1);
    } else if !txs_empty {
        table.previous();
    }
}

/// Moves the selected search result down (see `search_down_spec`).
pub fn do_search_table_down(table: &mut TableData, txs_empty: bool)
    requires
        !txs_empty ==> old(table).items@.len() > 0,
        old(table).state is Some ==> old(table).items@.len() > 0,
        old(table).items@.len() > 0,
    ensures
        final(table).items@ == old(table).items@,
        final(table).state == search_down_spec(
            old(table).state,
            old(table).items@.len() as int,
            txs_empty,
        ),
{
    if table.state == Some((table.items.len() - 1) as usize) {
        table.state = Some(0);
    } else if !txs_empty {
        table.next();
    }
}

} // verus!
