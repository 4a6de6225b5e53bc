use rex_tui::navigation::{
    do_chart_down, do_chart_up, do_history_down, do_history_up, do_home_down, do_home_up,
    do_search_table_down, do_search_table_up, do_summary_down, do_summary_up, number_tab,
};
use rex_tui::outputs::TxType;
use rex_tui::ui_state::{ChartTab, HistoryTab, HomeTab, SummaryTab, TableData, TxTab};

fn table(n: usize) -> TableData {
    TableData::new((0..n).map(|i| vec![i.to_string()]).collect())
}

#[test]
fn home_moves() {
    let mut tab = HomeTab::Months;
    let mut t = table(3);
    do_home_down(&mut tab, &mut t, false);
    assert_eq!((tab, t.state), (HomeTab::Table, Some(0)));
    do_home_down(&mut tab, &mut t, false);
    do_home_down(&mut tab, &mut t, false);
    assert_eq!(t.state, Some(2));
    do_home_down(&mut tab, &mut t, false);
    assert_eq!((tab, t.state), (HomeTab::Years, None));
    do_home_up(&mut tab, &mut t, false);
    assert_eq!((tab, t.state), (HomeTab::Table, Some(2)));
    do_home_up(&mut tab, &mut t, false);
    assert_eq!(t.state, Some(1));
}

#[test]
fn home_moves_without_transactions() {
    let mut tab = HomeTab::Months;
    let mut t = table(0);
    do_home_down(&mut tab, &mut t, true);
    assert_eq!((tab, t.state), (HomeTab::Years, None));
    do_home_up(&mut tab, &mut t, true);
    assert_eq!((tab, t.state), (HomeTab::Months, None));
}

#[test]
fn history_moves() {
    let mut tab = HistoryTab::Months;
    let mut t = table(2);
    do_history_down(&mut tab, &mut t, false);
    assert_eq!((tab, t.state), (HistoryTab::List, Some(0)));
    do_history_up(&mut tab, &mut t, false);
    assert_eq!((tab, t.state), (HistoryTab::Months, None));
    do_history_up(&mut tab, &mut t, false);
    assert_eq!(tab, HistoryTab::Years);
    do_history_up(&mut tab, &mut t, false);
    assert_eq!((tab, t.state), (HistoryTab::List, Some(1)));
}

#[test]
fn chart_moves() {
    let mut tab = ChartTab::ModeSelection;
    do_chart_down(false, 0, &mut tab);
    assert_eq!(tab, ChartTab::Years);
    do_chart_up(false, 0, &mut tab);
    assert_eq!(tab, ChartTab::ModeSelection);
    do_chart_down(true, 0, &mut tab);
    assert_eq!(tab, ChartTab::ModeSelection);
    do_chart_down(false, 2, &mut tab);
    assert_eq!(tab, ChartTab::ModeSelection);
}

#[test]
fn summary_moves() {
    let mut tab = SummaryTab::Months;
    let mut t = table(2);
    do_summary_down(false, 0, &mut tab, &mut t, 2);
    assert_eq!((tab, t.state), (SummaryTab::Table, Some(0)));
    do_summary_down(false, 0, &mut tab, &mut t, 2);
    do_summary_down(false, 0, &mut tab, &mut t, 2);
    assert_eq!(tab, SummaryTab::ModeSelection);
    do_summary_up(false, 0, &mut tab, &mut t, 2);
    assert_eq!((tab, t.state), (SummaryTab::Table, Some(1)));
    let mut empty_tab = SummaryTab::ModeSelection;
    let mut empty = table(0);
    do_summary_up(false, 0, &mut empty_tab, &mut empty, 0);
    assert_eq!((empty_tab, empty.state), (SummaryTab::Months, None));
    let mut hidden = table(3);
    let mut any = SummaryTab::Years;
    do_summary_up(true, 0, &mut any, &mut hidden, 3);
    assert_eq!(hidden.state, Some(0));
}

#[test]
fn search_rows_wrap() {
    let mut t = table(3);
    t.state = Some(0);
    do_search_table_up(&mut t, false);
    assert_eq!(t.state, Some(2));
    do_search_table_down(&mut t, false);
    assert_eq!(t.state, Some(0));
}

#[test]
fn number_keys() {
    assert_eq!(number_tab(TxType::IncomeExpense, '5', TxTab::Nothing), TxTab::Amount);
    assert_eq!(number_tab(TxType::Transfer, '5', TxTab::Nothing), TxTab::ToMethod);
    assert_eq!(number_tab(TxType::Transfer, '7', TxTab::Nothing), TxTab::Tags);
    assert_eq!(number_tab(TxType::IncomeExpense, '7', TxTab::Date), TxTab::Date);
}
