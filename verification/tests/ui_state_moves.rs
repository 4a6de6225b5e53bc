use rex_tui::ui_state::{
    months, years, modes, ActivityType, ChartTab, DateType, DeletionStatus, HistoryTab, HomeRow,
    HomeTab, IndexedData, SelectedTab, SortingType, SummaryTab, TableData, TimeData, UserInputType,
};

#[test]
fn home_tab_cycles() {
    let mut t = HomeTab::Years;
    assert_eq!(t.change_tab_up(), HomeTab::Table);
    assert_eq!(t.change_tab_down(), HomeTab::Months);
    let mut m = HomeTab::Months;
    let up = m.change_tab_up();
    let mut u = up;
    assert_eq!(u.change_tab_down(), HomeTab::Months);
}

#[test]
fn selected_tab_cycles() {
    let mut t = SelectedTab::Years;
    let down = t.change_tab_down();
    let mut d = down;
    assert_eq!(d.change_tab_up(), SelectedTab::Years);
}

#[test]
fn history_tab_cycles() {
    let mut t = HistoryTab::List;
    assert_eq!(t.change_tab_down(), HistoryTab::Years);
    assert_eq!(t.change_tab_up(), HistoryTab::Months);
}

#[test]
fn chart_and_summary_tabs_cycle() {
    let mut c = ChartTab::ModeSelection;
    let a = c.change_tab_up_monthly();
    let mut a2 = a;
    assert_eq!(a2.change_tab_down_monthly(), ChartTab::ModeSelection);
    let mut s = SummaryTab::ModeSelection;
    let b = s.change_tab_up_all_time();
    let mut b2 = b;
    assert_eq!(b2.change_tab_down_all_time(), SummaryTab::ModeSelection);
}

#[test]
fn choices_cycle() {
    let mut s = SortingType::ByTags;
    assert_eq!(s.next_type(), SortingType::ByIncome);
    let mut d = DeletionStatus::Yes;
    assert_eq!(d.next(), DeletionStatus::No);
    let mut t = DateType::Yearly;
    assert_eq!(t.next(), DateType::Exact);
}

#[test]
fn user_input_choices() {
    assert!(matches!(UserInputType::from_string("1"), UserInputType::AddNewTxMethod(v) if v.is_empty()));
    assert!(matches!(UserInputType::from_string("4"), UserInputType::SetNewLocation(p) if p.is_empty()));
    assert!(matches!(UserInputType::from_string("cancel"), UserInputType::CancelledOperation));
    assert!(matches!(UserInputType::from_string("7"), UserInputType::InvalidInput));
}

#[test]
fn home_row_kinds() {
    assert_eq!(HomeRow::get_row(&["Balance".to_string(), "1.00".to_string()]), HomeRow::Balance);
    assert_eq!(HomeRow::get_row(&["Changes".to_string()]), HomeRow::Changes);
}

#[test]
fn names_lists() {
    assert_eq!(months().len(), 12);
    assert_eq!(months()[0], "January");
    assert_eq!(years(), vec!["2022", "2023", "2024", "2025"]);
    assert_eq!(modes(), vec!["Monthly", "Yearly", "All Time"]);
}

#[test]
fn indexed_data_wraps() {
    let mut m = IndexedData::new_modes();
    assert_eq!(m.index, 0);
    m.previous();
    assert_eq!(m.index, 2);
    m.next();
    assert_eq!(m.index, 0);
    m.next();
    m.set_index_zero();
    assert_eq!(m.index, 0);
    let monthly = IndexedData::new_monthly();
    assert!(monthly.index < 12);
}

#[test]
fn time_data_wraps() {
    let mut t = TimeData::new(vec!["a", "b", "c"]);
    t.previous();
    assert_eq!(t.index, 2);
    t.next();
    assert_eq!(t.index, 0);
}

#[test]
fn table_moves() {
    let rows = vec![vec!["a".to_string()], vec!["b".to_string()]];
    let mut t = TableData::new(rows);
    assert_eq!(t.state, None);
    t.next();
    assert_eq!(t.state, Some(0));
    t.next();
    assert_eq!(t.state, Some(1));
    t.next();
    assert_eq!(t.state, Some(0));
    t.previous();
    assert_eq!(t.state, Some(1));
}

#[test]
fn activity_names_round_trip() {
    for name in ["Add TX", "Edit TX", "Delete TX", "TX Position Swap", "Search TX"] {
        assert_eq!(ActivityType::from_s(name).to_str(), name);
    }
    assert_eq!(ActivityType::from_s("Edit TX"), ActivityType::EditTX(None));
    assert_eq!(ActivityType::IDNumSwap(Some(1), Some(2)).to_str(), "TX Position Swap");
}
