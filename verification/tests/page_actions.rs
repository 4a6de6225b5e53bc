use rex_tui::arrows::{arrow_effect, ArrowEffect, PageTabs, Reload, Selector};
use rex_tui::keys::Key;
use rex_tui::page_actions::{
    do_deletion_popup, do_help_popup, do_summary_hidden_mode, edit_target, handle_deletion_popup,
    select_after_delete, switch_partner_down, switch_partner_up, DeletionAction,
};
use rex_tui::ui_state::TableData;
use rex_tui::ui_state::{
    ChartTab, CurrentUi, DeletionStatus, HistoryTab, HomeTab, PopupState, SummaryTab,
};

fn row(date: &str, details: &str, method: &str, amount: &str, kind: &str, tags: &str) -> Vec<String> {
    [date, details, method, amount, kind, tags].iter().map(|s| s.to_string()).collect()
}

fn tabs(page: CurrentUi) -> PageTabs {
    PageTabs {
        page,
        home_tab: HomeTab::Months,
        chart_tab: ChartTab::Years,
        chart_hidden: false,
        summary_tab: SummaryTab::ModeSelection,
        summary_hidden: false,
        history_tab: HistoryTab::List,
    }
}

#[test]
fn edit_target_of_expense() {
    let r = row("09-03-2024", "Lunch", "Cash", "12.50", "Expense", "food");
    let tx = edit_target(&r, 7);
    assert_eq!(
        tx.get_all_texts(),
        vec!["2024-03-09", "Lunch", "Cash", "", "12.50", "Expense", "food", ""]
    );
}

#[test]
fn edit_target_of_transfer_splits_methods() {
    let r = row("01-02-2023", "Move", "Bank to Cash", "100.00", "Transfer", "Unknown");
    let tx = edit_target(&r, 3);
    assert_eq!(
        tx.get_all_texts(),
        vec!["2023-02-01", "Move", "Bank", "Cash", "100.00", "Transfer", "Unknown", ""]
    );
}

#[test]
fn switch_partners_need_same_date() {
    let rows = vec![
        row("01-02-2023", "a", "Cash", "1.00", "Expense", "x"),
        row("01-02-2023", "b", "Cash", "1.00", "Expense", "x"),
        row("02-02-2023", "c", "Cash", "1.00", "Expense", "x"),
    ];
    assert_eq!(switch_partner_up(Some(1), &rows), Some(0));
    assert_eq!(switch_partner_up(Some(0), &rows), None);
    assert_eq!(switch_partner_up(Some(2), &rows), None);
    assert_eq!(switch_partner_up(None, &rows), None);
    assert_eq!(switch_partner_down(Some(0), &rows), Some(1));
    assert_eq!(switch_partner_down(Some(1), &rows), None);
    assert_eq!(switch_partner_down(Some(2), &rows), None);
    let one = vec![row("01-02-2023", "a", "Cash", "1.00", "Expense", "x")];
    assert_eq!(switch_partner_down(Some(0), &one), None);
}

#[test]
fn arrows_per_page() {
    assert_eq!(
        arrow_effect(&tabs(CurrentUi::Home), false),
        ArrowEffect::Step(Selector::HomeMonths, Reload::HomeTable)
    );
    assert_eq!(
        arrow_effect(&tabs(CurrentUi::Chart), true),
        ArrowEffect::Step(Selector::ChartYears, Reload::Chart)
    );
    let mut hidden_chart = tabs(CurrentUi::Chart);
    hidden_chart.chart_hidden = true;
    assert_eq!(arrow_effect(&hidden_chart, true), ArrowEffect::Nothing);
    let mut hidden_summary = tabs(CurrentUi::Summary);
    hidden_summary.summary_hidden = true;
    assert_eq!(arrow_effect(&hidden_summary, false), ArrowEffect::Nothing);
    assert_eq!(
        arrow_effect(&hidden_summary, true),
        ArrowEffect::Step(Selector::SummaryModes, Reload::Summary)
    );
    assert_eq!(arrow_effect(&tabs(CurrentUi::History), true), ArrowEffect::Nothing);
    assert_eq!(arrow_effect(&tabs(CurrentUi::AddTx), true), ArrowEffect::AddTxCursor);
    assert_eq!(arrow_effect(&tabs(CurrentUi::Search), false), ArrowEffect::SearchCursor);
    assert_eq!(arrow_effect(&tabs(CurrentUi::Initial), false), ArrowEffect::Nothing);
}

#[test]
fn popups_by_page() {
    let mut popup = PopupState::Nothing;
    do_help_popup(CurrentUi::Chart, &mut popup);
    assert!(matches!(popup, PopupState::ChartHelp));
    do_help_popup(CurrentUi::Initial, &mut popup);
    assert!(matches!(popup, PopupState::ChartHelp));
    let mut popup = PopupState::Nothing;
    do_deletion_popup(CurrentUi::Home, None, &mut popup);
    assert!(matches!(popup, PopupState::Nothing));
    do_deletion_popup(CurrentUi::Search, Some(2), &mut popup);
    assert!(matches!(popup, PopupState::TxDeletion));
}

#[test]
fn deletion_popup_keys() {
    assert_eq!(handle_deletion_popup(DeletionStatus::Yes, Key::Left, CurrentUi::Home), DeletionAction::Toggle);
    assert_eq!(
        handle_deletion_popup(DeletionStatus::Yes, Key::Enter, CurrentUi::Home),
        DeletionAction::DeleteSelected
    );
    assert_eq!(handle_deletion_popup(DeletionStatus::Yes, Key::Enter, CurrentUi::Chart), DeletionAction::Nothing);
    assert_eq!(handle_deletion_popup(DeletionStatus::No, Key::Enter, CurrentUi::Home), DeletionAction::Close);
    assert_eq!(handle_deletion_popup(DeletionStatus::No, Key::Esc, CurrentUi::Home), DeletionAction::Nothing);
}

#[test]
fn summary_hidden_mode_toggles() {
    let mut hidden = false;
    let mut tab = SummaryTab::Months;
    let mut sel = None;
    do_summary_hidden_mode(&mut hidden, &mut tab, &mut sel, 3);
    assert!(hidden);
    assert_eq!(tab, SummaryTab::Table);
    assert_eq!(sel, Some(0));
    do_summary_hidden_mode(&mut hidden, &mut tab, &mut sel, 3);
    assert!(!hidden);
    assert_eq!(tab, SummaryTab::ModeSelection);
    assert_eq!(sel, Some(0));
    let mut sel = None;
    do_summary_hidden_mode(&mut hidden, &mut tab, &mut sel, 0);
    assert_eq!(sel, None);
}

#[test]
fn selection_after_delete() {
    let mut tab = HomeTab::Table;
    let mut table = TableData::new(vec![row("01-02-2023", "a", "Cash", "1.00", "Expense", "x")]);
    select_after_delete(1, &mut tab, &mut table);
    assert_eq!(table.state, Some(0));
    assert_eq!(tab, HomeTab::Table);
    select_after_delete(0, &mut tab, &mut table);
    assert_eq!(table.state, None);
    assert_eq!(tab, HomeTab::Months);
}
