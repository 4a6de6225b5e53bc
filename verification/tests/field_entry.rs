use rex_tui::entry::{
    check_date_field, check_details_field, check_from_field, check_tags_field, check_to_field,
    check_type_field, leave_field, step_selected_field,
};
use rex_tui::keys::Key;
use rex_tui::outputs::{AType, NAType, VerifyingOutput};
use rex_tui::tx_data::TxData;
use rex_tui::ui_state::{DateType, TxTab};

fn type_text(data: &mut TxData, tab: &mut TxTab, text: &str, field: fn(&mut TxData, &mut TxTab, Key)) {
    for c in text.chars() {
        field(data, tab, Key::Char(c));
    }
}

fn methods() -> Vec<String> {
    vec!["Cash".to_string(), "Bank".to_string()]
}

#[test]
fn date_enter_accepts_and_moves_to_details() {
    let mut data = TxData::new_empty();
    let mut tab = TxTab::Date;
    for c in "2024-03-09".chars() {
        check_date_field(&mut data, &mut tab, Key::Char(c), &DateType::Exact);
    }
    assert_eq!(tab, TxTab::Date);
    assert_eq!(data.get_all_texts()[0], "2024-03-09");
    check_date_field(&mut data, &mut tab, Key::Enter, &DateType::Exact);
    assert_eq!(tab, TxTab::Details);
    assert_eq!(data.get_tx_status(), &vec!["Date:  Accepted".to_string()]);
    assert_eq!(data.get_current_index(), 0);
}

#[test]
fn date_not_accepted_keeps_the_field() {
    let mut data = TxData::new_empty();
    let mut tab = TxTab::Date;
    for c in "2024-13-09".chars() {
        check_date_field(&mut data, &mut tab, Key::Char(c), &DateType::Exact);
    }
    check_date_field(&mut data, &mut tab, Key::Esc, &DateType::Exact);
    assert_eq!(tab, TxTab::Date);
    assert_eq!(data.get_tx_status().len(), 1);
    assert_eq!(
        data.get_tx_status()[0],
        VerifyingOutput::NotAccepted(NAType::MonthTooBig).to_text()
    );
}

#[test]
fn date_esc_on_empty_date_leaves_no_field_selected() {
    let mut data = TxData::new_empty();
    let mut tab = TxTab::Date;
    check_date_field(&mut data, &mut tab, Key::Esc, &DateType::Exact);
    assert_eq!(tab, TxTab::Nothing);
    assert_eq!(data.get_tx_status(), &vec!["Date: Accepted".to_string()]);
}

#[test]
fn backspace_removes_before_cursor() {
    let mut data = TxData::new_empty();
    let mut tab = TxTab::Details;
    type_text(&mut data, &mut tab, "abc", check_details_field);
    check_details_field(&mut data, &mut tab, Key::Backspace);
    assert_eq!(data.get_all_texts()[1], "ab");
    assert_eq!(data.get_current_index(), 2);
    check_details_field(&mut data, &mut tab, Key::Up);
    assert_eq!(data.get_all_texts()[1], "ab");
    assert_eq!(tab, TxTab::Details);
}

#[test]
fn details_enter_moves_to_type_with_cursor_at_end() {
    let mut data = TxData::custom("", "", "", "", "", "Income", "", 0);
    let mut tab = TxTab::Details;
    check_details_field(&mut data, &mut tab, Key::Enter);
    assert_eq!(tab, TxTab::TxType);
    assert_eq!(data.get_current_index(), 6);
    assert!(data.get_tx_status().is_empty());
    check_details_field(&mut data, &mut tab, Key::Esc);
    assert_eq!(tab, TxTab::Nothing);
}

#[test]
fn type_field_expands_short_type() {
    let mut data = TxData::new_empty();
    let mut tab = TxTab::TxType;
    check_type_field(&mut data, &mut tab, Key::Char('e'), );
    check_type_field(&mut data, &mut tab, Key::Enter);
    assert_eq!(data.get_all_texts()[5], "Expense");
    assert_eq!(tab, TxTab::FromMethod);
    assert_eq!(data.get_tx_status()[0], VerifyingOutput::Accepted(AType::TxType).to_text());
}

#[test]
fn from_field_goes_to_amount_or_to_method() {
    let mut data = TxData::custom("", "", "", "", "", "Expense", "", 0);
    let mut tab = TxTab::FromMethod;
    type_text(&mut data, &mut tab, "cash", |d, t, k| check_from_field(d, t, k, &methods()));
    check_from_field(&mut data, &mut tab, Key::Enter, &methods());
    assert_eq!(data.get_all_texts()[2], "Cash");
    assert_eq!(tab, TxTab::Amount);

    let mut transfer = TxData::custom("", "", "", "", "", "Transfer", "", 0);
    let mut tab = TxTab::FromMethod;
    type_text(&mut transfer, &mut tab, "Bank", |d, t, k| check_from_field(d, t, k, &methods()));
    check_from_field(&mut transfer, &mut tab, Key::Enter, &methods());
    assert_eq!(tab, TxTab::ToMethod);
    type_text(&mut transfer, &mut tab, "Cash", |d, t, k| check_to_field(d, t, k, &methods()));
    tab = TxTab::ToMethod;
    check_to_field(&mut transfer, &mut tab, Key::Enter, &methods());
    assert_eq!(tab, TxTab::Amount);
}

#[test]
fn tags_field_tidies_and_leaves() {
    let mut data = TxData::new_empty();
    let mut tab = TxTab::Tags;
    type_text(&mut data, &mut tab, " food,, rent ", check_tags_field);
    check_tags_field(&mut data, &mut tab, Key::Enter);
    assert_eq!(data.get_all_texts()[6], "food, rent");
    assert_eq!(tab, TxTab::Nothing);
    assert_eq!(data.get_current_index(), 10);
}

#[test]
fn leave_field_after_amount_check() {
    let mut data = TxData::custom("", "", "", "", "12", "Expense", "food", 0);
    let mut tab = TxTab::Amount;
    leave_field(&mut data, &mut tab, Key::Enter, VerifyingOutput::Accepted(AType::Amount), TxTab::Tags);
    assert_eq!(tab, TxTab::Tags);
    assert_eq!(data.get_current_index(), 4);
    let mut tab = TxTab::Amount;
    leave_field(
        &mut data,
        &mut tab,
        Key::Enter,
        VerifyingOutput::NotAccepted(NAType::AmountBelowZero),
        TxTab::Tags,
    );
    assert_eq!(tab, TxTab::Amount);
    assert_eq!(data.get_tx_status().len(), 2);
}

#[test]
fn typing_then_backspace_gives_field_back() {
    let mut data = TxData::custom("09-03-2024", "Lunch", "Cash", "", "12", "Expense", "food", 1);
    let mut tab = TxTab::Details;
    data.go_current_index(&TxTab::Details);
    let before = data.get_all_texts().iter().map(|s| s.to_string()).collect::<Vec<_>>();
    let index = data.get_current_index();
    check_details_field(&mut data, &mut tab, Key::Char('!'));
    assert_eq!(data.get_all_texts()[1], "Lunch!");
    check_details_field(&mut data, &mut tab, Key::Backspace);
    let after = data.get_all_texts().iter().map(|s| s.to_string()).collect::<Vec<_>>();
    assert_eq!(after, before);
    assert_eq!(data.get_current_index(), index);
}

#[test]
fn stepping_selected_fields() {
    let mut data = TxData::custom("31-12-2022", "", "Cash", "", "", "Income", "", 0);
    assert!(step_selected_field(&mut data, TxTab::Date, true, &DateType::Exact, &methods()));
    assert_eq!(data.get_all_texts()[0], "2023-01-01");
    assert!(step_selected_field(&mut data, TxTab::TxType, false, &DateType::Exact, &methods()));
    assert_eq!(data.get_all_texts()[5], "Expense");
    assert!(step_selected_field(&mut data, TxTab::FromMethod, true, &DateType::Exact, &methods()));
    assert_eq!(data.get_current_index(), data.get_all_texts()[2].chars().count());
    assert!(!step_selected_field(&mut data, TxTab::Amount, true, &DateType::Exact, &methods()));
    assert!(data.get_tx_status().is_empty());
    let mut bad = TxData::custom("", "", "", "", "", "x", "", 0);
    assert!(step_selected_field(&mut bad, TxTab::TxType, true, &DateType::Exact, &methods()));
    assert_eq!(bad.get_tx_status().len(), 1);
}

#[test]
fn cursor_counts_bytes() {
    let mut data = TxData::custom("", "", "éé", "", "", "Expense", "", 0);
    data.go_current_index(&TxTab::FromMethod);
    assert_eq!(data.get_current_index(), 4);
    data.move_index_left(&TxTab::FromMethod);
    assert_eq!(data.get_current_index(), 3);
    data.move_index_right(&TxTab::FromMethod);
    assert_eq!(data.get_current_index(), 4);
    data.move_index_right(&TxTab::FromMethod);
    assert_eq!(data.get_current_index(), 4);
    data.edit_from_method(Some('x'));
    assert_eq!(data.get_all_texts()[2], "ééx");
    assert_eq!(data.get_current_index(), 5);
    data.edit_from_method(None);
    data.edit_from_method(None);
    assert_eq!(data.get_all_texts()[2], "é");
    assert_eq!(data.get_current_index(), 2);
}

#[test]
fn typing_inside_a_character_goes_before_it() {
    let mut data = TxData::custom("", "", "éé", "", "", "Expense", "", 0);
    data.go_current_index(&TxTab::FromMethod);
    data.move_index_left(&TxTab::FromMethod);
    data.edit_from_method(Some('x'));
    assert_eq!(data.get_all_texts()[2], "éxé");
    assert_eq!(data.get_current_index(), 3);
}

#[test]
fn accepting_suggestion_puts_cursor_at_byte_end() {
    let mut data = TxData::new_empty();
    data.check_autofill(&TxTab::Amount, "éé");
    assert_eq!(data.get_all_texts()[7], "");
    data.check_autofill(&TxTab::Details, "éé");
    assert_eq!(data.get_all_texts()[7], "éé");
    data.accept_autofill(&TxTab::Details);
    assert_eq!(data.get_all_texts()[1], "éé");
    assert_eq!(data.get_current_index(), 4);
    assert_eq!(data.get_all_texts()[7], "");
}
