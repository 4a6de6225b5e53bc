use rex_tui::method_match::{count_matches, step_tx_method, verify_ranked_method};
use rex_tui::outputs::{AType, CheckingError, NAType, StepType, SteppingError, TxType, VerifyingOutput};
use rex_tui::tx_data::{reorder_date_text, TxData};
use rex_tui::ui_state::{DateType, TxTab};

fn methods() -> Vec<String> {
    vec!["Cash".to_string(), "Bank Card".to_string(), "Card".to_string()]
}

#[test]
fn custom_reorders_date() {
    let tx = TxData::custom("12-05-2022", "Food", "Cash", "", "100.00", "Expense", "Food", 3);
    let texts = tx.get_all_texts();
    assert_eq!(texts, vec!["2022-05-12", "Food", "Cash", "", "100.00", "Expense", "Food", ""]);
    assert_eq!(reorder_date_text("01-02-2023"), "2023-02-01");
}

#[test]
fn typing_at_the_cursor() {
    let mut tx = TxData::new_empty();
    tx.edit_details(Some('a'));
    tx.edit_details(Some('c'));
    tx.move_index_left(&TxTab::Details);
    tx.edit_details(Some('b'));
    assert_eq!(tx.get_all_texts()[1], "abc");
    assert_eq!(tx.get_current_index(), 2);
    tx.edit_details(None);
    assert_eq!(tx.get_all_texts()[1], "ac");
    assert_eq!(tx.get_current_index(), 1);
    tx.move_index_right(&TxTab::Details);
    tx.move_index_right(&TxTab::Details);
    assert_eq!(tx.get_current_index(), 2);
}

#[test]
fn type_then_backspace_restores() {
    let mut tx = TxData::new_empty();
    for c in "Salary".chars() {
        tx.edit_details(Some(c));
    }
    tx.move_index_left(&TxTab::Details);
    tx.edit_details(Some('x'));
    tx.edit_details(None);
    assert_eq!(tx.get_all_texts()[1], "Salary");
    assert_eq!(tx.get_current_index(), 5);
}

#[test]
fn tx_type_check_and_steps() {
    let mut tx = TxData::new_empty();
    tx.edit_tx_type(Some('e'));
    assert_eq!(tx.check_tx_type(), VerifyingOutput::Accepted(AType::TxType));
    assert_eq!(tx.get_all_texts()[5], "Expense");
    assert_eq!(tx.get_current_index(), 7);
    assert_eq!(tx.do_tx_type_up(), Ok(()));
    assert_eq!(tx.get_all_texts()[5], "Income");
    assert_eq!(tx.do_tx_type_down(), Ok(()));
    assert_eq!(tx.get_all_texts()[5], "Expense");
    let mut bad = TxData::new_empty();
    bad.edit_tx_type(Some('x'));
    assert_eq!(bad.check_tx_type(), VerifyingOutput::NotAccepted(NAType::InvalidTxType));
    assert_eq!(bad.get_all_texts()[5], "");
    let mut stepping = TxData::new_empty();
    stepping.edit_tx_type(Some('q'));
    assert_eq!(stepping.do_tx_type_up(), Err(SteppingError::InvalidTxType));
}

#[test]
fn transfer_type() {
    let tx = TxData::custom("", "", "Cash", "Card", "1", "Transfer", "", 0);
    assert_eq!(tx.get_tx_type(), TxType::Transfer);
    let other = TxData::new_empty();
    assert_eq!(other.get_tx_type(), TxType::IncomeExpense);
}

#[test]
fn all_fields_checked_in_order() {
    let mut empty = TxData::new_empty();
    assert_eq!(empty.check_all_fields(), Some(CheckingError::EmptyDate));
    assert!(empty.check_all_empty());
    let mut no_method = TxData::custom("01-01-2022", "", "", "", "1", "Income", "", 0);
    assert_eq!(no_method.check_all_fields(), Some(CheckingError::EmptyMethod));
    let mut no_amount = TxData::custom("01-01-2022", "", "Cash", "", "", "Income", "", 0);
    assert_eq!(no_amount.check_all_fields(), Some(CheckingError::EmptyAmount));
    let mut no_type = TxData::custom("01-01-2022", "", "Cash", "", "5", "", "", 0);
    assert_eq!(no_type.check_all_fields(), Some(CheckingError::EmptyTxType));
    let mut same = TxData::custom("01-01-2022", "", "Cash", "Cash", "5", "Transfer", "", 0);
    assert_eq!(same.check_all_fields(), Some(CheckingError::SameTxMethod));
    let mut half = TxData::custom("01-01-2022", "", "Cash", "", "5", "Transfer", "", 0);
    assert_eq!(half.check_all_fields(), Some(CheckingError::EmptyMethod));
    let mut fine = TxData::custom("01-01-2022", "", "Cash", "", "5", "Income", "", 0);
    assert_eq!(fine.check_all_fields(), None);
    assert_eq!(fine.get_all_texts()[6], "Unknown");
}

#[test]
fn add_tx_gives_the_transaction() {
    let mut tx = TxData::custom("19-07-2022", "Lunch", "Cash", "Card", "10.00", "Transfer", "Food", 9);
    let s = tx.add_tx().expect("complete");
    assert_eq!(s.tx_method, "Cash to Card");
    assert_eq!(s.date, "2022-07-19");
    assert_eq!(s.replaces_id, Some(9));
    let mut fresh = TxData::custom("19-07-2022", "", "Cash", "", "1.00", "Income", "", 0);
    let mut t2 = TxData::new_empty();
    assert!(t2.add_tx().is_err());
    let s2 = fresh.add_tx().expect("complete");
    assert_eq!(s2.tx_method, "Cash");
    assert_eq!(s2.tags, "Unknown");
}

#[test]
fn status_keeps_thirty_lines() {
    let mut tx = TxData::new_empty();
    for i in 0..35 {
        tx.add_tx_status(format!("line {i}"));
    }
    let status = tx.get_tx_status();
    assert_eq!(status.len(), 30);
    assert_eq!(status[0], "line 5");
    assert_eq!(status[29], "line 34");
}

#[test]
fn tags_are_tidied() {
    let mut tx = TxData::custom("", "", "", "", "", "", " food,car , food,, ", 0);
    tx.check_tags();
    assert_eq!(tx.get_all_texts()[6], "food, car");
}

#[test]
fn date_check_and_steps() {
    let mut tx = TxData::custom("31-12-2022", "", "", "", "", "", "", 0);
    assert_eq!(tx.check_date(&DateType::Exact), VerifyingOutput::Accepted(AType::Date));
    assert_eq!(tx.do_date_up(&DateType::Exact), Ok(()));
    assert_eq!(tx.get_all_texts()[0], "2023-01-01");
    assert_eq!(tx.do_date_down(&DateType::Exact), Ok(()));
    assert_eq!(tx.get_all_texts()[0], "2022-12-31");
    tx.clear_date();
    assert_eq!(tx.get_all_texts()[0], "");
}

#[test]
fn method_check_corrects_to_best_match() {
    let mut m = " cash ".to_string();
    assert_eq!(verify_ranked_method(&mut m, &methods()), VerifyingOutput::Accepted(AType::TxMethod));
    assert_eq!(m, "Cash");
    let mut c = "card".to_string();
    assert_eq!(verify_ranked_method(&mut c, &methods()), VerifyingOutput::Accepted(AType::TxMethod));
    assert_eq!(c, "Card");
    let mut partial = "car".to_string();
    assert_eq!(
        verify_ranked_method(&mut partial, &methods()),
        VerifyingOutput::NotAccepted(NAType::InvalidTxMethod)
    );
    assert_eq!(partial, "Card");
    let mut unknown = "zzz".to_string();
    verify_ranked_method(&mut unknown, &methods());
    assert_eq!(unknown, "Cash");
    let mut blank = "   ".to_string();
    assert_eq!(verify_ranked_method(&mut blank, &methods()), VerifyingOutput::Nothing(AType::TxMethod));
    assert_eq!(blank, "");
}

#[test]
fn matches_are_counted_without_overlap() {
    assert_eq!(count_matches("aaaa", "aa"), 2);
    assert_eq!(count_matches("bank card", "a"), 2);
    assert_eq!(count_matches("abc", "d"), 0);
}

#[test]
fn method_steps_wrap() {
    let mut m = "Card".to_string();
    assert_eq!(step_tx_method(&mut m, StepType::StepUp, &methods()), Ok(()));
    assert_eq!(m, "Cash");
    assert_eq!(step_tx_method(&mut m, StepType::StepDown, &methods()), Ok(()));
    assert_eq!(m, "Card");
    let mut blank = String::new();
    assert_eq!(step_tx_method(&mut blank, StepType::StepUp, &methods()), Ok(()));
    assert_eq!(blank, "Bank Card");
    let mut bad = "zz".to_string();
    assert_eq!(step_tx_method(&mut bad, StepType::StepUp, &methods()), Err(SteppingError::InvalidTxMethod));
    assert_eq!(bad, "Cash");
}

#[test]
fn tx_data_method_fields() {
    let mut tx = TxData::custom("", "", "bank", "cash", "", "Transfer", "", 0);
    assert_eq!(
        tx.check_from_method(&methods()),
        VerifyingOutput::NotAccepted(NAType::InvalidTxMethod)
    );
    assert_eq!(tx.get_all_texts()[2], "Bank Card");
    assert_eq!(tx.check_to_method(&methods()), VerifyingOutput::Accepted(AType::TxMethod));
    assert_eq!(tx.get_all_texts()[3], "Cash");
    assert_eq!(tx.do_to_method_up(&methods()), Ok(()));
    assert_eq!(tx.get_all_texts()[3], "Bank Card");
    assert_eq!(tx.do_from_method_down(&methods()), Ok(()));
    assert_eq!(tx.get_all_texts()[2], "Cash");
}
