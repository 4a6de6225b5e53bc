use rex_tui::method_input::{read_method_input, split_text, MethodInput};
use rex_tui::field_checks::{step_tx_type, verify_tags, verify_tx_type};
use rex_tui::outputs::{AType, NAType, VerifyingOutput};
use rex_tui::status_checks::{status_verify_tx_type, verify_tx_method};
use rex_tui::text::{
    add_char_to, char_count, contains_char, join, lower, prefix, remove_char, split_char, trim,
};
use rex_tui::home_data::TransactionData;

#[test]
fn trimming_and_splitting() {
    assert_eq!(trim("  a b \t"), "a b");
    assert_eq!(trim("   "), "");
    assert_eq!(split_char("a,,b", ','), vec!["a", "", "b"]);
    assert_eq!(split_char("", ','), vec![""]);
    assert_eq!(join(&vec!["x".to_string(), "y".to_string()], ", "), "x, y");
    assert_eq!(remove_char(" 2022 - 01 ", ' '), "2022-01");
    assert_eq!(prefix("abcdef", 3), "abc");
    assert_eq!(char_count("añb"), 3);
    assert!(contains_char("a-b", '-'));
}

#[test]
fn numbers() {
    let row = vec!["01-01-2022".to_string(); 6];
    let data = TransactionData::new_search(vec![row.clone(), row], vec!["-17".to_string(), "x".to_string()]);
    assert_eq!(data.checked_id_num(0), Some(-17));
    assert_eq!(data.checked_id_num(1), None);
    assert_eq!(data.checked_id_num(2), None);
    assert_eq!(lower("CaSh"), "cash");
}

#[test]
fn cursor_edits() {
    let mut idx = 1;
    let mut data = "ac".to_string();
    add_char_to(Some('b'), &mut idx, &mut data);
    assert_eq!((idx, data.as_str()), (2, "abc"));
    add_char_to(None, &mut idx, &mut data);
    assert_eq!((idx, data.as_str()), (1, "ac"));
    let mut far = 9;
    add_char_to(Some('z'), &mut far, &mut data);
    assert_eq!((far, data.as_str()), (2, "ac"));
}

#[test]
fn tx_type_expansion() {
    let mut t = " E xp".to_string();
    assert_eq!(verify_tx_type(&mut t), VerifyingOutput::Accepted(AType::TxType));
    assert_eq!(t, "Expense");
    let mut i = "in".to_string();
    verify_tx_type(&mut i);
    assert_eq!(i, "Income");
    let mut bad = "transfer".to_string();
    assert_eq!(verify_tx_type(&mut bad), VerifyingOutput::NotAccepted(NAType::InvalidTxType));
    assert_eq!(bad, "");
    let mut empty = "  ".to_string();
    assert_eq!(verify_tx_type(&mut empty), VerifyingOutput::Nothing(AType::TxType));
    let mut s = String::new();
    assert_eq!(step_tx_type(&mut s), Ok(()));
    assert_eq!(s, "Income");
    assert_eq!(step_tx_type(&mut s), Ok(()));
    assert_eq!(s, "Expense");
}

#[test]
fn status_tx_type() {
    let mut t = " e ".to_string();
    assert_eq!(status_verify_tx_type(&mut t), "TX Type: Transaction Type Accepted");
    assert_eq!(t, "Expense");
    let mut n = "x".to_string();
    assert_eq!(
        status_verify_tx_type(&mut n),
        "TX Type: Transaction Type not acceptable. Values: Expense/Income/E/I"
    );
    assert_eq!(n, "x");
    let mut e = "".to_string();
    assert_eq!(status_verify_tx_type(&mut e), "TX Type: Nothing to check");
}

#[test]
fn status_tx_method() {
    let methods = vec!["Cash".to_string(), "Bank".to_string()];
    let mut m = " Bank ".to_string();
    assert_eq!(verify_tx_method(&mut m, &methods), "TX Method: Transaction Method Accepted");
    assert_eq!(m, "Bank");
    let mut guess = "bnk".to_string();
    assert_eq!(verify_tx_method(&mut guess, &methods), "TX Method: Transaction Method not found");
    assert_eq!(guess, "Bank");
    let mut none = " ".to_string();
    assert_eq!(verify_tx_method(&mut none, &methods), "TX Method: Nothing to check");
}

#[test]
fn tags_cleanup() {
    let mut t = "a, b,a ,,c".to_string();
    verify_tags(&mut t);
    assert_eq!(t, "a, b, c");
}

#[test]
fn method_lines() {
    assert_eq!(split_text("Bank, Cash, , PayPal", ", "), vec!["Bank", "Cash", "", "PayPal"]);
    assert_eq!(split_text("Bank", ", "), vec!["Bank"]);
    let none: Vec<String> = Vec::new();
    assert_eq!(
        read_method_input("  Bank, Cash, Bank ", &none, false),
        MethodInput::Methods(vec!["Bank".to_string(), "Cash".to_string()])
    );
    assert_eq!(read_method_input("   ", &none, false), MethodInput::Empty);
    let existing = vec!["Bank".to_string()];
    assert_eq!(read_method_input("CANCEL please", &existing, true), MethodInput::Cancelled);
    assert_eq!(read_method_input("Bank", &existing, true), MethodInput::Empty);
    assert_eq!(
        read_method_input("Bank, Card", &existing, true),
        MethodInput::Methods(vec!["Card".to_string()])
    );
    assert_eq!(
        read_method_input("cancel", &existing, false),
        MethodInput::Methods(vec!["cancel".to_string()])
    );
}
