use rex_tui::amount::{check_comparison, replace_text, transfer_sides, ComparisonType};
use rex_tui::outputs::{NAType, VerifyingOutput};
use rex_tui::tx_data::TxData;
use rex_tui::ui_state::TxTab;

#[test]
fn replacing_text() {
    assert_eq!(replace_text("b+b", "b", "10.00"), "10.00+10.00");
    assert_eq!(replace_text("aaa", "aa", "x"), "xa");
    assert_eq!(replace_text(">=100", ">=", ""), "100");
    assert_eq!(replace_text("abc", "z", "y"), "abc");
}

#[test]
fn comparisons() {
    assert_eq!(check_comparison(">=10"), ComparisonType::EqualOrBigger);
    assert_eq!(check_comparison("<=10"), ComparisonType::EqualOrSmaller);
    assert_eq!(check_comparison(">10"), ComparisonType::BiggerThan);
    assert_eq!(check_comparison("<10"), ComparisonType::SmallerThan);
    assert_eq!(check_comparison("10"), ComparisonType::Equal);
    assert_eq!(ComparisonType::EqualOrBigger.symbol(), Some(">="));
    assert_eq!(ComparisonType::Equal.symbol(), None);
}

#[test]
fn transfer_method_sides() {
    assert_eq!(transfer_sides("Cash to Bank"), Some(("Cash".to_string(), "Bank".to_string())));
    assert_eq!(transfer_sides("A to B to C"), Some(("A".to_string(), "B".to_string())));
    assert_eq!(transfer_sides("Cash"), None);
}

fn methods() -> Vec<String> {
    vec!["Cash".to_string(), "Bank".to_string()]
}

fn balances() -> Vec<String> {
    vec!["50.00".to_string(), "120.50".to_string()]
}

#[test]
fn b_shortcut() {
    let mut tx = TxData::custom("", "", "Bank", "", "B + 5", "Expense", "", 0);
    assert_eq!(tx.check_b_field(&methods(), &balances()), Ok(()));
    assert_eq!(tx.get_all_texts()[4], "120.50 + 5");
    let mut none = TxData::custom("", "", "", "", "b*2", "Expense", "", 0);
    assert_eq!(
        none.check_b_field(&methods(), &balances()),
        Err(VerifyingOutput::NotAccepted(NAType::InvalidBValue))
    );
    assert_eq!(none.get_all_texts()[4], "b*2");
    let mut unknown = TxData::custom("", "", "Card", "", "B", "Expense", "", 0);
    assert_eq!(unknown.check_b_field(&methods(), &balances()), Ok(()));
    assert_eq!(unknown.get_all_texts()[4], "B");
    let mut plain = TxData::custom("", "", "Cash", "", "12", "Expense", "", 0);
    assert_eq!(plain.check_b_field(&methods(), &balances()), Ok(()));
    assert_eq!(plain.get_all_texts()[4], "12");
}

#[test]
fn amount_around_the_check() {
    let tx = TxData::custom("", "", "", "", ">=100", "", "", 0);
    let (c, rest) = tx.amount_to_verify(true);
    assert_eq!((c, rest.as_str()), (ComparisonType::EqualOrBigger, "100"));
    let (c2, rest2) = tx.amount_to_verify(false);
    assert_eq!((c2, rest2.as_str()), (ComparisonType::Equal, ">=100"));
    let mut tx2 = TxData::new_empty();
    tx2.finish_amount(ComparisonType::EqualOrBigger, "100.00");
    assert_eq!(tx2.get_all_texts()[4], ">=100.00");
    assert_eq!(tx2.get_current_index(), 8);
    tx2.move_index_left(&TxTab::Amount);
    assert_eq!(tx2.get_current_index(), 7);
}
