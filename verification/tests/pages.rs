use rex_tui::add_tx_data::AddTxData;
use rex_tui::transfer_data::TransferData;

fn methods() -> Vec<String> {
    vec!["Cash".to_string(), "Bank".to_string()]
}

#[test]
fn add_tx_page_fields() {
    let mut data = AddTxData::custom("05-06-2023", "Rent", "Bank", "500", "Expense", "", 4);
    assert_eq!(data.get_all_texts(), vec!["2023-06-05", "Rent", "Bank", "500", "Expense", ""]);
    data.edit_details('!', false);
    assert_eq!(data.get_all_texts()[1], "Rent!");
    data.edit_details('x', true);
    assert_eq!(data.get_all_texts()[1], "Rent");
    let s = data.add_tx().expect("complete");
    assert_eq!(s.tags, "Unknown");
    assert_eq!(s.replaces_id, Some(4));
    assert_eq!(data.get_all_texts()[5], "Unknown");
}

#[test]
fn add_tx_page_first_missing_field() {
    let mut data = AddTxData::custom("05-06-2023", "", "Bank", "500", "Expense", "", 4);
    assert_eq!(data.add_tx().err(), Some("Details: Details cannot be empty".to_string()));
    let mut no_type = AddTxData::custom("05-06-2023", "x", "Bank", "500", "", "", 4);
    assert_eq!(no_type.add_tx().err(), Some("Tx Type: Transaction Type cannot be empty".to_string()));
}

#[test]
fn add_tx_page_checks() {
    let mut data = AddTxData::custom("05-6-2023", "", "cash ", "", "i", "", 0);
    assert_eq!(
        data.check_date().expect("parses"),
        "Date: Month length not acceptable. Example Date: 2022-05-01"
    );
    assert_eq!(data.get_all_texts()[0], "2023-06-05");
    assert_eq!(data.check_tx_method(&methods()), "TX Method: Transaction Method not found");
    assert_eq!(data.check_tx_type(), "TX Type: Transaction Type Accepted");
    assert_eq!(data.get_all_texts()[4], "Income");
}

#[test]
fn add_tx_page_status_keeps_twenty() {
    let mut data = AddTxData::new();
    for i in 0..25 {
        data.add_tx_status(&format!("s{i}"));
    }
    assert_eq!(data.tx_status.len(), 20);
    assert_eq!(data.tx_status[0], "s5");
}

#[test]
fn transfer_page_add() {
    let mut data = TransferData::custom("01-03-2024", "Move", "Cash", "Bank", "20", 7);
    assert_eq!(data.get_all_texts(), vec!["2024-03-01", "Move", "Cash", "Bank", "20", "Transfer"]);
    let s = data.add_tx().expect("complete");
    assert_eq!(s.tx_method, "Cash to Bank");
    assert_eq!(s.tx_type, "Transfer");
    assert_eq!(s.replaces_id, Some(7));
}

#[test]
fn transfer_page_same_method() {
    let mut data = TransferData::custom("01-03-2024", "Move", "Cash", "Cash", "20", 7);
    assert_eq!(
        data.add_tx().err(),
        Some("Tx Method: Transaction method From and To cannot be the same".to_string())
    );
    let mut no_to = TransferData::custom("01-03-2024", "Move", "Cash", "", "20", 7);
    assert_eq!(
        no_to.add_tx().err(),
        Some("To TX Method: Transaction method cannot be empty".to_string())
    );
}

#[test]
fn transfer_page_method_checks() {
    let mut data = TransferData::custom("01-03-2024", "", "Cash", "bnk", "", 0);
    assert_eq!(
        data.check_to(&methods()),
        "To TX Method: Transaction Method not found"
    );
    assert_eq!(data.get_all_texts()[3], "Bank");
    let mut same = TransferData::custom("01-03-2024", "", "Cash", "cash", "", 0);
    assert_eq!(
        same.check_to(&methods()),
        "To TX Method: To and From Transaction Methods cannot be the same"
    );
    assert_eq!(same.get_all_texts()[3], "cash");
    let mut clash = TransferData::custom("01-03-2024", "", "Cash ", "Cash", "", 0);
    assert_eq!(
        clash.check_from(&methods()),
        "From TX Method: To and From Transaction Methods cannot be the same"
    );
    assert_eq!(clash.get_all_texts()[2], "Cash ");
    let mut ok = TransferData::custom("01-03-2024", "", " Bank", "Cash", "", 0);
    assert_eq!(ok.check_from(&methods()), "From TX Method: Transaction Method Accepted");
    assert_eq!(ok.get_all_texts()[2], "Bank");
}

#[test]
fn transfer_page_edits() {
    let mut data = TransferData::new();
    data.edit_from('C', false);
    data.edit_to('B', false);
    data.edit_amount('5', false);
    data.edit_amount('0', false);
    data.edit_amount('0', true);
    assert_eq!(data.get_all_texts()[2..5].to_vec(), vec!["C", "B", "5"]);
}
