use rex_tui::clock::date_part;
use rex_tui::ui_state::IndexedData;

#[test]
fn date_part_takes_first_ten_chars() {
    assert_eq!(date_part("2024-03-09 12:30:00.123 +01:00"), "2024-03-09");
    assert_eq!(date_part("2024-03"), "2024-03");
    assert_eq!(date_part("2024-03-09"), "2024-03-09");
}

#[test]
fn monthly_at_selects_month() {
    let d = IndexedData::monthly_at(3);
    assert_eq!(d.index, 2);
    assert_eq!(d.titles.len(), 12);
    assert_eq!(d.titles[2], "March");
    let now = IndexedData::new_monthly();
    assert!(now.index < 12);
}

#[test]
fn yearly_at_selects_year() {
    assert_eq!(IndexedData::yearly_at(2024).index, 2);
    assert_eq!(IndexedData::yearly_at(2022).index, 0);
    assert_eq!(IndexedData::yearly_at(1999).index, 0);
}

#[test]
fn new_transaction_is_dated_today() {
    let tx = rex_tui::tx_data::TxData::new();
    let date = tx.get_all_texts()[0].to_string();
    assert_eq!(date.chars().count(), 10);
    let parts: Vec<&str> = date.split('-').collect();
    assert_eq!(parts.len(), 3);
    assert!(parts.iter().all(|p| p.chars().all(|c| c.is_ascii_digit())));
}
