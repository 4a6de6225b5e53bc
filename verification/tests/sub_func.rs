use rex_tui::db_values::{get_empty_changes, get_sql_dates};

#[test]
fn check_sql_dates() {
    let data = get_sql_dates(11, 2);
    let expected_data = ("2024-11-01".to_string(), "2024-11-31".to_string());
    assert_eq!(data, expected_data);
}

#[test]
fn sql_dates_pad_single_digit_month() {
    let data = get_sql_dates(3, 0);
    assert_eq!(data, ("2022-03-01".to_string(), "2022-03-31".to_string()));
}

#[test]
fn sql_dates_keep_large_year_index() {
    let data = get_sql_dates(12, 9);
    assert_eq!(data, ("9-12-01".to_string(), "9-12-31".to_string()));
}

#[test]
fn empty_changes_row() {
    let row = get_empty_changes();
    assert_eq!(row, vec!["Changes", "0.00", "0.00", "0.00", "0.00"]);
}
