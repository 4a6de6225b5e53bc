use rex_tui::chart::ChartData;
use rex_tui::ui_state::IndexedData;

fn months_with(rows_at: &[(usize, &str)]) -> ChartData {
    let mut per_month: Vec<(Vec<Vec<String>>, Vec<Vec<String>>)> = vec![(Vec::new(), Vec::new()); 48];
    for (k, date) in rows_at {
        per_month[*k].0.push(vec![date.to_string(), "x".to_string()]);
        per_month[*k].1.push(vec!["1.00".to_string()]);
    }
    ChartData::new(per_month)
}

#[test]
fn dates_of_a_month() {
    let data = months_with(&[(14, "05-03-2023"), (14, "29-02-2024"), (3, "01-04-2022")]);
    let mut mode = IndexedData::new_modes();
    mode.index = 0;
    assert_eq!(data.get_all_dates(&mode, 2, 1), vec![(2023, 3, 5), (2024, 2, 29)]);
    mode.index = 2;
    assert_eq!(
        data.get_all_dates(&mode, 0, 0),
        vec![(2022, 4, 1), (2023, 3, 5), (2024, 2, 29)]
    );
}

#[test]
fn checked_dates_refuses_unreadable_dates() {
    let data = months_with(&[(0, "31-02-2022")]);
    let mut mode = IndexedData::new_modes();
    mode.index = 0;
    assert_eq!(data.checked_dates(&mode, 0, 0), None);
    let good = months_with(&[(0, "28-02-2022")]);
    assert_eq!(good.checked_dates(&mode, 0, 0), Some(vec![(2022, 2, 28)]));
}
