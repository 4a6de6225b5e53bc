use rex_tui::date::verify_date;
use rex_tui::field_checks::{verify_tags, verify_tx_type};
use rex_tui::method_match::verify_ranked_method;
use rex_tui::navigation::{do_history_down, do_history_up, do_home_down, do_home_up};
use rex_tui::outputs::{AType, VerifyingOutput};
use rex_tui::status_checks::verify_tx_method;
use rex_tui::ui_state::{DateType, HistoryTab, HomeTab, TableData};

#[test]
fn tags_settle_after_one_check() {
    let mut t = " b ,a,, b,c ".to_string();
    verify_tags(&mut t);
    let once = t.clone();
    verify_tags(&mut t);
    assert_eq!(t, once);
    assert_eq!(once, "b, a, c");
}

#[test]
fn accepted_date_settles() {
    let mut d = " 2024 -03- 09".to_string();
    assert_eq!(verify_date(&mut d, &DateType::Exact), VerifyingOutput::Accepted(AType::Date));
    let once = d.clone();
    assert_eq!(verify_date(&mut d, &DateType::Exact), VerifyingOutput::Accepted(AType::Date));
    assert_eq!(d, once);
}

#[test]
fn tx_type_settles() {
    let mut t = "e".to_string();
    verify_tx_type(&mut t);
    let once = t.clone();
    assert_eq!(verify_tx_type(&mut t), VerifyingOutput::Accepted(AType::TxType));
    assert_eq!(t, once);
}

#[test]
fn second_method_check_accepts() {
    let methods = vec!["Cash".to_string(), "Bank Card".to_string()];
    let mut m = "ard".to_string();
    verify_ranked_method(&mut m, &methods);
    assert_eq!(m, "Bank Card");
    assert_eq!(verify_ranked_method(&mut m, &methods), VerifyingOutput::Accepted(AType::TxMethod));
    let mut s = "csh".to_string();
    assert_eq!(verify_tx_method(&mut s, &methods), "TX Method: Transaction Method not found");
    assert_eq!(verify_tx_method(&mut s, &methods), "TX Method: Transaction Method Accepted");
}

#[test]
fn home_and_history_moves_undo() {
    let rows: Vec<Vec<String>> = (0..4).map(|i| vec![i.to_string()]).collect();
    for start in [0usize, 1, 3] {
        let mut tab = HomeTab::Table;
        let mut t = TableData::new(rows.clone());
        t.state = Some(start);
        do_home_up(&mut tab, &mut t, false);
        do_home_down(&mut tab, &mut t, false);
        assert_eq!((tab, t.state), (HomeTab::Table, Some(start)));
        let mut h = HistoryTab::List;
        let mut ht = TableData::new(rows.clone());
        ht.state = Some(start);
        do_history_down(&mut h, &mut ht, false);
        do_history_up(&mut h, &mut ht, false);
        assert_eq!((h, ht.state), (HistoryTab::List, Some(start)));
    }
}
