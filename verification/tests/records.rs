use rex_tui::activity::{ActivityData, ActivityDetails, ActivityTx};
use rex_tui::chart::ChartData;
use rex_tui::history::{self, HistoryData};
use rex_tui::home_data::TransactionData;
use rex_tui::ui_state::IndexedData;
use std::collections::HashMap;

fn s(v: &str) -> String {
    v.to_string()
}

fn atx(id: &str, num: i32, ins: i32) -> ActivityTx {
    ActivityTx::new(s("2022-01-01"), s("d"), s("Cash"), s("1.00"), s("Income"), s("t"), s(id), num, ins)
}

#[test]
fn activity_rows() {
    let acts = vec![
        ActivityDetails::new(s("2022-01-02"), s("Edit TX"), s("Edited"), 1),
        ActivityDetails::new(s("2022-01-03"), s("TX Position Swap"), s("Swapped"), 2),
        ActivityDetails::new(s("2022-01-04"), s("Add TX"), s("Added"), 3),
    ];
    let mut txs = HashMap::new();
    txs.insert(1, vec![atx("5", 1, 11), atx("5", 1, 10)]);
    txs.insert(2, vec![atx("1", 2, 20), atx("2", 2, 21)]);
    txs.insert(3, vec![atx("9", 3, 30)]);
    let data = ActivityData::new(acts, txs);
    assert!(!data.is_activity_empty());
    assert_eq!(data.get_txs()[1], vec!["2022-01-03", "TX Position Swap", "Swapped"]);
    let edit = data.get_activity_txs(Some(0));
    assert_eq!(edit[0].last().unwrap(), "Old Tx");
    assert_eq!(edit[1].last().unwrap(), "New Tx");
    let swap = data.get_activity_txs(Some(1));
    assert_eq!(swap[0].len(), 8);
    assert_eq!(swap[0][7], "New ID");
    let add = data.get_activity_txs(Some(2));
    assert_eq!(add[0].len(), 7);
    assert!(data.get_activity_txs(None).is_empty());
    assert!(data.add_extra_field(0));
    assert!(data.add_extra_field(1));
    assert!(!data.add_extra_field(2));
}

#[test]
fn history_rows() {
    let acts = vec![
        history::ActivityData::new(s("2022-01-02"), s("Edit TX"), s("Edited"), 1),
        history::ActivityData::new(s("2022-01-03"), s("TX Position Swap"), s("Swapped"), 2),
    ];
    let mut txs = HashMap::new();
    let h = |id: &str, num: i32, ins: i32| {
        history::ActivityTx::new(s("2022-01-01"), s("d"), s("Cash"), s("1.00"), s("Income"), s("t"), s(id), num, ins)
    };
    txs.insert(1, vec![h("5", 1, 11), h("5", 1, 10)]);
    txs.insert(2, vec![h("1", 2, 20), h("2", 2, 21)]);
    let data = HistoryData::new(acts, txs);
    let edit = data.get_activity_txs(Some(0));
    assert_eq!(edit[0].last().unwrap(), "New Tx");
    assert_eq!(edit[1].last().unwrap(), "Old Tx");
    let swap = data.get_activity_txs(Some(1));
    assert_eq!(swap[1][7], "New ID");
    assert_eq!(data.get_txs()[0], vec!["2022-01-02", "Edit TX", "Edited"]);
}

#[test]
fn transaction_table() {
    let tx = vec![vec![s("2022-01-01"), s("d"), s("Cash"), s("1.00"), s("Income"), s("t")]];
    let data = TransactionData::new(
        tx.clone(),
        vec![vec![s("1.00"), s("0.00")]],
        vec![vec![s("↑1.00"), s("0.00")]],
        vec![s("42")],
    );
    assert_eq!(data.get_txs(), tx);
    assert!(!data.is_tx_empty());
    assert_eq!(data.get_changes(0), vec!["Changes", "↑1.00", "0.00"]);
    assert_eq!(data.get_id_num(0), 42);
    assert_eq!(data.get_tx(0)[2], "Cash");
    assert_eq!(data.get_balance_row(0), &vec![s("1.00"), s("0.00")]);
    let search = TransactionData::new_search(Vec::new(), Vec::new());
    assert!(search.is_tx_empty());
}

fn month_rows(k: usize) -> (Vec<Vec<String>>, Vec<Vec<String>>) {
    (vec![vec![format!("tx{k}")]], vec![vec![format!("b{k}")]])
}

#[test]
fn chart_months() {
    let per_month: Vec<_> = (0..48).map(month_rows).collect();
    let chart = ChartData::new(per_month);
    let mut mode = IndexedData::new_modes();
    let (t, b) = chart.get_data(&mode, 3, 1);
    assert_eq!(t, vec![&vec![s("tx15")]]);
    assert_eq!(b, vec![&vec![s("b15")]]);
    mode.next();
    let (t, _) = chart.get_data(&mode, 3, 1);
    assert_eq!(t.len(), 12);
    assert_eq!(t[0][0], "tx12");
    assert_eq!(t[11][0], "tx23");
    mode.next();
    let (t, b) = chart.get_data(&mode, 0, 0);
    assert_eq!(t.len(), 48);
    assert_eq!(b[47][0], "b47");
}
