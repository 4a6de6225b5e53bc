use vstd::prelude::*;

pub mod activity;
pub mod amount;
pub mod arrows;
pub mod add_tx_data;
pub mod chart;
pub mod clock;
pub mod date;
pub mod entry;
pub mod db_values;
pub mod outputs;
pub mod page_actions;
pub mod popup;
pub mod status_checks;
pub mod text;
pub mod transfer_data;
pub mod tx_data;
pub mod ui_state;
pub mod field_checks;
pub mod history;
pub mod keys;
pub mod method_input;
pub mod method_match;
pub mod navigation;
pub mod home_data;

verus! {

} // verus!
