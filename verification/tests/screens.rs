use rex_tui::outputs::{
    AType, CheckingError, LargestType, NAType, PeakType, SteppingError, UiHandlingError,
    VerifyingOutput,
};
use rex_tui::popup::{PopupData, ADD_TX_HELP, HOME_HELP};
use rex_tui::ui_state::PopupState;

#[test]
fn popup_for_help() {
    let mut p = PopupData::new();
    assert_eq!(p.title(), "");
    let text = p.popup_text(&PopupState::HomeHelp);
    assert_eq!(text, HOME_HELP);
    assert_eq!((p.title(), p.x_value(), p.y_value()), ("Help", 70, 70));
    let text = p.popup_text(&PopupState::AddTxHelp);
    assert!(text.starts_with("This page is for adding new transactions."));
    assert_eq!(text, ADD_TX_HELP);
    assert_eq!((p.x_value(), p.y_value()), (80, 90));
}

#[test]
fn popup_for_update_and_failure() {
    let mut p = PopupData::new();
    let data = vec!["1.2.0".to_string(), "one\ntwo".to_string()];
    let text = p.popup_text(&PopupState::NewUpdate(data));
    assert_eq!(
        text,
        "New version 1.2.0 is now available\n\nUpdates:\none\ntwo\nEnter: Redirect to the new version"
    );
    assert_eq!((p.title(), p.x_value(), p.y_value()), ("New Update", 50, 29));
    let text = p.popup_text(&PopupState::DeleteFailed("locked".to_string()));
    assert_eq!(text, "locked");
    assert_eq!((p.title(), p.x_value(), p.y_value()), ("Delete Failed", 50, 25));
    let before = (p.title(), p.x_value(), p.y_value());
    assert_eq!(p.popup_text(&PopupState::Nothing), "");
    assert_eq!((p.title(), p.x_value(), p.y_value()), before);
}

#[test]
fn messages() {
    assert_eq!(CheckingError::EmptyDate.to_text(), "Date: Date cannot be empty");
    assert_eq!(SteppingError::InvalidTxType.to_text().is_empty(), false);
    assert_eq!(VerifyingOutput::Accepted(AType::Date).to_text(), "Date:  Accepted");
    assert_eq!(
        NAType::ParsingError(AType::Amount).to_text(),
        "Amount: Error acquired while validating input"
    );
    assert_eq!(LargestType::Expense.to_text(), "Largest Expense");
    assert_eq!(PeakType::Earning.to_text(), "Peak Earning");
    assert_eq!(
        UiHandlingError::PollingError("closed".to_string()).to_text(),
        "Error while polling for keyboard input. closed"
    );
}
