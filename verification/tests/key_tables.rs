use rex_tui::keys::{
    chart_keys, command_output, entry_keys, history_keys, home_keys, initial_keys, summary_keys,
    Command, Key,
};
use rex_tui::outputs::HandlingOutput;
use rex_tui::ui_state::{PopupState, TxTab};

#[test]
fn home_page_keys() {
    assert_eq!(home_keys(&PopupState::Nothing, Key::Char('q')), Command::Quit);
    assert_eq!(home_keys(&PopupState::Nothing, Key::Char('j')), Command::TakeUserInput);
    assert_eq!(home_keys(&PopupState::Nothing, Key::Up), Command::ArrowUp);
    assert_eq!(home_keys(&PopupState::Nothing, Key::Char('x')), Command::Nothing);
    assert_eq!(home_keys(&PopupState::TxDeletion, Key::Enter), Command::DeletionChoice);
    assert_eq!(home_keys(&PopupState::TxDeletion, Key::Char('q')), Command::Nothing);
    assert_eq!(home_keys(&PopupState::HomeHelp, Key::Down), Command::PopupScrollDown);
    assert_eq!(home_keys(&PopupState::HomeHelp, Key::Esc), Command::ClosePopup);
    assert_eq!(home_keys(&PopupState::ChartHelp, Key::Up), Command::ClosePopup);
}

#[test]
fn entry_page_keys() {
    let p = PopupState::Nothing;
    assert_eq!(entry_keys(&p, TxTab::Nothing, Key::Char('3'), false), Command::NumberPress);
    assert_eq!(entry_keys(&p, TxTab::Nothing, Key::Char('t'), false), Command::GoTransfer);
    assert_eq!(entry_keys(&p, TxTab::Nothing, Key::Char('t'), true), Command::Nothing);
    assert_eq!(entry_keys(&p, TxTab::Nothing, Key::Char('s'), true), Command::SaveTransfer);
    assert_eq!(entry_keys(&p, TxTab::Amount, Key::Char('5'), false), Command::EditField(TxTab::Amount));
    assert_eq!(entry_keys(&p, TxTab::Amount, Key::Tab, true), Command::Autofill);
    assert_eq!(entry_keys(&p, TxTab::Amount, Key::Tab, false), Command::EditField(TxTab::Amount));
    assert_eq!(entry_keys(&p, TxTab::TxType, Key::Char('e'), true), Command::Nothing);
    assert_eq!(entry_keys(&p, TxTab::Date, Key::Left, false), Command::ArrowLeft);
    assert_eq!(entry_keys(&PopupState::AddTxHelp, TxTab::Date, Key::Left, false), Command::ClosePopup);
}

#[test]
fn other_page_keys() {
    let p = PopupState::Nothing;
    assert_eq!(chart_keys(&p, Key::Char('R')), Command::ChartLegends);
    assert_eq!(chart_keys(&p, Key::Char(' ')), Command::ChartMethodToggle);
    assert_eq!(summary_keys(&p, Key::Enter), Command::SearchTag);
    assert_eq!(summary_keys(&PopupState::SummaryHelp, Key::Up), Command::PopupScrollUp);
    assert_eq!(history_keys(&p, Key::Char('z')), Command::GoSummary);
    assert_eq!(initial_keys(&p, Key::Char('x')), Command::GoHome);
    assert_eq!(
        initial_keys(&PopupState::NewUpdate(vec!["1".to_string(), "n".to_string()]), Key::Enter),
        Command::UpdatePopup
    );
    assert_eq!(command_output(Command::Quit), Some(HandlingOutput::QuitUi));
    assert_eq!(command_output(Command::GoHome), None);
}
