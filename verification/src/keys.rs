use crate::outputs::HandlingOutput;
use crate::ui_state::{PopupState, TxTab};
use vstd::prelude::*;

verus! {

/// A key pressed in the interface.
#[derive(Clone, Copy, Debug, PartialEq, Eq, Structural)]
pub enum Key {
    Char(char),
    Up,
    Down,
    Left,
    Right,
    Enter,
    Esc,
    Tab,
    Backspace,
    Other,
}

/// What a key press asks the interface to do.
#[derive(Clone, Copy, Debug, PartialEq, Eq, Structural)]
pub enum Command {
    Quit,
    TakeUserInput,
    GoHome,
    GoAddTx,
    GoTransfer,
    GoChart,
    GoSummary,
    GoSearch,
    GoActivity,
    HelpPopup,
    DeletionPopup,
    ClosePopup,
    DeletionChoice,
    PopupScrollUp,
    PopupScrollDown,
    UpdatePopup,
    EditTx,
    SwitchTxUp,
    SwitchTxDown,
    ShowTxDetails,
    ArrowRight,
    ArrowLeft,
    ArrowUp,
    ArrowDown,
    SaveTx,
    SaveTransfer,
    ClearInput,
    NumberPress,
    Autofill,
    EditField(TxTab),
    ChartHiddenMode,
    ChartLegends,
    ChartMethodToggle,
    SummaryHiddenMode,
    SummarySort,
    SearchTag,
    Nothing,
}

/// Whether a character is numeric for std's `char::is_numeric`: among ASCII
/// characters exactly the digits; beyond ASCII the Unicode numeric
/// categories, named by `unicode_numeric`.
pub open spec fn numeric(c: char) -> bool {
    if (c as u32) < 128 {
        '0' <= c && c <= '9'
    } else {
        unicode_numeric(c)
    }
}

/// Whether a character beyond ASCII is numeric for std's `char::is_numeric`.
pub uninterp spec fn unicode_numeric(c: char) -> bool;

/// std's `char::is_numeric`: on ASCII it holds for the digits only (the
/// other ASCII characters are not in a numeric category); beyond ASCII its
/// result is named by `unicode_numeric`.
#[verifier::external_body]
fn is_numeric(c: char) -> (r: bool)
    ensures
        r == numeric(c),
        (c as u32) >= 128 ==> r == unicode_numeric(c),
{
    c.is_numeric()
}

/// The arrow keys, whatever the page.
pub open spec fn arrow_command(key: Key) -> Option<Command> {
    match key {
        Key::Right => Some(Command::ArrowRight),
        Key::Left => Some(Command::ArrowLeft),
        Key::Up => Some(Command::ArrowUp),
        Key::Down => Some(Command::ArrowDown),
        _ => None,
    }
}

/// The keys of the Home page.
pub open spec fn home_spec(popup: PopupState, key: Key) -> Command {
    match popup {
        PopupState::Nothing => match key {
            Key::Char('q') => Command::Quit,
            Key::Char('a') => Command::GoAddTx,
            Key::Char('r') => Command::GoChart,
            Key::Char('j') => Command::TakeUserInput,
            Key::Char('h') => Command::HelpPopup,
            Key::Char('z') => Command::GoSummary,
            Key::Char('w') => Command::GoSearch,
            Key::Char('e') => Command::EditTx,
            Key::Char('d') => Command::DeletionPopup,
            Key::Char('y') => Command::GoActivity,
            Key::Char(',') => Command::SwitchTxUp,
            Key::Char('.') => Command::SwitchTxDown,
            Key::Char('v') => Command::ShowTxDetails,
            _ => match arrow_command(key) {
                Some(c) => c,
                None => Command::Nothing,
            },
        },
        PopupState::TxDeletion => match key {
            Key::Left | Key::Right | Key::Enter => Command::DeletionChoice,
            _ => Command::Nothing,
        },
        PopupState::HomeHelp => match key {
            Key::Up => Command::PopupScrollUp,
            Key::Down => Command::PopupScrollDown,
            _ => Command::ClosePopup,
        },
        _ => Command::ClosePopup,
    }
}

/// Reads a key of the Home page (see `home_spec`).
pub fn home_keys(popup: &PopupState, key: Key) -> (r: Command)
    ensures
        r == home_spec(*popup, key),
{
    match popup {
        PopupState::Nothing => match key {
            Key::Char('q') => Command::Quit,
            Key::Char('a') => Command::GoAddTx,
            Key::Char('r') => Command::GoChart,
            Key::Char('j') => Command::TakeUserInput,
            Key::Char('h') => Command::HelpPopup,
            Key::Char('z') => Command::GoSummary,
            Key::Char('w') => Command::GoSearch,
            Key::Char('e') => Command::EditTx,
            Key::Char('d') => Command::DeletionPopup,
            Key::Char('y') => Command::GoActivity,
            Key::Char(',') => Command::SwitchTxUp,
            Key::Char('.') => Command::SwitchTxDown,
            Key::Char('v') => Command::ShowTxDetails,
            Key::Right => Command::ArrowRight,
            Key::Left => Command::ArrowLeft,
            Key::Up => Command::ArrowUp,
            Key::Down => Command::ArrowDown,
            _ => Command::Nothing,
        },
        PopupState::TxDeletion => match key {
            Key::Left | Key::Right | Key::Enter => Command::DeletionChoice,
            _ => Command::Nothing,
        },
        PopupState::HomeHelp => match key {
            Key::Up => Command::PopupScrollUp,
            Key::Down => Command::PopupScrollDown,
            _ => Command::ClosePopup,
        },
        _ => Command::ClosePopup,
    }
}

/// The field command of a key on a field of the entry pages.
pub open spec fn field_command(tab: TxTab) -> Command {
    match tab {
        TxTab::Date | TxTab::Details | TxTab::FromMethod | TxTab::ToMethod | TxTab::Amount
        | TxTab::TxType | TxTab::Tags => Command::EditField(tab),
        TxTab::Nothing => Command::Nothing,
    }
}

/// The keys of the Add Transaction page (and of the Transfer page, where
/// `transfer` holds): with no field selected the letters act on the page
/// and the digits select a field; on a field the arrows move, Tab accepts
/// the suggestion on the Transfer page, and any other key edits the field.
pub open spec fn entry_spec(popup: PopupState, tab: TxTab, key: Key, transfer: bool) -> Command {
    match popup {
        PopupState::Nothing => if tab == TxTab::Nothing {
            match key {
                Key::Char('t') => if transfer {
                    Command::Nothing
                } else {
                    Command::GoTransfer
                },
                Key::Char('a') => if transfer {
                    Command::GoAddTx
                } else {
                    Command::Nothing
                },
                Key::Char('q') => Command::Quit,
                Key::Char('f') => Command::GoHome,
                Key::Char('h') => Command::HelpPopup,
                Key::Char('s') => if transfer {
                    Command::SaveTransfer
                } else {
                    Command::SaveTx
                },
                Key::Char('c') => Command::ClearInput,
                Key::Char(c) => if numeric(c) {
                    Command::NumberPress
                } else {
                    Command::Nothing
                },
                _ => Command::Nothing,
            }
        } else {
            match arrow_command(key) {
                Some(c) => c,
                None => if key == Key::Tab && transfer {
                    Command::Autofill
                } else if tab == TxTab::TxType && transfer {
                    Command::Nothing
                } else {
                    field_command(tab)
                },
            }
        },
        _ => Command::ClosePopup,
    }
}

/// Reads a key of the Add Transaction or Transfer page (see `entry_spec`).
pub fn entry_keys(popup: &PopupState, tab: TxTab, key: Key, transfer: bool) -> (r: Command)
    ensures
        r == entry_spec(*popup, tab, key, transfer),
{
    match popup {
        PopupState::Nothing => {
            if tab == TxTab::Nothing {
                match key {
                    Key::Char('t') => if transfer {
                        Command::Nothing
                    } else {
                        Command::GoTransfer
                    },
                    Key::Char('a') => if transfer {
                        Command::GoAddTx
                    } else {
                        Command::Nothing
                    },
                    Key::Char('q') => Command::Quit,
                    Key::Char('f') => Command::GoHome,
                    Key::Char('h') => Command::HelpPopup,
                    Key::Char('s') => if transfer {
                        Command::SaveTransfer
                    } else {
                        Command::SaveTx
                    },
                    Key::Char('c') => Command::ClearInput,
                    Key::Char(c) => if is_numeric(c) {
                        Command::NumberPress
                    } else {
                        Command::Nothing
                    },
                    _ => Command::Nothing,
                }
            } else {
                match key {
                    Key::Right => Command::ArrowRight,
                    Key::Left => Command::ArrowLeft,
                    Key::Up => Command::ArrowUp,
                    Key::Down => Command::ArrowDown,
                    _ => {
                        if key == Key::Tab && transfer {
                            Command::Autofill
                        } else if tab == TxTab::TxType && transfer {
                            Command::Nothing
                        } else {
                            match tab {
                                TxTab::Nothing => Command::Nothing,
                                _ => Command::EditField(tab),
                            }
                        }
                    },
                }
            }
        },
        _ => Command::ClosePopup,
    }
}

/// The keys of the Chart page.
pub open spec fn chart_spec(popup: PopupState, key: Key) -> Command {
    match popup {
        PopupState::Nothing => match key {
            Key::Char('a') => Command::GoAddTx,
            Key::Char('z') => Command::GoSummary,
            Key::Char('q') => Command::Quit,
            Key::Char('f') => Command::GoHome,
            Key::Char('h') => Command::HelpPopup,
            Key::Char('r') => Command::ChartHiddenMode,
            Key::Char('R') => Command::ChartLegends,
            Key::Char('w') => Command::GoSearch,
            Key::Char('y') => Command::GoActivity,
            Key::Char(' ') => Command::ChartMethodToggle,
            _ => match arrow_command(key) {
                Some(c) => c,
                None => Command::Nothing,
            },
        },
        PopupState::ChartHelp => match key {
            Key::Up => Command::PopupScrollUp,
            Key::Down => Command::PopupScrollDown,
            _ => Command::ClosePopup,
        },
        _ => Command::ClosePopup,
    }
}

/// Reads a key of the Chart page (see `chart_spec`).
pub fn chart_keys(popup: &PopupState, key: Key) -> (r: Command)
    ensures
        r == chart_spec(*popup, key),
{
    match popup {
        PopupState::Nothing => match key {
            Key::Char('a') => Command::GoAddTx,
            Key::Char('z') => Command::GoSummary,
            Key::Char('q') => Command::Quit,
            Key::Char('f') => Command::GoHome,
            Key::Char('h') => Command::HelpPopup,
            Key::Char('r') => Command::ChartHiddenMode,
            Key::Char('R') => Command::ChartLegends,
            Key::Char('w') => Command::GoSearch,
            Key::Char('y') => Command::GoActivity,
            Key::Char(' ') => Command::ChartMethodToggle,
            Key::Right => Command::ArrowRight,
            Key::Left => Command::ArrowLeft,
            Key::Up => Command::ArrowUp,
            Key::Down => Command::ArrowDown,
            _ => Command::Nothing,
        },
        PopupState::ChartHelp => match key {
            Key::Up => Command::PopupScrollUp,
            Key::Down => Command::PopupScrollDown,
            _ => Command::ClosePopup,
        },
        _ => Command::ClosePopup,
    }
}

/// The keys of the Summary page.
pub open spec fn summary_spec(popup: PopupState, key: Key) -> Command {
    match popup {
        PopupState::Nothing => match key {
            Key::Char('a') => Command::GoAddTx,
            Key::Char('r') => Command::GoChart,
            Key::Char('q') => Command::Quit,
            Key::Char('f') => Command::GoHome,
            Key::Char('w') => Command::GoSearch,
            Key::Char('h') => Command::HelpPopup,
            Key::Char('z') => Command::SummaryHiddenMode,
            Key::Char('x') => Command::SummarySort,
            Key::Char('y') => Command::GoActivity,
            Key::Enter => Command::SearchTag,
            _ => match arrow_command(key) {
                Some(c) => c,
                None => Command::Nothing,
            },
        },
        PopupState::SummaryHelp => match key {
            Key::Up => Command::PopupScrollUp,
            Key::Down => Command::PopupScrollDown,
            _ => Command::ClosePopup,
        },
        _ => Command::ClosePopup,
    }
}

/// Reads a key of the Summary page (see `summary_spec`).
pub fn summary_keys(popup: &PopupState, key: Key) -> (r: Command)
    ensures
        r == summary_spec(*popup, key),
{
    match popup {
        PopupState::Nothing => match key {
            Key::Char('a') => Command::GoAddTx,
            Key::Char('r') => Command::GoChart,
            Key::Char('q') => Command::Quit,
            Key::Char('f') => Command::GoHome,
            Key::Char('w') => Command::GoSearch,
            Key::Char('h') => Command::HelpPopup,
            Key::Char('z') => Command::SummaryHiddenMode,
            Key::Char('x') => Command::SummarySort,
            Key::Char('y') => Command::GoActivity,
            Key::Enter => Command::SearchTag,
            Key::Right => Command::ArrowRight,
            Key::Left => Command::ArrowLeft,
            Key::Up => Command::ArrowUp,
            Key::Down => Command::ArrowDown,
            _ => Command::Nothing,
        },
        PopupState::SummaryHelp => match key {
            Key::Up => Command::PopupScrollUp,
            Key::Down => Command::PopupScrollDown,
            _ => Command::ClosePopup,
        },
        _ => Command::ClosePopup,
    }
}

/// The keys of the Activity (history) page.
pub open spec fn history_spec(popup: PopupState, key: Key) -> Command {
    match popup {
        PopupState::Nothing => match key {
            Key::Char('q') => Command::Quit,
            Key::Char('f') => Command::GoHome,
            Key::Char('a') => Command::GoAddTx,
            Key::Char('r') => Command::GoChart,
            Key::Char('h') => Command::HelpPopup,
            Key::Char('z') => Command::GoSummary,
            Key::Char('w') => Command::GoSearch,
            _ => match arrow_command(key) {
                Some(c) => c,
                None => Command::Nothing,
            },
        },
        _ => Command::ClosePopup,
    }
}

/// Reads a key of the Activity page (see `history_spec`).
pub fn history_keys(popup: &PopupState, key: Key) -> (r: Command)
    ensures
        r == history_spec(*popup, key),
{
    match popup {
        PopupState::Nothing => match key {
            Key::Char('q') => Command::Quit,
            Key::Char('f') => Command::GoHome,
            Key::Char('a') => Command::GoAddTx,
            Key::Char('r') => Command::GoChart,
            Key::Char('h') => Command::HelpPopup,
            Key::Char('z') => Command::GoSummary,
            Key::Char('w') => Command::GoSearch,
            Key::Right => Command::ArrowRight,
            Key::Left => Command::ArrowLeft,
            Key::Up => Command::ArrowUp,
            Key::Down => Command::ArrowDown,
            _ => Command::Nothing,
        },
        _ => Command::ClosePopup,
    }
}

/// The keys of the first page: 'q' quits and any other key goes to the Home
/// page; on the notice of a new version, Enter follows it.
pub open spec fn initial_spec(popup: PopupState, key: Key) -> Command {
    match popup {
        PopupState::Nothing => match key {
            Key::Char('q') => Command::Quit,
            _ => Command::GoHome,
        },
        PopupState::NewUpdate(_) => match key {
            Key::Enter => Command::UpdatePopup,
            _ => Command::ClosePopup,
        },
        _ => Command::ClosePopup,
    }
}

/// Reads a key of the first page (see `initial_spec`).
pub fn initial_keys(popup: &PopupState, key: Key) -> (r: Command)
    ensures
        r == initial_spec(*popup, key),
{
    match popup {
        PopupState::Nothing => match key {
            Key::Char('q') => Command::Quit,
            _ => Command::GoHome,
        },
        PopupState::NewUpdate(_) => match key {
            Key::Enter => Command::UpdatePopup,
            _ => Command::ClosePopup,
        },
        _ => Command::ClosePopup,
    }
}

/// What a command asks of the program around the interface: quitting, or
/// reading a line from the user; nothing for the commands handled inside.
pub fn command_output(c: Command) -> (r: Option<HandlingOutput>)
    ensures
        r == match c {
            Command::Quit => Some(HandlingOutput::QuitUi),
            Command::TakeUserInput => Some(HandlingOutput::TakeUserInput),
            _ => None,
        },
{
    match c {
        Command::Quit => Some(HandlingOutput::QuitUi),
        Command::TakeUserInput => Some(HandlingOutput::TakeUserInput),
        _ => None,
    }
}

/// On the Home, Chart, Summary and History pages, the key 'a' with no popup
/// shown opens the Add Transaction page, and nothing else does; none of
/// these pages opens the Transfer page, which is reached from the Add
/// Transaction page.
pub proof fn lemma_add_tx_key(popup: PopupState, key: Key)
    ensures
        (home_spec(popup, key) == Command::GoAddTx) <==> (popup is Nothing && key == Key::Char('a')),
        (chart_spec(popup, key) == Command::GoAddTx) <==> (popup is Nothing && key == Key::Char(
            'a',
        )),
        (summary_spec(popup, key) == Command::GoAddTx) <==> (popup is Nothing && key == Key::Char(
            'a',
        )),
        (history_spec(popup, key) == Command::GoAddTx) <==> (popup is Nothing && key == Key::Char(
            'a',
        )),
        home_spec(popup, key) != Command::GoTransfer,
        chart_spec(popup, key) != Command::GoTransfer,
        summary_spec(popup, key) != Command::GoTransfer,
        history_spec(popup, key) != Command::GoTransfer,
{
}

} // verus!
