use crate::text::{concat, owned, split_char, split_spec};
use crate::ui_state::PopupState;
use vstd::prelude::*;

verus! {

/// The help shown on the Add Transaction page.
pub const ADD_TX_HELP: &'static str = "This page is for adding new transactions. Following are the supported keys here. On Transfer transaction there will be one additional field pushing Tags to the key 7. \n\
\n\
1: Date         Example: 2022-05-12, YYYY-MM-DD\n\
2: TX details   Example: For Grocery, Salary\n\
5: TX Type      Example: Income/Expense/I/E\n\
3: TX Method    Example: Cash, Bank, Card\n\
4: Amount       Example: 1000, 100+50, b - 100\n\
6: Tags         Example: Food, Car. Add a Comma for a new tag\n\
\n\
S: Save the inputted data as a Transaction\n\
Enter: Submit field and continue. Also selects the first field if nothing is selected\n\
Esc: Stop editing field\n\
Tab: Accept Autocompletion. Pressing again will remove the autocompleted value\n\
\n\
Arrow Up/Down: Steps value up/down by 1 when available\n\
Arrow Left/Right: Move cursor on input fields\n\
\n\
C: Clear all fields\n\
b: On amount field 'b' gets replaced with the current balance of Tx Method field\n\
Calculation: Amount field supports simple calculation with +, -, *, /\n\
Tags: This field can be treated as the category of this transaction.\n\
Empty tags field gets replaced with Unknown. Separate more than 1 tags with a comma\n\
\n\
Example amount: 100 + b, b + b, 5 * b\n\
\n\
F: Home Page\n\
R: Chart Page\n\
Z: Summary Page\n\
Y: Activity Page\n\
W: Search Page\n\
H: Show help\n\
Q: Quit\n\
";

/// The help shown on the Chart page.
pub const CHART_HELP: &'static str = "This page shows the movement of balances within the selected period of time\n\
\x20       \n\
Following are the supported keys here\n\
\n\
R: Hides the top widgets for full chart view\n\
\n\
Arrow Up/Down: Cycle widgets\n\
Arrow Left/Right: Move value of the widget\n\
\n\
F: Home Page\n\
A: Add Transaction Page\n\
Z: Summary Page\n\
Y: Activity Page\n\
W: Search Page\n\
H: Show help\n\
Q: Quit\n\
";

/// The help shown on the Summary page.
pub const SUMMARY_HELP: &'static str = "This page shows various information based on all transactions and is for tracking incomes and expenses based on tags Transfer Transaction are not shown here\n\
\n\
Following are the supported keys here\n\
\n\
X: Sorts table by Tag, Total Income or Total Expense\n\
Z: Hides the top widgets for full view\n\
\n\
Arrow Up/Down: Cycle widgets/table value\n\
Arrow Left/Right: Move value of the widget\n\
\n\
F: Home Page\n\
A: Add Transaction Page\n\
R: Chart Page\n\
Y: Activity Page\n\
W: Search Page\n\
H: Show help\n\
Q: Quit\n\
";

/// The help shown on the Home page.
pub const HOME_HELP: &'static str = "This is the Home page where all txs added so far, the balances and the changes are shown\n\
\n\
J: Take user input for various actions\n\
E: Edit the selected transaction on the table\n\
D: Delete the selected transaction on the table\n\
,: Swaps the location of the selected transaction with the transaction above it\n\
.: Swaps the location of the selected transaction with the transaction below it\n\
\n\
Arrow Up/Down: Cycle widgets/table value\n\
Arrow Left/Right: Move value of the widget\n\
\n\
Swapping transaction location will only work if they are on the same date. \n\
\n\
A: Add Transaction Page\n\
R: Chart Page\n\
Z: Summary Page\n\
Y: Activity Page\n\
W: Search Page\n\
H: Show help\n\
Q: Quit\n\
";

/// The help shown on the Search page.
pub const SEARCH_HELP: &'static str = "This page is for searching transactions. On Transfer transaction there will be one additional field pushing Tags to the key 7.\n\
\n\
1: Date         Example: 2022-05-12, YYYY-MM-DD\n\
2: TX details   Example: For Grocery, Salary\n\
5: TX Type      Example: Income/Expense/I/E\n\
3: TX Method    Example: Cash, Bank, Card\n\
4: Amount       Example: 1000, 100+50, b - 100\n\
6: Tags         Example: Food, Car. Add a Comma for a new tag\n\
\n\
Fields: Minimum 1 field must be filled to search for transactions. Fill up multiple fields for better accuracy\n\
\n\
S: Search for transactions with the given data\n\
X: Cycle date type for searching with exact date, month based or year based\n\
Enter: Submit field and continue. Also selects the first field if nothing is selected\n\
Esc: Stop editing field\n\
Tab: Accept Autocompletion. Pressing again will remove the autocompleted value\n\
\n\
Arrow Up/Down: Steps value up/down by 1\n\
Arrow Left/Right: Move cursor on input fields\n\
C: Clear all fields\n\
b: On amount field 'b' gets replaced with the current balance of Tx Method field\n\
Calculation: Amount field supports simple calculation with +, -, *, /\n\
\n\
Example amount: 100 + b, b + b, 5 * b\n\
\n\
Details Field: If details field is filled up, it will try to find transactions that matches the given input. It doesn't have to be an exact match\n\
Tags Field: If tags field is filled up with more than 1 tags, it will match all transactions that has any one of the tags.\n\
Amount Field: Amount field supports '>' '<' '>=' '<=' highlighting amount Bigger than, Smaller than, Bigger or equal, Smaller or equal respectively. No symbol will mean exact amount match. \n\
\n\
Example amount : <1000, >=10000\n\
\n\
F: Home Page\n\
A: Add Transaction Page\n\
R: Chart Page\n\
Z: Summary Page\n\
Y: Activity Page\n\
H: Show help\n\
Q: Quit\n\
";

/// The help shown on the Activity page.
pub const ACTIVITY_HELP: &'static str = "This page shows the activities recorded in the selected period of time. The bottom widget will show affected transaction details by an activity.\n\
\n\
Following are the supported keys here\n\
\n\
Arrow Up/Down: Cycle widgets\n\
Arrow Left/Right: Move value of the widget\n\
\n\
F: Home Page\n\
A: Add Transaction Page\n\
R: Chart Page\n\
Z: Summary Page\n\
W: Search Page\n\
H: Show help\n\
Q: Quit\n\
";

/// The text shown when a newer version is available: its number and the
/// notes of the update.
pub open spec fn update_text(version: Seq<char>, notes: Seq<char>) -> Seq<char> {
    "New version "@ + version + " is now available\n\nUpdates:\n"@ + notes
        + "\nEnter: Redirect to the new version"@
}

/// What a popup shows: its title, width, height and text; `None` for the
/// states that show no text popup (nothing, or the deletion prompt, which
/// is drawn apart).
pub open spec fn popup_spec(p: PopupState) -> Option<(Seq<char>, u16, u16, Seq<char>)> {
    match p {
        PopupState::NewUpdate(data) => Some(
            (
                "New Update"@,
                50,
                (25 + (((2 * split_spec(data@[1]@, '\n').len()) as usize) as u16)) as u16,
                update_text(data@[0]@, data@[1]@),
            ),
        ),
        PopupState::HomeHelp => Some(("Help"@, 70, 70, HOME_HELP@)),
        PopupState::AddTxHelp => Some(("Help"@, 80, 90, ADD_TX_HELP@)),
        PopupState::ChartHelp => Some(("Help"@, 60, 50, CHART_HELP@)),
        PopupState::SummaryHelp => Some(("Help"@, 50, 60, SUMMARY_HELP@)),
        PopupState::DeleteFailed(err) => Some(("Delete Failed"@, 50, 25, err@)),
        PopupState::SearchHelp => Some(("Help"@, 70, 100, SEARCH_HELP@)),
        PopupState::ActivityHelp => Some(("Help"@, 60, 50, ACTIVITY_HELP@)),
        PopupState::Nothing | PopupState::TxDeletion => None,
    }
}

/// Whether a popup state can be shown: an update notice carries the version
/// and the notes; twice the number of note lines is counted in a `usize`,
/// cut to a `u16`, and 25 more must still fit in a `u16`.
pub open spec fn popup_showable(p: PopupState) -> bool {
    p matches PopupState::NewUpdate(data) ==> {
        let n = split_spec(data@[1]@, '\n').len();
        &&& data@.len() >= 2
        &&& 2 * n <= usize::MAX
        &&& 25 + (((2 * n) as usize) as u16) <= u16::MAX
    }
}

/// The title and size of the next popup to draw.
pub struct PopupData<'a> {
    title: &'a str,
    x_value: u16,
    y_value: u16,
}

impl<'a> PopupData<'a> {
    /// The title of the popup.
    pub closed spec fn title_view(&self) -> Seq<char> {
        self.title@
    }

    /// The width and height of the popup.
    pub closed spec fn size(&self) -> (u16, u16) {
        (self.x_value, self.y_value)
    }

    /// No popup: no title and no size.
    pub fn new() -> (r: Self)
        ensures
            r.title_view() == ""@,
            r.size() == (0u16, 0u16),
    {
        PopupData { title: "", x_value: 0, y_value: 0 }
    }

    /// Sets the title and the size of the popup.
    pub fn set(&mut self, title: &'a str, x_value: u16, y_value: u16)
        ensures
            final(self).title_view() == title@,
            final(self).size() == (x_value, y_value),
    {
        self.title = title;
        self.x_value = x_value;
        self.y_value = y_value;
    }

    /// The title of the popup.
    pub fn title(&self) -> (r: &'a str)
        ensures
            r@ == self.title_view(),
    {
        self.title
    }

    /// The width of the popup.
    pub fn x_value(&self) -> (r: u16)
        ensures
            r == self.size().0,
    {
        self.x_value
    }

    /// The height of the popup.
    pub fn y_value(&self) -> (r: u16)
        ensures
            r == self.size().1,
    {
        self.y_value
    }

    /// The text of the popup for a state, after setting its title and size
    /// (see `popup_spec`); an empty text, with nothing set, for the states
    /// that show no text popup.
    pub fn popup_text(&mut self, popup_type: &PopupState) -> (r: String)
        requires
            popup_showable(*popup_type),
        ensures
            match popup_spec(*popup_type) {
                Some((title, x, y, text)) => {
                    &&& final(self).title_view() == title
                    &&& final(self).size() == (x, y)
                    &&& r@ == text
                },
                None => *final(self) == *old(self) && r@.len() == 0,
            },
    {
        match popup_type {
            PopupState::NewUpdate(data) => {
                let lines = split_char(data[1].as_str(), '\n');
                let update_data_len = lines.len() * 2;
                self.set("New Update", 50, 25 + update_data_len as u16);
                let a = concat("New version ", data[0].as_str());
                let b = concat(a.as_str(), " is now available\n\nUpdates:\n");
                let c = concat(b.as_str(), data[1].as_str());
                concat(c.as_str(), "\nEnter: Redirect to the new version")
            },
            PopupState::HomeHelp => {
                self.set("Help", 70, 70);
                owned(HOME_HELP)
            },
            PopupState::AddTxHelp => {
                self.set("Help", 80, 90);
                owned(ADD_TX_HELP)
            },
            PopupState::ChartHelp => {
                self.set("Help", 60, 50);
                owned(CHART_HELP)
            },
            PopupState::SummaryHelp => {
                self.set("Help", 50, 60);
                owned(SUMMARY_HELP)
            },
            PopupState::DeleteFailed(err) => {
                self.set("Delete Failed", 50, 25);
                owned(err.as_str())
            },
            PopupState::SearchHelp => {
                self.set("Help", 70, 100);
                owned(SEARCH_HELP)
            },
            PopupState::ActivityHelp => {
                self.set("Help", 60, 50);
                owned(ACTIVITY_HELP)
            },
            PopupState::Nothing | PopupState::TxDeletion => String::new(),
        }
    }
}

} // verus!
