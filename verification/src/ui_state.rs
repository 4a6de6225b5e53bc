use vstd::prelude::*;

verus! {

/// The three widgets of the Home page that can be selected, in the order
/// they are cycled through.
#[derive(Clone, Copy, Debug, PartialEq, Eq, Structural)]
pub enum HomeTab {
    Years,
    Months,
    Table,
}

impl HomeTab {
    /// The widget above this one; the first widget wraps around to the last.
    pub open spec fn up(self) -> HomeTab {
        match self {
            HomeTab::Years => HomeTab::Table,
            HomeTab::Months => HomeTab::Years,
            HomeTab::Table => HomeTab::Months,
        }
    }

    /// The widget below this one; the last widget wraps around to the first.
    pub open spec fn down(self) -> HomeTab {
        match self {
            HomeTab::Years => HomeTab::Months,
            HomeTab::Months => HomeTab::Table,
            HomeTab::Table => HomeTab::Years,
        }
    }

    /// Returns the widget above the current one (wrapping around).
    pub fn change_tab_up(&mut self) -> (r: Self)
        ensures
            r == old(self).up(),
            *final(self) == *old(self),
    {
        match self {
            HomeTab::Years => HomeTab::Table,
            HomeTab::Months => HomeTab::Years,
            HomeTab::Table => HomeTab::Months,
        }
    }

    /// Returns the widget below the current one (wrapping around).
    pub fn change_tab_down(&mut self) -> (r: Self)
        ensures
            r == old(self).down(),
            *final(self) == *old(self),
    {
        match self {
            HomeTab::Years => HomeTab::Months,
            HomeTab::Months => HomeTab::Table,
            HomeTab::Table => HomeTab::Years,
        }
    }
}

/// Moving up then down (or down then up) on the Home page returns to the same
/// widget, and three moves in one direction visit every widget and come back.
pub proof fn lemma_home_tab_cycle(t: HomeTab)
    ensures
        t.up().down() == t,
        t.down().up() == t,
        t.up().up().up() == t,
        t.down().down().down() == t,
        t.up() != t,
        t.down() != t,
{
}

/// The older name of the Home page widget selector; it cycles exactly like
/// `HomeTab`.
#[derive(Clone, Copy, Debug, PartialEq, Eq, Structural)]
pub enum SelectedTab {
    Years,
    Months,
    Table,
}

impl SelectedTab {
    pub open spec fn up(self) -> SelectedTab {
        match self {
            SelectedTab::Years => SelectedTab::Table,
            SelectedTab::Months => SelectedTab::Years,
            SelectedTab::Table => SelectedTab::Months,
        }
    }

    pub open spec fn down(self) -> SelectedTab {
        match self {
            SelectedTab::Years => SelectedTab::Months,
            SelectedTab::Months => SelectedTab::Table,
            SelectedTab::Table => SelectedTab::Years,
        }
    }

    /// Returns the widget above the current one (wrapping around).
    pub fn change_tab_up(&mut self) -> (r: Self)
        ensures
            r == old(self).up(),
            *final(self) == *old(self),
    {
        match self {
            SelectedTab::Years => SelectedTab::Table,
            SelectedTab::Months => SelectedTab::Years,
            SelectedTab::Table => SelectedTab::Months,
        }
    }

    /// Returns the widget below the current one (wrapping around).
    pub fn change_tab_down(&mut self) -> (r: Self)
        ensures
            r == old(self).down(),
            *final(self) == *old(self),
    {
        match self {
            SelectedTab::Years => SelectedTab::Months,
            SelectedTab::Months => SelectedTab::Table,
            SelectedTab::Table => SelectedTab::Years,
        }
    }
}

/// Up and down undo each other on the selected tab, and three steps cycle.
pub proof fn lemma_selected_tab_cycle(t: SelectedTab)
    ensures
        t.up().down() == t,
        t.down().up() == t,
        t.up().up().up() == t,
        t.down().down().down() == t,
{
}

/// The fields of the Add Transaction page, in the order they are laid out.
#[derive(Clone, Copy, Debug, PartialEq, Eq, Structural)]
pub enum TxTab {
    Date,
    Details,
    FromMethod,
    ToMethod,
    Amount,
    TxType,
    Tags,
    Nothing,
}

/// The fields of the Transfer page.
#[derive(Clone, Copy, Debug, PartialEq, Eq, Structural)]
pub enum TransferTab {
    Date,
    Details,
    From,
    To,
    Amount,
    Tags,
    Nothing,
}

/// The page that is currently shown and receives the key presses.
#[derive(Clone, Copy, Debug, PartialEq, Eq, Structural)]
pub enum CurrentUi {
    Initial,
    Home,
    AddTx,
    Chart,
    Summary,
    Search,
    History,
}

/// The popup that is currently shown on top of the page.
#[derive(Clone, Debug)]
pub enum PopupState {
    NewUpdate(Vec<String>),
    HomeHelp,
    AddTxHelp,
    ChartHelp,
    SummaryHelp,
    SearchHelp,
    ActivityHelp,
    DeleteFailed(String),
    TxDeletion,
    Nothing,
}

/// The widgets of the Chart page.
#[derive(Clone, Copy, Debug, PartialEq, Eq, Structural)]
pub enum ChartTab {
    ModeSelection,
    Years,
    Months,
}

impl ChartTab {
    pub open spec fn up_monthly(self) -> ChartTab {
        match self {
            ChartTab::ModeSelection => ChartTab::Months,
            ChartTab::Years => ChartTab::ModeSelection,
            ChartTab::Months => ChartTab::Years,
        }
    }

    pub open spec fn down_monthly(self) -> ChartTab {
        match self {
            ChartTab::ModeSelection => ChartTab::Years,
            ChartTab::Years => ChartTab::Months,
            ChartTab::Months => ChartTab::ModeSelection,
        }
    }

    /// In yearly mode there is no month widget: up and down both toggle
    /// between the mode selection and the years, and the month widget stays.
    pub open spec fn toggle_yearly(self) -> ChartTab {
        match self {
            ChartTab::ModeSelection => ChartTab::Years,
            ChartTab::Years => ChartTab::ModeSelection,
            ChartTab::Months => ChartTab::Months,
        }
    }

    /// Moves one widget up in monthly mode (wrapping around).
    pub fn change_tab_up_monthly(&mut self) -> (r: Self)
        ensures
            r == old(self).up_monthly(),
            *final(self) == *old(self),
    {
        match self {
            ChartTab::ModeSelection => ChartTab::Months,
            ChartTab::Years => ChartTab::ModeSelection,
            ChartTab::Months => ChartTab::Years,
        }
    }

    /// Moves one widget down in monthly mode (wrapping around).
    pub fn change_tab_down_monthly(&mut self) -> (r: Self)
        ensures
            r == old(self).down_monthly(),
            *final(self) == *old(self),
    {
        match self {
            ChartTab::ModeSelection => ChartTab::Years,
            ChartTab::Years => ChartTab::Months,
            ChartTab::Months => ChartTab::ModeSelection,
        }
    }

    /// Moves one widget up in yearly mode.
    pub fn change_tab_up_yearly(&mut self) -> (r: Self)
        ensures
            r == old(self).toggle_yearly(),
            *final(self) == *old(self),
    {
        match self {
            ChartTab::ModeSelection => ChartTab::Years,
            ChartTab::Years => ChartTab::ModeSelection,
            ChartTab::Months => ChartTab::Months,
        }
    }

    /// Moves one widget down in yearly mode.
    pub fn change_tab_down_yearly(&mut self) -> (r: Self)
        ensures
            r == old(self).toggle_yearly(),
            *final(self) == *old(self),
    {
        match self {
            ChartTab::ModeSelection => ChartTab::Years,
            ChartTab::Years => ChartTab::ModeSelection,
            ChartTab::Months => ChartTab::Months,
        }
    }
}

/// On the Chart page, up and down undo each other in monthly mode and three
/// steps cycle; in yearly mode a move is its own inverse.
pub proof fn lemma_chart_tab_cycle(t: ChartTab)
    ensures
        t.up_monthly().down_monthly() == t,
        t.down_monthly().up_monthly() == t,
        t.up_monthly().up_monthly().up_monthly() == t,
        t.toggle_yearly().toggle_yearly() == t,
{
}

/// The widgets of the Summary page.
#[derive(Clone, Copy, Debug, PartialEq, Eq, Structural)]
pub enum SummaryTab {
    ModeSelection,
    Years,
    Months,
    Table,
}

impl SummaryTab {
    pub open spec fn up_monthly(self) -> SummaryTab {
        match self {
            SummaryTab::ModeSelection => SummaryTab::Table,
            SummaryTab::Years => SummaryTab::ModeSelection,
            SummaryTab::Months => SummaryTab::Years,
            SummaryTab::Table => SummaryTab::Months,
        }
    }

    pub open spec fn down_monthly(self) -> SummaryTab {
        match self {
            SummaryTab::ModeSelection => SummaryTab::Years,
            SummaryTab::Years => SummaryTab::Months,
            SummaryTab::Months => SummaryTab::Table,
            SummaryTab::Table => SummaryTab::ModeSelection,
        }
    }

    pub open spec fn up_yearly(self) -> SummaryTab {
        match self {
            SummaryTab::ModeSelection => SummaryTab::Table,
            SummaryTab::Years => SummaryTab::ModeSelection,
            SummaryTab::Table => SummaryTab::Years,
            SummaryTab::Months => SummaryTab::Months,
        }
    }

    pub open spec fn down_yearly(self) -> SummaryTab {
        match self {
            SummaryTab::ModeSelection => SummaryTab::Years,
            SummaryTab::Years => SummaryTab::Table,
            SummaryTab::Table => SummaryTab::ModeSelection,
            SummaryTab::Months => SummaryTab::Months,
        }
    }

    /// In all time mode only the mode selection and the table take part.
    pub open spec fn toggle_all_time(self) -> SummaryTab {
        match self {
            SummaryTab::ModeSelection => SummaryTab::Table,
            SummaryTab::Table => SummaryTab::ModeSelection,
            SummaryTab::Years => SummaryTab::Years,
            SummaryTab::Months => SummaryTab::Months,
        }
    }

    /// Moves one widget up in monthly mode (wrapping around).
    pub fn change_tab_up_monthly(&mut self) -> (r: Self)
        ensures
            r == old(self).up_monthly(),
            *final(self) == *old(self),
    {
        match self {
            SummaryTab::ModeSelection => SummaryTab::Table,
            SummaryTab::Years => SummaryTab::ModeSelection,
            SummaryTab::Months => SummaryTab::Years,
            SummaryTab::Table => SummaryTab::Months,
        }
    }

    /// Moves one widget down in monthly mode (wrapping around).
    pub fn change_tab_down_monthly(&mut self) -> (r: Self)
        ensures
            r == old(self).down_monthly(),
            *final(self) == *old(self),
    {
        match self {
            SummaryTab::ModeSelection => SummaryTab::Years,
            SummaryTab::Years => SummaryTab::Months,
            SummaryTab::Months => SummaryTab::Table,
            SummaryTab::Table => SummaryTab::ModeSelection,
        }
    }

    /// Moves one widget up in yearly mode (the month widget is not used).
    pub fn change_tab_up_yearly(&mut self) -> (r: Self)
        ensures
            r == old(self).up_yearly(),
            *final(self) == *old(self),
    {
        match self {
            SummaryTab::ModeSelection => SummaryTab::Table,
            SummaryTab::Years => SummaryTab::ModeSelection,
            SummaryTab::Table => SummaryTab::Years,
            SummaryTab::Months => SummaryTab::Months,
        }
    }

    /// Moves one widget down in yearly mode (the month widget is not used).
    pub fn change_tab_down_yearly(&mut self) -> (r: Self)
        ensures
            r == old(self).down_yearly(),
            *final(self) == *old(self),
    {
        match self {
            SummaryTab::ModeSelection => SummaryTab::Years,
            SummaryTab::Years => SummaryTab::Table,
            SummaryTab::Table => SummaryTab::ModeSelection,
            SummaryTab::Months => SummaryTab::Months,
        }
    }

    /// Moves one widget up in all time mode.
    pub fn change_tab_up_all_time(&mut self) -> (r: Self)
        ensures
            r == old(self).toggle_all_time(),
            *final(self) == *old(self),
    {
        match self {
            SummaryTab::ModeSelection => SummaryTab::Table,
            SummaryTab::Table => SummaryTab::ModeSelection,
            SummaryTab::Years => SummaryTab::Years,
            SummaryTab::Months => SummaryTab::Months,
        }
    }

    /// Moves one widget down in all time mode.
    pub fn change_tab_down_all_time(&mut self) -> (r: Self)
        ensures
            r == old(self).toggle_all_time(),
            *final(self) == *old(self),
    {
        match self {
            SummaryTab::ModeSelection => SummaryTab::Table,
            SummaryTab::Table => SummaryTab::ModeSelection,
            SummaryTab::Years => SummaryTab::Years,
            SummaryTab::Months => SummaryTab::Months,
        }
    }
}

/// On the Summary page, up and down undo each other in each mode, monthly
/// mode cycles through four widgets and yearly mode through three.
pub proof fn lemma_summary_tab_cycle(t: SummaryTab)
    ensures
        t.up_monthly().down_monthly() == t,
        t.down_monthly().up_monthly() == t,
        t.up_monthly().up_monthly().up_monthly().up_monthly() == t,
        t.up_yearly().down_yearly() == t,
        t.down_yearly().up_yearly() == t,
        t != SummaryTab::Months ==> t.up_yearly().up_yearly().up_yearly() == t,
        t.toggle_all_time().toggle_all_time() == t,
{
}

/// The kind of operation the user asked for outside the interface.
#[derive(Clone, Debug)]
pub enum UserInputType {
    AddNewTxMethod(Vec<String>),
    RenameTxMethod(Vec<String>),
    RepositionTxMethod(Vec<String>),
    SetNewLocation(String),
    CancelledOperation,
    ResetData(ResetType),
    BackupDBPath(Vec<String>),
    InvalidInput,
}

/// What a data reset is about.
#[derive(Clone, Copy, Debug, PartialEq, Eq, Structural)]
pub enum ResetType {
    NewLocation,
    BackupDB,
}

impl UserInputType {
    /// Maps the user's menu choice to an operation with empty data:
    /// "1" to "5" pick an operation, "cancel" cancels, anything else is invalid.
    pub fn from_string(input: &str) -> (r: Self)
        ensures
            input@ == "1"@ ==> (r matches UserInputType::AddNewTxMethod(v) && v@.len() == 0),
            input@ == "2"@ ==> (r matches UserInputType::RenameTxMethod(v) && v@.len() == 0),
            input@ == "3"@ ==> (r matches UserInputType::RepositionTxMethod(v) && v@.len() == 0),
            input@ == "4"@ ==> (r matches UserInputType::SetNewLocation(p) && p@.len() == 0),
            input@ == "5"@ ==> (r matches UserInputType::BackupDBPath(v) && v@.len() == 0),
            input@ == "cancel"@ ==> r is CancelledOperation,
            !(input@ == "1"@ || input@ == "2"@ || input@ == "3"@ || input@ == "4"@
                || input@ == "5"@ || input@ == "cancel"@) ==> r is InvalidInput,
    {
        proof {
            reveal_strlit("1");
            reveal_strlit("2");
            reveal_strlit("3");
            reveal_strlit("4");
            reveal_strlit("5");
            reveal_strlit("cancel");
            assert("1"@[0] == '1' && "2"@[0] == '2' && "3"@[0] == '3' && "4"@[0] == '4'
                && "5"@[0] == '5' && "cancel"@[0] == 'c');
        }
        if crate::text::str_eq(input, "1") {
            UserInputType::AddNewTxMethod(Vec::new())
        } else if crate::text::str_eq(input, "2") {
            UserInputType::RenameTxMethod(Vec::new())
        } else if crate::text::str_eq(input, "3") {
            UserInputType::RepositionTxMethod(Vec::new())
        } else if crate::text::str_eq(input, "4") {
            UserInputType::SetNewLocation(String::new())
        } else if crate::text::str_eq(input, "5") {
            UserInputType::BackupDBPath(Vec::new())
        } else if crate::text::str_eq(input, "cancel") {
            UserInputType::CancelledOperation
        } else {
            UserInputType::InvalidInput
        }
    }
}

/// The order in which the Summary table is sorted.
#[derive(Clone, Copy, Debug, PartialEq, Eq, Structural)]
pub enum SortingType {
    ByTags,
    ByIncome,
    ByExpense,
}

impl SortingType {
    pub open spec fn next_spec(self) -> SortingType {
        match self {
            SortingType::ByTags => SortingType::ByIncome,
            SortingType::ByIncome => SortingType::ByExpense,
            SortingType::ByExpense => SortingType::ByTags,
        }
    }

    /// The sorting that follows the current one (tags, income, expense, tags...).
    pub fn next_type(&mut self) -> (r: Self)
        ensures
            r == old(self).next_spec(),
            *final(self) == *old(self),
    {
        match self {
            SortingType::ByTags => SortingType::ByIncome,
            SortingType::ByIncome => SortingType::ByExpense,
            SortingType::ByExpense => SortingType::ByTags,
        }
    }
}

/// The choice shown on the deletion popup.
#[derive(Clone, Copy, Debug, PartialEq, Eq, Structural)]
pub enum DeletionStatus {
    Yes,
    No,
}

impl DeletionStatus {
    pub open spec fn next_spec(self) -> DeletionStatus {
        match self {
            DeletionStatus::Yes => DeletionStatus::No,
            DeletionStatus::No => DeletionStatus::Yes,
        }
    }

    /// Flips the choice.
    pub fn next(&mut self) -> (r: Self)
        ensures
            r == old(self).next_spec(),
            *final(self) == *old(self),
    {
        match self {
            DeletionStatus::Yes => DeletionStatus::No,
            DeletionStatus::No => DeletionStatus::Yes,
        }
    }
}

/// How much of a date the search matches: the whole date, the month or the year.
#[derive(Clone, Copy, Debug, PartialEq, Eq, Structural)]
pub enum DateType {
    Exact,
    Monthly,
    Yearly,
}

impl DateType {
    pub open spec fn next_spec(self) -> DateType {
        match self {
            DateType::Exact => DateType::Monthly,
            DateType::Monthly => DateType::Yearly,
            DateType::Yearly => DateType::Exact,
        }
    }

    /// The date type that follows the current one.
    pub fn next(&mut self) -> (r: Self)
        ensures
            r == old(self).next_spec(),
            *final(self) == *old(self),
    {
        match self {
            DateType::Exact => DateType::Monthly,
            DateType::Monthly => DateType::Yearly,
            DateType::Yearly => DateType::Exact,
        }
    }
}

/// Cycling sorting and date types comes back after three steps and never stays,
/// and flipping the deletion choice twice restores it.
pub proof fn lemma_cyclic_choices(s: SortingType, d: DateType, x: DeletionStatus)
    ensures
        s.next_spec().next_spec().next_spec() == s,
        s.next_spec() != s,
        d.next_spec().next_spec().next_spec() == d,
        d.next_spec() != d,
        x.next_spec().next_spec() == x,
        x.next_spec() != x,
{
}

/// The kind of row shown in the Home page's balance table.
#[derive(Clone, Copy, Debug, PartialEq, Eq, Structural)]
pub enum HomeRow {
    Balance,
    Changes,
    Income,
    Expense,
    TopRow,
}

impl HomeRow {
    /// The row kind named by the first cell of a row.
    pub open spec fn of_title(title: Seq<char>) -> HomeRow {
        if title == "Balance"@ {
            HomeRow::Balance
        } else if title == "Changes"@ {
            HomeRow::Changes
        } else if title == "Income"@ {
            HomeRow::Income
        } else if title == "Expense"@ {
            HomeRow::Expense
        } else {
            HomeRow::TopRow
        }
    }

    /// Reads the kind of a row from its first cell.
    pub fn get_row(data: &[String]) -> (r: Self)
        requires
            data@.len() > 0,
        ensures
            r == HomeRow::of_title(data@[0]@),
    {
        let first = data[0].as_str();
        if crate::text::str_eq(first, "Balance") {
            HomeRow::Balance
        } else if crate::text::str_eq(first, "Changes") {
            HomeRow::Changes
        } else if crate::text::str_eq(first, "Income") {
            HomeRow::Income
        } else if crate::text::str_eq(first, "Expense") {
            HomeRow::Expense
        } else {
            HomeRow::TopRow
        }
    }
}

/// The widgets of the History (activity) page.
#[derive(Clone, Copy, Debug, PartialEq, Eq, Structural)]
pub enum HistoryTab {
    Years,
    Months,
    List,
}

impl HistoryTab {
    pub open spec fn up(self) -> HistoryTab {
        match self {
            HistoryTab::Years => HistoryTab::List,
            HistoryTab::Months => HistoryTab::Years,
            HistoryTab::List => HistoryTab::Months,
        }
    }

    pub open spec fn down(self) -> HistoryTab {
        match self {
            HistoryTab::List => HistoryTab::Years,
            HistoryTab::Years => HistoryTab::Months,
            HistoryTab::Months => HistoryTab::List,
        }
    }

    /// Returns the widget above the current one (wrapping around).
    pub fn change_tab_up(&mut self) -> (r: Self)
        ensures
            r == old(self).up(),
            *final(self) == *old(self),
    {
        match self {
            HistoryTab::Years => HistoryTab::List,
            HistoryTab::Months => HistoryTab::Years,
            HistoryTab::List => HistoryTab::Months,
        }
    }

    /// Returns the widget below the current one (wrapping around).
    pub fn change_tab_down(&mut self) -> (r: Self)
        ensures
            r == old(self).down(),
            *final(self) == *old(self),
    {
        match self {
            HistoryTab::List => HistoryTab::Years,
            HistoryTab::Years => HistoryTab::Months,
            HistoryTab::Months => HistoryTab::List,
        }
    }
}

/// Up and down undo each other on the History page and three steps cycle.
pub proof fn lemma_history_tab_cycle(t: HistoryTab)
    ensures
        t.up().down() == t,
        t.down().up() == t,
        t.up().up().up() == t,
{
}

} // verus!

verus! {

/// The month names, January first.
pub open spec fn month_names() -> Seq<Seq<char>> {
    seq![
        "January"@, "February"@, "March"@, "April"@, "May"@, "June"@, "July"@,
        "August"@, "September"@, "October"@, "November"@, "December"@,
    ]
}

/// The years the app keeps data for, oldest first.
pub open spec fn year_names() -> Seq<Seq<char>> {
    seq!["2022"@, "2023"@, "2024"@, "2025"@]
}

/// The modes of the Chart and Summary pages.
pub open spec fn mode_names() -> Seq<Seq<char>> {
    seq!["Monthly"@, "Yearly"@, "All Time"@]
}

/// The views of a list of owned strings.
pub open spec fn views(v: Seq<String>) -> Seq<Seq<char>> {
    v.map_values(|s: String| s@)
}

fn owned_all(names: &[&str]) -> (r: Vec<String>)
    ensures
        r@.len() == names@.len(),
        forall|i: int| 0 <= i < names@.len() ==> #[trigger] r@[i]@ == names@[i]@,
{
    let mut r: Vec<String> = Vec::new();
    let mut i: usize = 0;
    while i < names.len()
        invariant
            i <= names@.len(),
            r@.len() == i,
            forall|j: int| 0 <= j < i ==> #[trigger] r@[j]@ == names@[j]@,
        decreases names@.len() - i,
    {
        r.push(names[i].to_owned());
        i = i + 1;
    }
    r
}

/// The month names as owned strings.
pub fn months() -> (r: Vec<String>)
    ensures
        views(r@) == month_names(),
{
    let names = [
        "January", "February", "March", "April", "May", "June", "July", "August", "September",
        "October", "November", "December",
    ];
    let r = owned_all(&names);
    assert(views(r@) =~= month_names());
    r
}

/// The year names as owned strings.
pub fn years() -> (r: Vec<String>)
    ensures
        views(r@) == year_names(),
{
    let names = ["2022", "2023", "2024", "2025"];
    let r = owned_all(&names);
    assert(views(r@) =~= year_names());
    r
}

/// The mode names as owned strings.
pub fn modes() -> (r: Vec<String>)
    ensures
        views(r@) == mode_names(),
{
    let names = ["Monthly", "Yearly", "All Time"];
    let r = owned_all(&names);
    assert(views(r@) =~= mode_names());
    r
}

/// The index that follows `i` in a cyclic list of `len` entries.
pub open spec fn cyclic_next(i: int, len: int) -> int {
    (i + 1) % len
}

/// The index that precedes `i` in a cyclic list of `len` entries.
pub open spec fn cyclic_previous(i: int, len: int) -> int {
    if i > 0 {
        i - 1
    } else {
        len - 1
    }
}

/// Moving forward then backward in a cyclic list (or backward then forward)
/// returns to the same entry, and both moves stay inside the list.
pub proof fn lemma_cyclic_index(i: int, len: int)
    requires
        0 <= i < len,
    ensures
        cyclic_previous(cyclic_next(i, len), len) == i,
        cyclic_next(cyclic_previous(i, len), len) == i,
        0 <= cyclic_next(i, len) < len,
        0 <= cyclic_previous(i, len) < len,
{
    if i + 1 < len {
        vstd::arithmetic::div_mod::lemma_small_mod((i + 1) as nat, len as nat);
    } else {
        vstd::arithmetic::div_mod::lemma_mod_self_0(len);
    }
    vstd::arithmetic::div_mod::lemma_small_mod(i as nat, len as nat);
    if i == 0 {
        vstd::arithmetic::div_mod::lemma_mod_self_0(len);
    }
}

/// A list of titles (months, years or modes) with the index of the selected one.
pub struct IndexedData {
    pub titles: Vec<String>,
    pub index: usize,
}

impl IndexedData {
    /// The months, with the current local month selected.
    pub fn new_monthly() -> (r: Self)
        ensures
            views(r.titles@) == month_names(),
            r.index < 12,
    {
        let month = crate::clock::current_month();
        Self::monthly_at(month)
    }

    /// The months, with the given month (counted from 1) selected.
    pub fn monthly_at(month: u32) -> (r: Self)
        requires
            1 <= month <= 12,
        ensures
            views(r.titles@) == month_names(),
            r.index == month - 1,
    {
        IndexedData { titles: months(), index: (month - 1) as usize }
    }

    /// The years, with the current local year selected (counted from 2022;
    /// a clock set before 2022 selects the first year).
    pub fn new_yearly() -> (r: Self)
        ensures
            views(r.titles@) == year_names(),
    {
        let year = crate::clock::current_year();
        Self::yearly_at(year)
    }

    /// The years, with the given year selected (counted from 2022; a year
    /// before 2022 selects the first).
    pub fn yearly_at(year: i32) -> (r: Self)
        ensures
            views(r.titles@) == year_names(),
            r.index == (if year >= 2022 { year - 2022 } else { 0 }),
    {
        let index: usize = if year >= 2022 {
            (year - 2022) as usize
        } else {
            0
        };
        IndexedData { titles: years(), index }
    }

    /// The Chart and Summary modes, with the first (monthly) selected.
    pub fn new_modes() -> (r: Self)
        ensures
            views(r.titles@) == mode_names(),
            r.index == 0,
    {
        IndexedData { titles: modes(), index: 0 }
    }

    /// Selects the next title, going back to the first after the last.
    pub fn next(&mut self)
        requires
            old(self).titles@.len() > 0,
            old(self).index < usize::MAX,
        ensures
            final(self).titles@ == old(self).titles@,
            final(self).index == cyclic_next(old(self).index as int, old(self).titles@.len() as int),
    {
        self.index = (self.index + 1) % self.titles.len();
    }

    /// Selects the previous title, going to the last one from the first.
    pub fn previous(&mut self)
        requires
            old(self).titles@.len() > 0,
        ensures
            final(self).titles@ == old(self).titles@,
            final(self).index == cyclic_previous(old(self).index as int, old(self).titles@.len() as int),
    {
        if self.index > 0 {
            self.index = self.index - 1;
        } else {
            self.index = self.titles.len() - 1;
        }
    }

    /// Selects the first title.
    pub fn set_index_zero(&mut self)
        ensures
            final(self).titles@ == old(self).titles@,
            final(self).index == 0,
    {
        self.index = 0;
    }
}

/// A list of month or year titles with the index of the selected one.
pub struct TimeData<'a> {
    pub titles: Vec<&'a str>,
    pub index: usize,
}

impl<'a> TimeData<'a> {
    /// The given titles with the first one selected.
    pub fn new(values: Vec<&'a str>) -> (r: Self)
        ensures
            r.titles@ == values@,
            r.index == 0,
    {
        TimeData { titles: values, index: 0 }
    }

    /// Selects the next title, going back to the first after the last.
    pub fn next(&mut self)
        requires
            old(self).titles@.len() > 0,
            old(self).index < usize::MAX,
        ensures
            final(self).titles@ == old(self).titles@,
            final(self).index == cyclic_next(old(self).index as int, old(self).titles@.len() as int),
    {
        self.index = (self.index + 1) % self.titles.len();
    }

    /// Selects the previous title, going to the last one from the first.
    pub fn previous(&mut self)
        requires
            old(self).titles@.len() > 0,
        ensures
            final(self).titles@ == old(self).titles@,
            final(self).index == cyclic_previous(old(self).index as int, old(self).titles@.len() as int),
    {
        if self.index > 0 {
            self.index = self.index - 1;
        } else {
            self.index = self.titles.len() - 1;
        }
    }
}

/// The rows of a table together with the selected row, if any.
pub struct TableData {
    pub state: Option<usize>,
    pub items: Vec<Vec<String>>,
}

/// The row selected after moving down: the first row when nothing is
/// selected, the first row again after the last one.
pub open spec fn table_next(selected: Option<usize>, len: int) -> int {
    match selected {
        Some(i) => if i >= len - 1 { 0 } else { i + 1 },
        None => 0,
    }
}

/// The row selected after moving up: the first row when nothing is selected,
/// the last row when the first one is selected.
pub open spec fn table_previous(selected: Option<usize>, len: int) -> int {
    match selected {
        Some(i) => if i == 0 { len - 1 } else { i - 1 },
        None => 0,
    }
}

impl TableData {
    /// A table over the given rows with no row selected.
    pub fn new(data: Vec<Vec<String>>) -> (r: Self)
        ensures
            r.items@ == data@,
            r.state is None,
    {
        TableData { state: None, items: data }
    }

    /// Selects the next row (wrapping around).
    pub fn next(&mut self)
        requires
            old(self).state is Some ==> old(self).items@.len() > 0,
        ensures
            final(self).items@ == old(self).items@,
            final(self).state == Some(table_next(old(self).state, old(self).items@.len() as int) as usize),
    {
        let i: usize = match self.state {
            Some(i) => {
                if i >= self.items.len() - 1 {
                    0
                } else {
                    i + 1
                }
            },
            None => 0,
        };
        self.state = Some(i);
    }

    /// Selects the previous row (wrapping around).
    pub fn previous(&mut self)
        requires
            old(self).state is Some ==> old(self).items@.len() > 0,
        ensures
            final(self).items@ == old(self).items@,
            final(self).state == Some(table_previous(old(self).state, old(self).items@.len() as int) as usize),
    {
        let i: usize = match self.state {
            Some(i) => {
                if i == 0 {
                    self.items.len() - 1
                } else {
                    i - 1
                }
            },
            None => 0,
        };
        self.state = Some(i);
    }
}

/// Within a table whose selection points at a row, moving down then up (or
/// up then down) selects the same row again.
pub proof fn lemma_table_moves(i: usize, len: int)
    requires
        0 <= i < len <= usize::MAX,
    ensures
        table_previous(Some(table_next(Some(i), len) as usize), len) == i,
        table_next(Some(table_previous(Some(i), len) as usize), len) == i,
{
}

/// The kinds of activity kept in the history of changes; a payload is the id
/// of the transaction concerned (two for a swap of positions).
#[derive(Clone, Copy, Debug, PartialEq, Eq, Structural)]
pub enum ActivityType {
    NewTX,
    EditTX(Option<i32>),
    DeleteTX(Option<i32>),
    IDNumSwap(Option<i32>, Option<i32>),
    SearchTX(Option<i32>),
}

/// The name under which each kind of activity is stored.
pub open spec fn activity_name(a: ActivityType) -> Seq<char> {
    match a {
        ActivityType::NewTX => "Add TX"@,
        ActivityType::EditTX(_) => "Edit TX"@,
        ActivityType::DeleteTX(_) => "Delete TX"@,
        ActivityType::IDNumSwap(_, _) => "TX Position Swap"@,
        ActivityType::SearchTX(_) => "Search TX"@,
    }
}

/// Whether a text is the stored name of a kind of activity.
pub open spec fn is_activity_name(s: Seq<char>) -> bool {
    ||| s == "Add TX"@
    ||| s == "Edit TX"@
    ||| s == "Delete TX"@
    ||| s == "TX Position Swap"@
    ||| s == "Search TX"@
}

impl ActivityType {
    /// The kind of activity stored under a name, with no id attached.
    pub fn from_s(data: &str) -> (r: Self)
        requires
            is_activity_name(data@),
        ensures
            activity_name(r) == data@,
            match r {
                ActivityType::NewTX => true,
                ActivityType::EditTX(id) => id is None,
                ActivityType::DeleteTX(id) => id is None,
                ActivityType::IDNumSwap(a, b) => a is None && b is None,
                ActivityType::SearchTX(id) => id is None,
            },
    {
        proof {
            reveal_strlit("Add TX");
            reveal_strlit("Edit TX");
            reveal_strlit("Delete TX");
            reveal_strlit("TX Position Swap");
            reveal_strlit("Search TX");
        }
        if crate::text::str_eq(data, "Add TX") {
            ActivityType::NewTX
        } else if crate::text::str_eq(data, "Edit TX") {
            ActivityType::EditTX(None)
        } else if crate::text::str_eq(data, "Delete TX") {
            ActivityType::DeleteTX(None)
        } else if crate::text::str_eq(data, "TX Position Swap") {
            ActivityType::IDNumSwap(None, None)
        } else {
            ActivityType::SearchTX(None)
        }
    }

    /// The name under which this kind of activity is stored.
    pub fn to_str(&self) -> (r: String)
        ensures
            r@ == activity_name(*self),
    {
        match self {
            ActivityType::NewTX => crate::text::owned("Add TX"),
            ActivityType::EditTX(_) => crate::text::owned("Edit TX"),
            ActivityType::DeleteTX(_) => crate::text::owned("Delete TX"),
            ActivityType::IDNumSwap(_, _) => crate::text::owned("TX Position Swap"),
            ActivityType::SearchTX(_) => crate::text::owned("Search TX"),
        }
    }
}

/// Two activities stored under the same name are of the same kind, so
/// reading a stored name back gives the kind that was stored.
pub proof fn lemma_activity_name_distinct(a: ActivityType, b: ActivityType)
    requires
        activity_name(a) == activity_name(b),
    ensures
        a is NewTX <==> b is NewTX,
        a is EditTX <==> b is EditTX,
        a is DeleteTX <==> b is DeleteTX,
        a is IDNumSwap <==> b is IDNumSwap,
        a is SearchTX <==> b is SearchTX,
{
    reveal_strlit("Add TX");
    reveal_strlit("Edit TX");
    reveal_strlit("Delete TX");
    reveal_strlit("TX Position Swap");
    reveal_strlit("Search TX");
    assert(activity_name(a).len() == activity_name(b).len());
    assert(activity_name(a)[0] == activity_name(b)[0]);
    assert("Add TX"@.len() == 6 && "Edit TX"@.len() == 7 && "TX Position Swap"@.len() == 16);
    assert("Delete TX"@[0] != "Search TX"@[0]);
}

} // verus!
