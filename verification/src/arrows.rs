use crate::ui_state::{ChartTab, CurrentUi, HistoryTab, HomeTab, SummaryTab};
use vstd::prelude::*;

verus! {

/// The title selectors that the left and right arrows step through.
#[derive(Clone, Copy, Debug, PartialEq, Eq, Structural)]
pub enum Selector {
    HomeMonths,
    HomeYears,
    ChartModes,
    ChartYears,
    ChartMonths,
    SummaryModes,
    SummaryYears,
    SummaryMonths,
    HistoryYears,
    HistoryMonths,
}

/// What a page has to load again after one of its selectors stepped.
#[derive(Clone, Copy, Debug, PartialEq, Eq, Structural)]
pub enum Reload {
    HomeTable,
    Chart,
    Summary,
    HistoryTable,
}

/// What the left or right arrow does.
#[derive(Clone, Copy, Debug, PartialEq, Eq, Structural)]
pub enum ArrowEffect {
    /// A selector steps (back for the left arrow, on for the right one), and
    /// the page reloads; a year selector also takes its page's months back
    /// to the first (see `months_of`).
    Step(Selector, Reload),
    /// The cursor of the Add Transaction page's field moves.
    AddTxCursor,
    /// The cursor of the Search page's field moves.
    SearchCursor,
    Nothing,
}

/// The widgets selected on each page, and whether the top widgets of the
/// Chart and Summary pages are hidden.
#[derive(Clone, Copy, Debug, PartialEq, Eq, Structural)]
pub struct PageTabs {
    pub page: CurrentUi,
    pub home_tab: HomeTab,
    pub chart_tab: ChartTab,
    pub chart_hidden: bool,
    pub summary_tab: SummaryTab,
    pub summary_hidden: bool,
    pub history_tab: HistoryTab,
}

/// The months selector that goes back to its first month when the years
/// selector of its page steps.
pub open spec fn months_of(s: Selector) -> Option<Selector> {
    match s {
        Selector::HomeYears => Some(Selector::HomeMonths),
        Selector::ChartYears => Some(Selector::ChartMonths),
        Selector::SummaryYears => Some(Selector::SummaryMonths),
        Selector::HistoryYears => Some(Selector::HistoryMonths),
        _ => None,
    }
}

/// The left (`right` false) or right arrow on each page: on the Home, Chart,
/// Summary and History pages the selected title widget steps; a table or
/// list selected takes no arrow. The Chart page with its widgets hidden
/// takes none either; so does the Summary page for the left arrow, while
/// the right arrow steps its widgets hidden or not. On the Add Transaction
/// and Search pages the cursor moves.
pub open spec fn arrow_spec(t: PageTabs, right: bool) -> ArrowEffect {
    match t.page {
        CurrentUi::Home => match t.home_tab {
            HomeTab::Months => ArrowEffect::Step(Selector::HomeMonths, Reload::HomeTable),
            HomeTab::Years => ArrowEffect::Step(Selector::HomeYears, Reload::HomeTable),
            HomeTab::Table => ArrowEffect::Nothing,
        },
        CurrentUi::AddTx => ArrowEffect::AddTxCursor,
        CurrentUi::Search => ArrowEffect::SearchCursor,
        CurrentUi::Chart => if t.chart_hidden {
            ArrowEffect::Nothing
        } else {
            match t.chart_tab {
                ChartTab::ModeSelection => ArrowEffect::Step(Selector::ChartModes, Reload::Chart),
                ChartTab::Years => ArrowEffect::Step(Selector::ChartYears, Reload::Chart),
                ChartTab::Months => ArrowEffect::Step(Selector::ChartMonths, Reload::Chart),
            }
        },
        CurrentUi::Summary => if t.summary_hidden && !right {
            ArrowEffect::Nothing
        } else {
            match t.summary_tab {
                SummaryTab::ModeSelection => ArrowEffect::Step(
                    Selector::SummaryModes,
                    Reload::Summary,
                ),
                SummaryTab::Years => ArrowEffect::Step(Selector::SummaryYears, Reload::Summary),
                SummaryTab::Months => ArrowEffect::Step(Selector::SummaryMonths, Reload::Summary),
                SummaryTab::Table => ArrowEffect::Nothing,
            }
        },
        CurrentUi::History => match t.history_tab {
            HistoryTab::Years => ArrowEffect::Step(Selector::HistoryYears, Reload::HistoryTable),
            HistoryTab::Months => ArrowEffect::Step(Selector::HistoryMonths, Reload::HistoryTable),
            HistoryTab::List => ArrowEffect::Nothing,
        },
        CurrentUi::Initial => ArrowEffect::Nothing,
    }
}

/// What the left or right arrow does on the current page (see
/// `arrow_spec`).
pub fn arrow_effect(t: &PageTabs, right: bool) -> (r: ArrowEffect)
    ensures
        r == arrow_spec(*t, right),
{
    match t.page {
        CurrentUi::Home => match t.home_tab {
            HomeTab::Months => ArrowEffect::Step(Selector::HomeMonths, Reload::HomeTable),
            HomeTab::Years => ArrowEffect::Step(Selector::HomeYears, Reload::HomeTable),
            HomeTab::Table => ArrowEffect::Nothing,
        },
        CurrentUi::AddTx => ArrowEffect::AddTxCursor,
        CurrentUi::Search => ArrowEffect::SearchCursor,
        CurrentUi::Chart => {
            if t.chart_hidden {
                ArrowEffect::Nothing
            } else {
                match t.chart_tab {
                    ChartTab::ModeSelection => ArrowEffect::Step(
                        Selector::ChartModes,
                        Reload::Chart,
                    ),
                    ChartTab::Years => ArrowEffect::Step(Selector::ChartYears, Reload::Chart),
                    ChartTab::Months => ArrowEffect::Step(Selector::ChartMonths, Reload::Chart),
                }
            }
        },
        CurrentUi::Summary => {
            if t.summary_hidden && !right {
                ArrowEffect::Nothing
            } else {
                match t.summary_tab {
                    SummaryTab::ModeSelection => ArrowEffect::Step(
                        Selector::SummaryModes,
                        Reload::Summary,
                    ),
                    SummaryTab::Years => ArrowEffect::Step(
                        Selector::SummaryYears,
                        Reload::Summary,
                    ),
                    SummaryTab::Months => ArrowEffect::Step(
                        Selector::SummaryMonths,
                        Reload::Summary,
                    ),
                    SummaryTab::Table => ArrowEffect::Nothing,
                }
            }
        },
        CurrentUi::History => match t.history_tab {
            HistoryTab::Years => ArrowEffect::Step(Selector::HistoryYears, Reload::HistoryTable),
            HistoryTab::Months => ArrowEffect::Step(
                Selector::HistoryMonths,
                Reload::HistoryTable,
            ),
            HistoryTab::List => ArrowEffect::Nothing,
        },
        CurrentUi::Initial => ArrowEffect::Nothing,
    }
}

} // verus!
