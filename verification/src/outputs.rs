use crate::text::{concat, owned};
use vstd::prelude::*;

verus! {

/// Why a transaction cannot be saved: a required field is missing, or a
/// transfer goes from a method to the same method.
#[derive(Clone, Copy, Debug, PartialEq, Eq, Structural)]
pub enum CheckingError {
    EmptyDate,
    EmptyMethod,
    EmptyAmount,
    EmptyTxType,
    SameTxMethod,
}

impl CheckingError {
    pub open spec fn text(self) -> Seq<char> {
        match self {
            CheckingError::EmptyDate => "Date: Date cannot be empty"@,
            CheckingError::EmptyMethod => "Tx Method: TX Method cannot be empty"@,
            CheckingError::EmptyAmount => "Amount: Amount cannot be empty"@,
            CheckingError::EmptyTxType => "Tx Type: Transaction Type cannot be empty"@,
            CheckingError::SameTxMethod => "Tx Method: From and To methods cannot be the same for Transfer"@,
        }
    }

    /// The message shown to the user.
    pub fn to_text(&self) -> (r: String)
        ensures
            r@ == self.text(),
    {
        match self {
            CheckingError::EmptyDate => owned("Date: Date cannot be empty"),
            CheckingError::EmptyMethod => owned("Tx Method: TX Method cannot be empty"),
            CheckingError::EmptyAmount => owned("Amount: Amount cannot be empty"),
            CheckingError::EmptyTxType => owned("Tx Type: Transaction Type cannot be empty"),
            CheckingError::SameTxMethod => owned(
                "Tx Method: From and To methods cannot be the same for Transfer",
            ),
        }
    }
}

/// Why a field could not be stepped up or down with the arrow keys.
#[derive(Clone, Copy, Debug, PartialEq, Eq, Structural)]
pub enum SteppingError {
    InvalidDate,
    InvalidTxMethod,
    InvalidAmount,
    InvalidTxType,
    InvalidTags,
    UnknownBValue,
}

impl SteppingError {
    pub open spec fn text(self) -> Seq<char> {
        match self {
            SteppingError::InvalidDate => "Date: Failed to step due to invalid date format"@,
            SteppingError::InvalidTxMethod => "Tx Method: Failed to step as the tx method does not exists"@,
            SteppingError::InvalidAmount => "Amount: Failed to step due to invalid amount format"@,
            SteppingError::InvalidTxType => "Tx Type: Failed to step due to invalid tx type"@,
            SteppingError::InvalidTags => "Tags: Failed to step as the tag does not exists"@,
            SteppingError::UnknownBValue => "Amount: TX Method cannot be empty. Value of B cannot be determined"@,
        }
    }

    /// The message shown to the user.
    pub fn to_text(&self) -> (r: String)
        ensures
            r@ == self.text(),
    {
        match self {
            SteppingError::InvalidDate => owned("Date: Failed to step due to invalid date format"),
            SteppingError::InvalidTxMethod => owned(
                "Tx Method: Failed to step as the tx method does not exists",
            ),
            SteppingError::InvalidAmount => owned(
                "Amount: Failed to step due to invalid amount format",
            ),
            SteppingError::InvalidTxType => owned("Tx Type: Failed to step due to invalid tx type"),
            SteppingError::InvalidTags => owned("Tags: Failed to step as the tag does not exists"),
            SteppingError::UnknownBValue => owned(
                "Amount: TX Method cannot be empty. Value of B cannot be determined",
            ),
        }
    }
}

/// What the interface loop asks of the program around it.
#[derive(Clone, Copy, Debug, PartialEq, Eq, Structural)]
pub enum HandlingOutput {
    QuitUi,
    TakeUserInput,
    AddTxMethod,
    PrintNewUpdate,
}

/// Why a transaction could not be saved (the older, shorter list).
#[derive(Clone, Copy, Debug, PartialEq, Eq, Structural)]
pub enum SavingOutput {
    EmptyDate,
    EmptyMethod,
    EmptyAmount,
    EmptyTxType,
}

impl SavingOutput {
    pub open spec fn text(self) -> Seq<char> {
        match self {
            SavingOutput::EmptyDate => "Date: Date cannot be empty"@,
            SavingOutput::EmptyMethod => "Tx Method: TX Method cannot be empty"@,
            SavingOutput::EmptyAmount => "Amount: Amount cannot be empty"@,
            SavingOutput::EmptyTxType => "Tx Type: Transaction Type cannot be empty"@,
        }
    }

    /// The message shown to the user.
    pub fn to_text(&self) -> (r: String)
        ensures
            r@ == self.text(),
    {
        match self {
            SavingOutput::EmptyDate => owned("Date: Date cannot be empty"),
            SavingOutput::EmptyMethod => owned("Tx Method: TX Method cannot be empty"),
            SavingOutput::EmptyAmount => owned("Amount: Amount cannot be empty"),
            SavingOutput::EmptyTxType => owned("Tx Type: Transaction Type cannot be empty"),
        }
    }
}

/// The field a verification was about.
#[derive(Clone, Copy, Debug, PartialEq, Eq, Structural)]
pub enum AType {
    Date,
    TxMethod,
    Amount,
    TxType,
}

impl AType {
    pub open spec fn text(self) -> Seq<char> {
        match self {
            AType::Date => "Date"@,
            AType::TxMethod => "Tx Method"@,
            AType::Amount => "Amount"@,
            AType::TxType => "Tx Type"@,
        }
    }

    /// The name of the field.
    pub fn to_text(&self) -> (r: String)
        ensures
            r@ == self.text(),
    {
        match self {
            AType::Date => owned("Date"),
            AType::TxMethod => owned("Tx Method"),
            AType::Amount => owned("Amount"),
            AType::TxType => owned("Tx Type"),
        }
    }
}

/// Why a field value was not accepted.
#[derive(Clone, Copy, Debug, PartialEq, Eq, Structural)]
pub enum NAType {
    InvalidDate,
    InvalidYear,
    InvalidMonth,
    InvalidDay,
    YearTooBig,
    MonthTooBig,
    DayTooBig,
    NonExistingDate,
    AmountBelowZero,
    InvalidTxMethod,
    InvalidTxType,
    ParsingError(AType),
    InvalidBValue,
}

impl NAType {
    pub open spec fn text(self) -> Seq<char> {
        match self {
            NAType::InvalidDate => "Date: Unknown date"@,
            NAType::InvalidYear => "Date: Year length not acceptable. Example Date: 2022-05-01"@,
            NAType::InvalidMonth => "Date: Month length not acceptable. Example Date: 2022-05-01"@,
            NAType::InvalidDay => "Date: Day length not acceptable. Example Date: 2022-05-01"@,
            NAType::YearTooBig => "Date: Year must be between 2022-2025"@,
            NAType::MonthTooBig => "Date: Month must be between 01-12"@,
            NAType::DayTooBig => "Date: Day must be between 01-31"@,
            NAType::NonExistingDate => "Date: Date not acceptable and possibly non-existing"@,
            NAType::AmountBelowZero => "Amount: Value must be bigger than zero"@,
            NAType::InvalidTxMethod => "TX Method: Transaction Method not found"@,
            NAType::InvalidTxType => "TX Type: Transaction Type not acceptable. Values: Expense/Income/E/I"@,
            NAType::ParsingError(a) => a.text() + ": Error acquired while validating input"@,
            NAType::InvalidBValue => "Amount: TX Method cannot be empty. Value of B cannot be determined"@,
        }
    }

    /// The message shown to the user.
    pub fn to_text(&self) -> (r: String)
        ensures
            r@ == self.text(),
    {
        match self {
            NAType::InvalidDate => owned("Date: Unknown date"),
            NAType::InvalidYear => owned(
                "Date: Year length not acceptable. Example Date: 2022-05-01",
            ),
            NAType::InvalidMonth => owned(
                "Date: Month length not acceptable. Example Date: 2022-05-01",
            ),
            NAType::InvalidDay => owned("Date: Day length not acceptable. Example Date: 2022-05-01"),
            NAType::YearTooBig => owned("Date: Year must be between 2022-2025"),
            NAType::MonthTooBig => owned("Date: Month must be between 01-12"),
            NAType::DayTooBig => owned("Date: Day must be between 01-31"),
            NAType::NonExistingDate => owned("Date: Date not acceptable and possibly non-existing"),
            NAType::AmountBelowZero => owned("Amount: Value must be bigger than zero"),
            NAType::InvalidTxMethod => owned("TX Method: Transaction Method not found"),
            NAType::InvalidTxType => owned(
                "TX Type: Transaction Type not acceptable. Values: Expense/Income/E/I",
            ),
            NAType::ParsingError(a) => {
                let name = a.to_text();
                concat(name.as_str(), ": Error acquired while validating input")
            },
            NAType::InvalidBValue => owned(
                "Amount: TX Method cannot be empty. Value of B cannot be determined",
            ),
        }
    }
}

/// The result of checking a field value: nothing to check (empty field),
/// accepted, or not accepted with the reason.
#[derive(Clone, Copy, Debug, PartialEq, Eq, Structural)]
pub enum VerifyingOutput {
    Nothing(AType),
    Accepted(AType),
    NotAccepted(NAType),
}

impl VerifyingOutput {
    pub open spec fn text(self) -> Seq<char> {
        match self {
            VerifyingOutput::Nothing(a) => a.text() + ": Accepted"@,
            VerifyingOutput::Accepted(a) => a.text() + ":  Accepted"@,
            VerifyingOutput::NotAccepted(n) => n.text() + ": Accepted"@,
        }
    }

    /// The status line shown to the user.
    pub fn to_text(&self) -> (r: String)
        ensures
            r@ == self.text(),
    {
        match self {
            VerifyingOutput::Nothing(a) => {
                let name = a.to_text();
                concat(name.as_str(), ": Accepted")
            },
            VerifyingOutput::Accepted(a) => {
                let name = a.to_text();
                concat(name.as_str(), ":  Accepted")
            },
            VerifyingOutput::NotAccepted(n) => {
                let name = n.to_text();
                concat(name.as_str(), ": Accepted")
            },
        }
    }
}

/// Whether a transaction moves money in or out of one method, or between two.
#[derive(Clone, Copy, Debug, PartialEq, Eq, Structural)]
pub enum TxType {
    IncomeExpense,
    Transfer,
}

/// The direction of an arrow-key step.
#[derive(Clone, Copy, Debug, PartialEq, Eq, Structural)]
pub enum StepType {
    StepUp,
    StepDown,
}

/// Which transaction the Summary page highlights as the largest.
#[derive(Clone, Copy, Debug, PartialEq, Eq, Structural)]
pub enum LargestType {
    Earning,
    Expense,
}

impl LargestType {
    pub open spec fn text(self) -> Seq<char> {
        match self {
            LargestType::Earning => "Largest Earning"@,
            LargestType::Expense => "Largest Expense"@,
        }
    }

    /// The row title shown on the Summary page.
    pub fn to_text(&self) -> (r: String)
        ensures
            r@ == self.text(),
    {
        match self {
            LargestType::Earning => owned("Largest Earning"),
            LargestType::Expense => owned("Largest Expense"),
        }
    }
}

/// Which month the Summary page highlights as the peak.
#[derive(Clone, Copy, Debug, PartialEq, Eq, Structural)]
pub enum PeakType {
    Earning,
    Expense,
}

impl PeakType {
    pub open spec fn text(self) -> Seq<char> {
        match self {
            PeakType::Earning => "Peak Earning"@,
            PeakType::Expense => "Peak Expense"@,
        }
    }

    /// The row title shown on the Summary page.
    pub fn to_text(&self) -> (r: String)
        ensures
            r@ == self.text(),
    {
        match self {
            PeakType::Earning => owned("Peak Earning"),
            PeakType::Expense => owned("Peak Expense"),
        }
    }
}

/// Why the terminal interface stopped: drawing or reading a key failed; the
/// payload is the system's description of the failure.
#[derive(Clone, Debug, PartialEq, Eq)]
pub enum UiHandlingError {
    DrawingError(String),
    PollingError(String),
}

impl UiHandlingError {
    pub open spec fn text(self) -> Seq<char> {
        match self {
            UiHandlingError::DrawingError(e) => "Error while trying to draw widgets. Error: "@ + e@,
            UiHandlingError::PollingError(e) => "Error while polling for keyboard input. "@ + e@,
        }
    }

    /// The message shown to the user.
    pub fn to_text(&self) -> (r: String)
        ensures
            r@ == self.text(),
    {
        match self {
            UiHandlingError::DrawingError(e) => concat(
                "Error while trying to draw widgets. Error: ",
                e.as_str(),
            ),
            UiHandlingError::PollingError(e) => concat(
                "Error while polling for keyboard input. ",
                e.as_str(),
            ),
        }
    }
}

} // verus!
