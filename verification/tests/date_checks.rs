use rex_tui::date::{status_verify_date, step_date, verify_date};
use rex_tui::outputs::{AType, NAType, StepType, SteppingError, VerifyingOutput};
use rex_tui::ui_state::DateType;

fn check(date: &str, date_type: DateType) -> (VerifyingOutput, String) {
    let mut d = date.to_string();
    let out = verify_date(&mut d, &date_type);
    (out, d)
}

#[test]
fn exact_date_accepted() {
    assert_eq!(
        check("2022-05-12", DateType::Exact),
        (VerifyingOutput::Accepted(AType::Date), "2022-05-12".to_string())
    );
}

#[test]
fn empty_date_is_nothing() {
    assert_eq!(
        check("", DateType::Exact),
        (VerifyingOutput::Nothing(AType::Date), String::new())
    );
}

#[test]
fn spaces_are_removed() {
    assert_eq!(
        check(" 2023-07-01 ", DateType::Exact),
        (VerifyingOutput::Accepted(AType::Date), "2023-07-01".to_string())
    );
}

#[test]
fn missing_part_gives_default_date() {
    assert_eq!(
        check("2022-05", DateType::Exact),
        (VerifyingOutput::NotAccepted(NAType::InvalidDate), "2022-01-01".to_string())
    );
}

#[test]
fn part_that_is_not_a_number() {
    assert_eq!(
        check("2022-ab-01", DateType::Exact),
        (
            VerifyingOutput::NotAccepted(NAType::ParsingError(AType::Date)),
            "2022-ab-01".to_string()
        )
    );
}

#[test]
fn short_year_is_replaced() {
    assert_eq!(
        check("22-05-12", DateType::Exact),
        (VerifyingOutput::NotAccepted(NAType::InvalidYear), "2022-05-12".to_string())
    );
}

#[test]
fn long_year_is_cut() {
    assert_eq!(
        check("20233-05-12", DateType::Exact),
        (VerifyingOutput::NotAccepted(NAType::InvalidYear), "2023-05-12".to_string())
    );
}

#[test]
fn short_month_is_padded() {
    assert_eq!(
        check("2022-5-12", DateType::Exact),
        (VerifyingOutput::NotAccepted(NAType::InvalidMonth), "2022-05-12".to_string())
    );
}

#[test]
fn long_day_is_capped() {
    assert_eq!(
        check("2022-05-123", DateType::Exact),
        (VerifyingOutput::NotAccepted(NAType::InvalidDay), "2022-05-31".to_string())
    );
}

#[test]
fn year_out_of_range() {
    assert_eq!(
        check("2030-05-12", DateType::Exact),
        (VerifyingOutput::NotAccepted(NAType::YearTooBig), "2025-05-12".to_string())
    );
}

#[test]
fn month_out_of_range() {
    assert_eq!(
        check("2022-13-12", DateType::Exact),
        (VerifyingOutput::NotAccepted(NAType::MonthTooBig), "2022-12-12".to_string())
    );
}

#[test]
fn day_out_of_range() {
    assert_eq!(
        check("2022-05-00", DateType::Exact),
        (VerifyingOutput::NotAccepted(NAType::DayTooBig), "2022-05-01".to_string())
    );
}

#[test]
fn day_that_does_not_exist() {
    assert_eq!(
        check("2022-02-30", DateType::Exact),
        (VerifyingOutput::NotAccepted(NAType::NonExistingDate), "2022-02-30".to_string())
    );
}

#[test]
fn leap_day_exists() {
    assert_eq!(
        check("2024-02-29", DateType::Exact),
        (VerifyingOutput::Accepted(AType::Date), "2024-02-29".to_string())
    );
}

#[test]
fn monthly_and_yearly_dates() {
    assert_eq!(
        check("2023-07", DateType::Monthly),
        (VerifyingOutput::Accepted(AType::Date), "2023-07".to_string())
    );
    assert_eq!(
        check("2024", DateType::Yearly),
        (VerifyingOutput::Accepted(AType::Date), "2024".to_string())
    );
    assert_eq!(
        check("2024-01-01", DateType::Yearly),
        (VerifyingOutput::NotAccepted(NAType::InvalidDate), "2022".to_string())
    );
}

fn step(date: &str, st: StepType, dt: DateType) -> (Result<(), SteppingError>, String) {
    let mut d = date.to_string();
    let r = step_date(&mut d, st, &dt);
    (r, d)
}

#[test]
fn step_day_over_year_end() {
    assert_eq!(step("2022-12-31", StepType::StepUp, DateType::Exact), (Ok(()), "2023-01-01".to_string()));
    assert_eq!(step("2023-01-01", StepType::StepDown, DateType::Exact), (Ok(()), "2022-12-31".to_string()));
}

#[test]
fn step_into_leap_day() {
    assert_eq!(step("2024-02-28", StepType::StepUp, DateType::Exact), (Ok(()), "2024-02-29".to_string()));
    assert_eq!(step("2024-03-01", StepType::StepDown, DateType::Exact), (Ok(()), "2024-02-29".to_string()));
}

#[test]
fn step_stops_at_bounds() {
    assert_eq!(step("2025-12-31", StepType::StepUp, DateType::Exact), (Ok(()), "2025-12-31".to_string()));
    assert_eq!(step("2022-01-01", StepType::StepDown, DateType::Exact), (Ok(()), "2022-01-01".to_string()));
    assert_eq!(step("2025-12", StepType::StepUp, DateType::Monthly), (Ok(()), "2025-12".to_string()));
    assert_eq!(step("2022", StepType::StepDown, DateType::Yearly), (Ok(()), "2022".to_string()));
}

#[test]
fn step_months_and_years() {
    assert_eq!(step("2022-12", StepType::StepUp, DateType::Monthly), (Ok(()), "2023-01".to_string()));
    assert_eq!(step("2023-01", StepType::StepDown, DateType::Monthly), (Ok(()), "2022-12".to_string()));
    assert_eq!(step("2023", StepType::StepUp, DateType::Yearly), (Ok(()), "2024".to_string()));
}

#[test]
fn step_empty_date_starts_at_first_date() {
    assert_eq!(step("", StepType::StepUp, DateType::Exact), (Ok(()), "2022-01-01".to_string()));
    assert_eq!(step("", StepType::StepDown, DateType::Monthly), (Ok(()), "2022-01".to_string()));
}

#[test]
fn step_rejected_date_is_corrected() {
    assert_eq!(
        step("2022-13-01", StepType::StepUp, DateType::Exact),
        (Err(SteppingError::InvalidDate), "2022-12-01".to_string())
    );
}

#[test]
fn step_up_then_down_returns() {
    let (_, up) = step("2024-06-30", StepType::StepUp, DateType::Exact);
    assert_eq!(up, "2024-07-01");
    let (_, back) = step(&up, StepType::StepDown, DateType::Exact);
    assert_eq!(back, "2024-06-30");
}

fn status(date: &str) -> (String, String) {
    let mut d = date.to_string();
    let r = status_verify_date(&mut d).expect("parses");
    (r, d)
}

#[test]
fn status_messages() {
    assert_eq!(status(""), ("Date: Nothing to check".to_string(), String::new()));
    assert_eq!(status("2022-05"), ("Date: Unknown date".to_string(), "2022-01-01".to_string()));
    assert_eq!(status("2022 - 05 - 12"), ("Date: Date Accepted".to_string(), "2022-05-12".to_string()));
    assert_eq!(
        status("2021-05-12"),
        ("Date: Year must be between 2022-2025".to_string(), "2022-05-12".to_string())
    );
    assert_eq!(
        status("2022-5-12"),
        (
            "Date: Month length not acceptable. Example Date: 2022-05-01".to_string(),
            "2022-05-12".to_string()
        )
    );
    let (msg, d) = status("2023-02-29");
    assert!(msg.starts_with("Date: Date not acceptable and possibly non-existing. Error: "));
    assert_eq!(d, "2023-02-29");
}

#[test]
fn status_parse_error() {
    let mut d = "2022-x-01".to_string();
    assert!(status_verify_date(&mut d).is_err());
}

#[test]
fn signed_month_or_day_is_not_a_day() {
    assert_eq!(
        check("2024-+3-05", DateType::Exact),
        (VerifyingOutput::NotAccepted(NAType::NonExistingDate), "2024-+3-05".to_string())
    );
    assert_eq!(
        check("2024-03-+5", DateType::Exact),
        (VerifyingOutput::NotAccepted(NAType::NonExistingDate), "2024-03-+5".to_string())
    );
    let (msg, d) = status("2024-+3-05");
    assert!(msg.starts_with("Date: Date not acceptable and possibly non-existing. Error: "));
    assert_eq!(d, "2024-+3-05");
}
