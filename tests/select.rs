use mouse2joy::select::{
    devices_to_release, parse_and_validate, plan_selection, validate_choice, Mouse2JoyError,
    RetryReason, SelectionPlan,
};

#[test]
fn no_device_is_an_error() {
    assert_eq!(plan_selection(0), Err(Mouse2JoyError::NoMouseError));
}

#[test]
fn one_device_needs_no_prompt() {
    assert_eq!(plan_selection(1), Ok(SelectionPlan::Only));
}

#[test]
fn several_devices_prompt() {
    assert_eq!(plan_selection(2), Ok(SelectionPlan::Prompt));
    assert_eq!(plan_selection(7), Ok(SelectionPlan::Prompt));
}

#[test]
fn two_devices_choose_second() {
    assert_eq!(plan_selection(2), Ok(SelectionPlan::Prompt));
    let chosen = parse_and_validate("2\n", 1, 2).unwrap();
    assert_eq!(chosen, 2);
    assert_eq!(devices_to_release(2, chosen), vec![0]);
}

#[test]
fn release_all_but_chosen() {
    assert_eq!(devices_to_release(1, 1), Vec::<usize>::new());
    assert_eq!(devices_to_release(4, 1), vec![1, 2, 3]);
    assert_eq!(devices_to_release(4, 3), vec![0, 1, 3]);
    assert_eq!(devices_to_release(4, 4), vec![0, 1, 2]);
}

#[test]
fn input_is_trimmed() {
    assert_eq!(parse_and_validate("  3 \r\n", 1, 5), Ok(3));
    assert_eq!(parse_and_validate("\t1", 1, 5), Ok(1));
}

#[test]
fn plus_sign_is_accepted() {
    assert_eq!(parse_and_validate("+2", 1, 5), Ok(2));
    assert_eq!(validate_choice("+", 1, 5), Err(RetryReason::NotANumber));
}

#[test]
fn out_of_range_input_retries() {
    assert_eq!(parse_and_validate("0\n", 1, 2), Err(RetryReason::OutOfRange(0)));
    assert_eq!(parse_and_validate("3\n", 1, 2), Err(RetryReason::OutOfRange(3)));
}

#[test]
fn non_numbers_retry() {
    assert_eq!(parse_and_validate("\n", 1, 2), Err(RetryReason::NotANumber));
    assert_eq!(parse_and_validate("two", 1, 2), Err(RetryReason::NotANumber));
    assert_eq!(parse_and_validate("-1", 1, 2), Err(RetryReason::NotANumber));
    assert_eq!(parse_and_validate("1 2", 1, 2), Err(RetryReason::NotANumber));
    assert_eq!(
        parse_and_validate("99999999999999999999999", 1, 2),
        Err(RetryReason::NotANumber)
    );
}

#[test]
fn validate_on_trimmed_line() {
    assert_eq!(validate_choice("12", 1, 20), Ok(12));
    assert_eq!(validate_choice(" 12", 1, 20), Err(RetryReason::NotANumber));
}

#[test]
fn error_messages() {
    assert!(Mouse2JoyError::NoMouseError.message().starts_with("Failed to find a mouse device"));
    assert_eq!(Mouse2JoyError::FailedToReadInput.message(), "Failed to read a mouse input");
    assert!(!Mouse2JoyError::OutputDeviceCreationError.message().is_empty());
}
