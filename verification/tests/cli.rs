use wallet_scan::address::AddressError;
use wallet_scan::cli::{address_argument, read_command_line, usage, StartError, EXIT_FAILURE};

fn args(list: &[&str]) -> Vec<String> {
    list.iter().map(|arg| arg.to_string()).collect()
}

#[test]
fn usage_names_the_program() {
    assert_eq!(usage("wallet-scan"), "Usage: wallet-scan <WALLET_ADDRESS>");
    assert_eq!(usage(""), "Usage:  <WALLET_ADDRESS>");
}

#[test]
fn one_argument_is_the_address() {
    let line = args(&["prog", "11111111111111111111111111111111"]);
    assert_eq!(address_argument(&line), Some(&"11111111111111111111111111111111".to_string()));
    let address = read_command_line(&line).unwrap();
    assert_eq!(address.as_str(), "11111111111111111111111111111111");
    assert_eq!(address.key(), [0u8; 32]);
}

#[test]
fn any_other_count_is_a_usage_error() {
    for line in [
        args(&[]),
        args(&["prog"]),
        args(&["prog", "11111111111111111111111111111111", "extra"]),
        args(&["prog", "a", "b", "c"]),
    ] {
        assert!(address_argument(&line).is_none());
        assert!(matches!(read_command_line(&line), Err(StartError::Usage)));
    }
}

#[test]
fn argument_that_is_no_address_starts_nothing() {
    let line = args(&["prog", "not-an-address"]);
    assert_eq!(address_argument(&line), Some(&"not-an-address".to_string()));
    assert!(matches!(
        read_command_line(&line),
        Err(StartError::BadAddress(AddressError::Invalid))
    ));
    let line = args(&["prog", "abc"]);
    assert!(matches!(
        read_command_line(&line),
        Err(StartError::BadAddress(AddressError::WrongSize))
    ));
    let line = args(&["prog", ""]);
    assert!(matches!(
        read_command_line(&line),
        Err(StartError::BadAddress(AddressError::WrongSize))
    ));
}

#[test]
fn errors_are_put_in_words() {
    assert_eq!(StartError::Usage.message("prog"), "Usage: prog <WALLET_ADDRESS>");
    assert_eq!(
        StartError::BadAddress(AddressError::WrongSize).message("prog"),
        "Error: String is the wrong size"
    );
    assert_eq!(
        StartError::BadAddress(AddressError::Invalid).message("prog"),
        "Error: Invalid Base58 string"
    );
}

#[test]
fn every_error_ends_the_run_with_a_status_other_than_zero() {
    assert_eq!(EXIT_FAILURE, 1);
    for error in [
        StartError::Usage,
        StartError::BadAddress(AddressError::WrongSize),
        StartError::BadAddress(AddressError::Invalid),
    ] {
        assert_eq!(error.exit_status(), 1);
    }
}
