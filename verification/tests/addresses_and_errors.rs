use bridge::{is_valid_destination, BridgeError, DESTINATION_ADDRESS_LEN};

#[test]
fn an_address_is_a_prefix_and_forty_more_bytes() {
    assert_eq!(DESTINATION_ADDRESS_LEN, 42);
    assert!(is_valid_destination("0x52908400098527886E0F7030069857D2E4169EE7"));
    assert!(is_valid_destination(&format!("0x{}", "0".repeat(40))));
}

#[test]
fn an_address_of_another_length_is_not_valid() {
    assert!(!is_valid_destination(&format!("0x{}", "0".repeat(39))));
    assert!(!is_valid_destination(&format!("0x{}", "0".repeat(41))));
    assert!(!is_valid_destination("0x"));
    assert!(!is_valid_destination("0"));
    assert!(!is_valid_destination(""));
}

#[test]
fn an_address_with_another_prefix_is_not_valid() {
    assert!(!is_valid_destination(&format!("0X{}", "0".repeat(40))));
    assert!(!is_valid_destination(&format!("1x{}", "0".repeat(40))));
    assert!(!is_valid_destination(&format!("x0{}", "0".repeat(40))));
    assert!(!is_valid_destination(&format!(" 0x{}", "0".repeat(39))));
    assert!(!is_valid_destination(&"0".repeat(42)));
}

#[test]
fn what_follows_the_prefix_is_not_looked_at() {
    assert!(is_valid_destination(&format!("0x{}", "z".repeat(40))));
    assert!(is_valid_destination(&format!("0x{}", " ".repeat(40))));
}

#[test]
fn the_length_of_an_address_is_counted_in_bytes() {
    let twenty_two_chars = format!("0x{}", "é".repeat(20));
    assert_eq!(twenty_two_chars.chars().count(), 22);
    assert_eq!(twenty_two_chars.len(), 42);
    assert!(is_valid_destination(&twenty_two_chars));
    let forty_two_chars = format!("0x{}", "é".repeat(40));
    assert_eq!(forty_two_chars.chars().count(), 42);
    assert!(!is_valid_destination(&forty_two_chars));
    assert!(!is_valid_destination(&format!("0é{}", "0".repeat(39))));
}

#[test]
fn each_error_has_its_message() {
    assert_eq!(BridgeError::InvalidAmount.message(), "Invalid amt must be greater than 0");
    assert_eq!(BridgeError::AmountTooLarge.message(), "Amount too large");
    assert_eq!(BridgeError::InvalidDestinationAddress.message(), "Invalid destination address ");
    assert_eq!(BridgeError::MathOverflow.message(), "math overflow");
    assert_eq!(BridgeError::MathUnderflow.message(), "Math underflow");
    assert_eq!(BridgeError::InvalidAdmin.message(), "Invalid admin authority");
    assert_eq!(BridgeError::TransactionAlreadyProcessed.message(), "Transaction already processed");
    assert_eq!(BridgeError::InsufficientBalance.message(), "Insufficient balance");
    assert_eq!(BridgeError::AlreadyInitialized.message(), "Bridge already initialized");
}
