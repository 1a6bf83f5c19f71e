use ax_exchange_sdk::order_id::{OrderIdError, UlidDecodeError};
use ax_exchange_sdk::OrderId;

#[test]
fn test_generate_regular() {
    let order_id = OrderId::generate_regular();
    assert!(order_id.is_regular());
    assert!(!order_id.is_liquidation());
    assert!(order_id.as_str().starts_with("O-"));
}

#[test]
fn test_generate_liquidation() {
    let order_id = OrderId::generate_liquidation();
    assert!(order_id.is_liquidation());
    assert!(!order_id.is_regular());
    assert!(order_id.as_str().starts_with("L-"));
}

#[test]
fn test_generate_with_flag() {
    let regular = OrderId::generate(false);
    assert!(regular.is_regular());

    let liquidation = OrderId::generate(true);
    assert!(liquidation.is_liquidation());
}

#[test]
fn test_validation() {
    let regular_ulid = ulid::Ulid::new();
    let regular_id = format!("O-{}", regular_ulid);
    let order_id = OrderId::new(&regular_id).unwrap();
    assert_eq!(order_id.as_str(), regular_id);
    assert!(order_id.is_regular());

    let liq_ulid = ulid::Ulid::new();
    let liq_id = format!("L-{}", liq_ulid);
    let order_id = OrderId::new(&liq_id).unwrap();
    assert_eq!(order_id.as_str(), liq_id);
    assert!(order_id.is_liquidation());

    assert!(OrderId::new("X-01234567890123456789012345").is_err());

    assert!(OrderId::new("O-invalid").is_err());
    assert!(OrderId::new("L-invalid").is_err());

    assert!(OrderId::new("01234567890123456789012345").is_err());
}

#[test]
fn order_id_errors_name_the_problem() {
    assert_eq!(OrderId::new("X-01234567890123456789012345").unwrap_err(), OrderIdError::InvalidFormat);
    assert_eq!(OrderId::new("O-invalid").unwrap_err(), OrderIdError::InvalidUlid);
    // 26 characters, but `U` is no base-32 digit.
    assert_eq!(OrderId::new("O-0123456789012345678901234U").unwrap_err(), OrderIdError::InvalidUlid);
    assert_eq!(OrderIdError::InvalidFormat.message(), "invalid order ID format");
    assert_eq!(OrderIdError::InvalidUlid.message(), "invalid ULID in order ID");
}

#[test]
fn order_id_ulid_decodes_the_suffix() {
    let text = "01KA7S36VM6HBEEAE3EN9ZRHEA";
    let id = OrderId::new(&format!("O-{text}")).unwrap();
    assert_eq!(id.ulid().unwrap(), ulid::Ulid::from_string(text).unwrap());
    // lower case decodes too
    let lower = OrderId::new("L-01ka7s36vm6hbeeae3en9zrhea").unwrap();
    assert_eq!(lower.ulid().unwrap().to_string(), text);

    let short = OrderId::new_unchecked("O-ABC".to_string());
    assert_eq!(short.ulid().unwrap_err(), OrderIdError::UlidDecode(UlidDecodeError::InvalidLength));
    assert_eq!(short.ulid().unwrap_err().message(), "invalid ULID: invalid length");
    let bad = OrderId::new_unchecked("O-0123456789012345678901234U".to_string());
    assert_eq!(bad.ulid().unwrap_err(), OrderIdError::UlidDecode(UlidDecodeError::InvalidChar));
    let none = OrderId::new_unchecked("01234567890123456789012345".to_string());
    assert_eq!(none.ulid().unwrap_err(), OrderIdError::InvalidFormat);
}

#[test]
fn generated_ids_are_valid_and_distinct_text() {
    let a = OrderId::generate_regular();
    let again = OrderId::new(a.as_str()).unwrap();
    assert_eq!(again.as_str(), a.as_str());
    assert_eq!(a.as_str().len(), 28);
    assert!(a.ulid().is_ok());
    assert_eq!(a.clone().into_inner(), a.as_str());
}

#[test]
fn test_serde() {
    // An order id travels as its text, and reads back as the same id.
    let order_id = OrderId::new("O-01KA7S36VM6HBEEAE3EN9ZRHEA").unwrap();
    let text = order_id.as_str().to_string();
    assert_eq!(text, "O-01KA7S36VM6HBEEAE3EN9ZRHEA");
    let order_id2 = OrderId::new(&text).unwrap();
    assert_eq!(order_id, order_id2);
}
