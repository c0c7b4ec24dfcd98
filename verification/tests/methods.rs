use payment_initiation::method::PaymentMethod;

#[test]
fn canonical_names() {
    assert_eq!(PaymentMethod::Bank.as_str(), "bank");
    assert_eq!(PaymentMethod::Truemoney.as_str(), "truemoney");
}

#[test]
fn to_string_gives_the_canonical_name() {
    assert_eq!(PaymentMethod::Bank.to_string(), "bank".to_string());
    assert_eq!(PaymentMethod::Truemoney.to_string(), "truemoney".to_string());
}

#[test]
fn known_names_are_read() {
    assert_eq!(PaymentMethod::from_name("bank"), Some(PaymentMethod::Bank));
    assert_eq!(PaymentMethod::from_name("truemoney"), Some(PaymentMethod::Truemoney));
}

#[test]
fn unknown_names_are_not_read() {
    assert_eq!(PaymentMethod::from_name("crypto"), None);
    assert_eq!(PaymentMethod::from_name(""), None);
    assert_eq!(PaymentMethod::from_name("cash"), None);
    assert_eq!(PaymentMethod::from_name("banking"), None);
    assert_eq!(PaymentMethod::from_name("ban"), None);
}

#[test]
fn names_are_read_letter_for_letter() {
    assert_eq!(PaymentMethod::from_name("Bank"), None);
    assert_eq!(PaymentMethod::from_name("BANK"), None);
    assert_eq!(PaymentMethod::from_name("TrueMoney"), None);
    assert_eq!(PaymentMethod::from_name(" bank"), None);
    assert_eq!(PaymentMethod::from_name("bank "), None);
    assert_eq!(PaymentMethod::from_name("true money"), None);
}

#[test]
fn a_name_reads_back_as_its_method() {
    for method in [PaymentMethod::Bank, PaymentMethod::Truemoney] {
        assert_eq!(PaymentMethod::from_name(method.as_str()), Some(method));
        assert_eq!(PaymentMethod::from_name(&method.to_string()), Some(method));
    }
}

#[test]
fn names_are_lower_case() {
    for method in [PaymentMethod::Bank, PaymentMethod::Truemoney] {
        assert!(!method.as_str().is_empty());
        assert!(method.as_str().chars().all(|c| c.is_ascii_lowercase()));
    }
}
