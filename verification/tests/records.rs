use payment_initiation::amount::Amount;
use payment_initiation::error::{PayloadError, ValidationError};
use payment_initiation::method::PaymentMethod;
use payment_initiation::record::PaymentRecord;
use payment_initiation::request::PaymentRequest;
use payment_initiation::store::{collection, database, document, Field, FieldValue};

fn request(value: f64, payment_method: PaymentMethod) -> PaymentRequest {
    PaymentRequest { amount: Amount::from_bits(value.to_bits()), payment_method }
}

#[test]
fn a_request_within_the_range_passes() {
    assert_eq!(request(1.0, PaymentMethod::Bank).validate(), Ok(()));
    assert_eq!(request(100.0, PaymentMethod::Truemoney).validate(), Ok(()));
    assert_eq!(request(1_000_000.0, PaymentMethod::Bank).validate(), Ok(()));
}

#[test]
fn a_request_outside_the_range_is_out_of_range() {
    assert_eq!(request(0.5, PaymentMethod::Bank).validate(), Err(ValidationError::OutOfRange));
    assert_eq!(
        request(1_000_001.0, PaymentMethod::Truemoney).validate(),
        Err(ValidationError::OutOfRange)
    );
    assert_eq!(request(-3.0, PaymentMethod::Bank).validate(), Err(ValidationError::OutOfRange));
    assert_eq!(
        request(f64::NAN, PaymentMethod::Bank).validate(),
        Err(ValidationError::OutOfRange)
    );
}

#[test]
fn validation_leaves_the_request_as_it_is() {
    let before = request(12.0, PaymentMethod::Bank);
    let after = before;
    let _ = after.validate();
    assert_eq!(before, after);
}

#[test]
fn a_payload_with_a_known_method_is_read() {
    let amount = Amount::from_bits(75.0f64.to_bits());
    assert_eq!(
        PaymentRequest::from_parts(amount, "bank"),
        Ok(PaymentRequest { amount, payment_method: PaymentMethod::Bank })
    );
    assert_eq!(
        PaymentRequest::from_parts(amount, "truemoney"),
        Ok(PaymentRequest { amount, payment_method: PaymentMethod::Truemoney })
    );
}

#[test]
fn a_payload_is_read_whatever_its_amount() {
    let amount = Amount::from_bits(0.5f64.to_bits());
    assert_eq!(
        PaymentRequest::from_parts(amount, "bank"),
        Ok(PaymentRequest { amount, payment_method: PaymentMethod::Bank })
    );
}

#[test]
fn a_payload_with_an_unknown_method_is_not_read() {
    let amount = Amount::from_bits(75.0f64.to_bits());
    assert_eq!(PaymentRequest::from_parts(amount, "crypto"), Err(PayloadError::UnknownMethod));
    assert_eq!(PaymentRequest::from_parts(amount, "Bank"), Err(PayloadError::UnknownMethod));
    assert_eq!(PaymentRequest::from_parts(amount, ""), Err(PayloadError::UnknownMethod));
}

#[test]
fn a_record_under_a_given_identifier() {
    let source = request(250.75, PaymentMethod::Truemoney);
    let record = PaymentRecord::with_id(&source, 0x67e5_5044_10b1_426f_9247_bb68_0e5f_e0c8);
    assert_eq!(record.transaction_id(), "67e55044-10b1-426f-9247-bb680e5fe0c8");
    assert_eq!(record.amount(), source.amount);
    assert_eq!(f64::from_bits(record.amount().to_bits()), 250.75);
    assert_eq!(record.payment_method(), "truemoney");
    assert_eq!(record.status(), "pending");
}

#[test]
fn identifiers_are_written_in_lower_case_from_the_top() {
    let source = request(1.0, PaymentMethod::Bank);
    let low = PaymentRecord::with_id(&source, 0);
    assert_eq!(low.transaction_id(), "00000000-0000-0000-0000-000000000000");
    let high = PaymentRecord::with_id(&source, u128::MAX);
    assert_eq!(high.transaction_id(), "ffffffff-ffff-ffff-ffff-ffffffffffff");
    let mixed = PaymentRecord::with_id(&source, 0x0123_4567_89ab_cdef_fedc_ba98_7654_3210);
    assert_eq!(mixed.transaction_id(), "01234567-89ab-cdef-fedc-ba9876543210");
    let one = PaymentRecord::with_id(&source, 1);
    assert_eq!(one.transaction_id(), "00000000-0000-0000-0000-000000000001");
}

#[test]
fn different_identifiers_are_written_differently() {
    let source = request(1.0, PaymentMethod::Bank);
    let first = PaymentRecord::with_id(&source, 0x4000_8000_0000_0000_0000);
    let second = PaymentRecord::with_id(&source, 0x4000_8000_0000_0000_0001);
    assert_ne!(first.transaction_id(), second.transaction_id());
    assert_ne!(first, second);
}

#[test]
fn a_built_record_copies_the_request() {
    let source = request(999.5, PaymentMethod::Bank);
    let record = PaymentRecord::build(&source);
    assert_eq!(record.amount(), source.amount);
    assert_eq!(record.payment_method(), "bank");
    assert_eq!(record.status(), "pending");
}

#[test]
fn a_built_record_has_a_random_identifier_of_version_4() {
    let record = PaymentRecord::build(&request(10.0, PaymentMethod::Bank));
    let text = record.transaction_id().to_string();
    assert_eq!(text.len(), 36);
    for (position, c) in text.chars().enumerate() {
        if position == 8 || position == 13 || position == 18 || position == 23 {
            assert_eq!(c, '-');
        } else {
            assert!(c.is_ascii_digit() || ('a'..='f').contains(&c), "character {:?}", c);
        }
    }
    assert_eq!(text.chars().nth(14), Some('4'));
    assert!(matches!(text.chars().nth(19), Some('8') | Some('9') | Some('a') | Some('b')));
    let parsed = uuid::Uuid::parse_str(&text).unwrap();
    assert_eq!(parsed.get_version_num(), 4);
    assert_eq!(parsed.to_string(), text);
}

#[test]
fn two_built_records_have_different_identifiers() {
    let source = request(10.0, PaymentMethod::Bank);
    let first = PaymentRecord::build(&source);
    let second = PaymentRecord::build(&source);
    assert_ne!(first.transaction_id(), second.transaction_id());
}

#[test]
fn a_copy_of_a_record_is_equal_to_it() {
    let record = PaymentRecord::with_id(&request(5.0, PaymentMethod::Bank), 7);
    let copy = record.clone();
    assert_eq!(copy, record);
    assert_eq!(copy.transaction_id(), record.transaction_id());
}

#[test]
fn records_go_to_the_payment_collection_of_the_payment_database() {
    assert_eq!(database(), "payment");
    assert_eq!(collection(), "payment");
}

#[test]
fn a_record_as_a_document() {
    let source = request(64.0, PaymentMethod::Bank);
    let record = PaymentRecord::with_id(&source, 0x67e5_5044_10b1_426f_9247_bb68_0e5f_e0c8);
    let fields = document(&record);
    assert_eq!(
        fields,
        vec![
            Field {
                name: "transaction_id".to_string(),
                value: FieldValue::Text("67e55044-10b1-426f-9247-bb680e5fe0c8".to_string()),
            },
            Field { name: "amount".to_string(), value: FieldValue::Number(source.amount) },
            Field {
                name: "payment_method".to_string(),
                value: FieldValue::Text("bank".to_string()),
            },
            Field { name: "status".to_string(), value: FieldValue::Text("pending".to_string()) },
        ]
    );
}
