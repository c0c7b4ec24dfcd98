use payment_initiation::amount::Amount;
use payment_initiation::error::{
    custom_json_error_handler, ErrorResponse, PayloadError, PaymentHttpError, ValidationError,
    STATUS_BAD_REQUEST,
};
use payment_initiation::reply::{
    health_check, payment_accepted, HttpReply, PaymentResponse, ReplyBody, STATUS_OK,
};
use payment_initiation::store::StoreError;

#[test]
fn bad_request_is_400_with_message_and_code() {
    let (status, body) = PaymentHttpError::BadRequest.as_response_data();
    assert_eq!(status, 400);
    assert_eq!(STATUS_BAD_REQUEST, 400);
    assert_eq!(body.message, "Bad Request");
    assert_eq!(body.code, "P001");
    assert_eq!(
        body,
        ErrorResponse { message: "Bad Request".to_string(), code: "P001".to_string() }
    );
}

#[test]
fn bad_request_in_words() {
    assert_eq!(PaymentHttpError::BadRequest.to_string(), "Bad Request");
}

#[test]
fn bad_request_as_a_response() {
    let reply = PaymentHttpError::BadRequest.error_response();
    assert_eq!(
        reply,
        HttpReply {
            status: 400,
            body: ReplyBody::Failure(ErrorResponse {
                message: "Bad Request".to_string(),
                code: "P001".to_string(),
            }),
        }
    );
}

#[test]
fn every_cause_is_shown_as_bad_request() {
    assert_eq!(
        PaymentHttpError::from_payload(PayloadError::Malformed),
        PaymentHttpError::BadRequest
    );
    assert_eq!(
        PaymentHttpError::from_payload(PayloadError::UnknownMethod),
        PaymentHttpError::BadRequest
    );
    assert_eq!(
        PaymentHttpError::from_validation(ValidationError::OutOfRange),
        PaymentHttpError::BadRequest
    );
    let unreachable = StoreError { reason: "connection refused".to_string() };
    assert_eq!(PaymentHttpError::from_store(&unreachable), PaymentHttpError::BadRequest);
}

#[test]
fn a_broken_body_is_shown_as_bad_request() {
    assert_eq!(custom_json_error_handler(), PaymentHttpError::BadRequest);
    assert_eq!(custom_json_error_handler().as_response_data().0, 400);
}

#[test]
fn health_check_is_200_and_empty() {
    let reply = health_check();
    assert_eq!(reply.status, 200);
    assert_eq!(reply.body, ReplyBody::Empty);
    assert_eq!(STATUS_OK, 200);
}

#[test]
fn health_check_is_the_same_every_time() {
    assert_eq!(health_check(), health_check());
    assert_eq!(health_check(), HttpReply { status: 200, body: ReplyBody::Empty });
}

#[test]
fn accepted_payment_is_200_pending_with_the_amount() {
    let amount = Amount::from_bits(42.5f64.to_bits());
    let reply = payment_accepted(amount);
    assert_eq!(reply.status, 200);
    assert_eq!(
        reply.body,
        ReplyBody::Payment(PaymentResponse { status: "pending".to_string(), amount })
    );
    match reply.body {
        ReplyBody::Payment(body) => assert_eq!(f64::from_bits(body.amount.to_bits()), 42.5),
        other => panic!("unexpected body {:?}", other),
    }
}
