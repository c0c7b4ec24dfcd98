//! Payment requests and their validation.

use crate::amount::Amount;
use crate::error::{PayloadError, ValidationError};
use crate::method::PaymentMethod;
use vstd::prelude::*;

verus! {

/// A request to start a payment: how much, and by which method. It lives for
/// the time of one request and is never stored as it is.
#[derive(Clone, Copy, Debug, PartialEq, Eq, Structural)]
pub struct PaymentRequest {
    pub amount: Amount,
    pub payment_method: PaymentMethod,
}

impl PaymentRequest {
    /// The request passes validation: its amount lies within the accepted
    /// range.
    pub open spec fn is_valid(self) -> bool {
        self.amount.in_range()
    }

    /// The verdict of validation on this request.
    pub open spec fn verdict(self) -> Result<(), ValidationError> {
        if self.is_valid() {
            Ok(())
        } else {
            Err(ValidationError::OutOfRange)
        }
    }

    /// The request that an amount and the text form of a payment method make,
    /// if the text names a method.
    pub open spec fn read(amount: Amount, payment_method: Seq<char>) -> Result<
        PaymentRequest,
        PayloadError,
    > {
        match PaymentMethod::named(payment_method) {
            Some(method) => Ok(PaymentRequest { amount, payment_method: method }),
            None => Err(PayloadError::UnknownMethod),
        }
    }

    /// Puts a request together from the two fields of a payload. The amount
    /// is taken as it is; the payment method must be one of the canonical
    /// names.
    pub fn from_parts(amount: Amount, payment_method: &str) -> (request: Result<
        PaymentRequest,
        PayloadError,
    >)
        ensures
            request == PaymentRequest::read(amount, payment_method@),
    {
        match PaymentMethod::from_name(payment_method) {
            Some(method) => Ok(PaymentRequest { amount, payment_method: method }),
            None => Err(PayloadError::UnknownMethod),
        }
    }

    /// Checks the request against the rules for its fields. Nothing is
    /// changed.
    pub fn validate(&self) -> (verdict: Result<(), ValidationError>)
        ensures
            verdict == self.verdict(),
    {
        if self.amount.is_in_range() {
            Ok(())
        } else {
            Err(ValidationError::OutOfRange)
        }
    }
}

} // verus!
