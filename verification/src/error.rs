//! The error that a client sees, and what it is made from.

use crate::reply::{HttpReply, HttpReplyView, ReplyBody, ReplyBodyView};
use crate::store::StoreError;
use vstd::prelude::*;
use vstd::string::StringExecFns;

verus! {

/// The status of a response that tells of a bad request.
pub const STATUS_BAD_REQUEST: u16 = 400;

/// Why a payload could not be read as a payment request.
#[derive(Clone, Copy, Debug, PartialEq, Eq, Structural)]
pub enum PayloadError {
    /// The body is not of the expected form: broken, a field missing, a value
    /// of the wrong type.
    Malformed,
    /// The payment method is none of the known ones.
    UnknownMethod,
}

/// Why a payment request was turned down.
#[derive(Clone, Copy, Debug, PartialEq, Eq, Structural)]
pub enum ValidationError {
    /// The amount is not within the accepted range.
    OutOfRange,
}

/// The body of an error response.
#[derive(Debug, PartialEq, Eq)]
pub struct ErrorResponse {
    pub message: String,
    pub code: String,
}

/// What an [`ErrorResponse`] holds.
pub ghost struct ErrorResponseView {
    pub message: Seq<char>,
    pub code: Seq<char>,
}

impl View for ErrorResponse {
    type V = ErrorResponseView;

    open spec fn view(&self) -> ErrorResponseView {
        ErrorResponseView { message: self.message@, code: self.code@ }
    }
}

/// The errors that a client is shown. There is one: whatever went wrong, the
/// client is told that the request was bad.
#[derive(Clone, Copy, Debug, PartialEq, Eq, Structural)]
pub enum PaymentHttpError {
    BadRequest,
}

impl PaymentHttpError {
    /// The HTTP status of this error.
    pub open spec fn status(self) -> u16 {
        match self {
            PaymentHttpError::BadRequest => STATUS_BAD_REQUEST,
        }
    }

    /// The message of this error.
    pub open spec fn message(self) -> Seq<char> {
        match self {
            PaymentHttpError::BadRequest => "Bad Request"@,
        }
    }

    /// The code of this error.
    pub open spec fn code(self) -> Seq<char> {
        match self {
            PaymentHttpError::BadRequest => "P001"@,
        }
    }

    /// The body that goes with this error.
    pub open spec fn body(self) -> ErrorResponseView {
        ErrorResponseView { message: self.message(), code: self.code() }
    }

    /// The whole response for this error.
    pub open spec fn reply(self) -> HttpReplyView {
        HttpReplyView { status: self.status(), body: ReplyBodyView::Failure(self.body()) }
    }

    /// The status and the body for this error.
    pub fn as_response_data(&self) -> (data: (u16, ErrorResponse))
        ensures
            data.0 == self.status(),
            data.1@ == self.body(),
    {
        match self {
            PaymentHttpError::BadRequest => (
                STATUS_BAD_REQUEST,
                ErrorResponse {
                    message: String::from_str("Bad Request"),
                    code: String::from_str("P001"),
                },
            ),
        }
    }

    /// The error in words: the message of its body.
    pub fn to_string(&self) -> (text: String)
        ensures
            text@ == self.message(),
    {
        let (_, body) = self.as_response_data();
        body.message
    }

    /// The response that tells a client of this error.
    pub fn error_response(&self) -> (reply: HttpReply)
        ensures
            reply@ == self.reply(),
    {
        let (status, body) = self.as_response_data();
        HttpReply { status, body: ReplyBody::Failure(body) }
    }

    /// The error shown for a payload that could not be read.
    pub fn from_payload(error: PayloadError) -> (shown: PaymentHttpError)
        ensures
            shown == PaymentHttpError::BadRequest,
    {
        match error {
            PayloadError::Malformed => PaymentHttpError::BadRequest,
            PayloadError::UnknownMethod => PaymentHttpError::BadRequest,
        }
    }

    /// The error shown for a request that was turned down.
    pub fn from_validation(error: ValidationError) -> (shown: PaymentHttpError)
        ensures
            shown == PaymentHttpError::BadRequest,
    {
        match error {
            ValidationError::OutOfRange => PaymentHttpError::BadRequest,
        }
    }

    /// The error shown when the store did not take the record.
    pub fn from_store(_error: &StoreError) -> (shown: PaymentHttpError)
        ensures
            shown == PaymentHttpError::BadRequest,
    {
        PaymentHttpError::BadRequest
    }
}

/// The error shown for a body that is no payment request at all.
pub fn custom_json_error_handler() -> (shown: PaymentHttpError)
    ensures
        shown == PaymentHttpError::BadRequest,
{
    PaymentHttpError::from_payload(PayloadError::Malformed)
}

/// Whatever the client is told of a failure is the same: status 400, with the
/// message "Bad Request" and the code "P001".
pub proof fn lemma_refusal(error: PaymentHttpError)
    ensures
        error.reply() == (HttpReplyView {
            status: 400,
            body: ReplyBodyView::Failure(
                ErrorResponseView { message: "Bad Request"@, code: "P001"@ },
            ),
        }),
{
}

} // verus!
