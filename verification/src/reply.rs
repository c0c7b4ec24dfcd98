//! Responses, as plain values: a status and a body.

use crate::amount::Amount;
use crate::error::{ErrorResponse, ErrorResponseView};
use crate::record::pending;
use vstd::prelude::*;
use vstd::string::StringExecFns;

verus! {

/// The status of a response that reports success.
pub const STATUS_OK: u16 = 200;

/// The body of the response to a payment that was recorded.
#[derive(Debug, PartialEq, Eq)]
pub struct PaymentResponse {
    pub status: String,
    pub amount: Amount,
}

/// What a [`PaymentResponse`] holds.
pub ghost struct PaymentResponseView {
    pub status: Seq<char>,
    pub amount: Amount,
}

impl View for PaymentResponse {
    type V = PaymentResponseView;

    open spec fn view(&self) -> PaymentResponseView {
        PaymentResponseView { status: self.status@, amount: self.amount }
    }
}

/// The body of a response.
#[derive(Debug, PartialEq, Eq)]
pub enum ReplyBody {
    /// Nothing.
    Empty,
    /// An error, to be written as JSON.
    Failure(ErrorResponse),
    /// A recorded payment, to be written as JSON.
    Payment(PaymentResponse),
}

/// What a [`ReplyBody`] holds.
pub ghost enum ReplyBodyView {
    Empty,
    Failure(ErrorResponseView),
    Payment(PaymentResponseView),
}

impl View for ReplyBody {
    type V = ReplyBodyView;

    open spec fn view(&self) -> ReplyBodyView {
        match self {
            ReplyBody::Empty => ReplyBodyView::Empty,
            ReplyBody::Failure(body) => ReplyBodyView::Failure(body@),
            ReplyBody::Payment(body) => ReplyBodyView::Payment(body@),
        }
    }
}

/// A response: an HTTP status and a body.
#[derive(Debug, PartialEq, Eq)]
pub struct HttpReply {
    pub status: u16,
    pub body: ReplyBody,
}

/// What an [`HttpReply`] holds.
pub ghost struct HttpReplyView {
    pub status: u16,
    pub body: ReplyBodyView,
}

impl View for HttpReply {
    type V = HttpReplyView;

    open spec fn view(&self) -> HttpReplyView {
        HttpReplyView { status: self.status, body: self.body@ }
    }
}

/// The response to a liveness probe.
pub open spec fn alive() -> HttpReplyView {
    HttpReplyView { status: STATUS_OK, body: ReplyBodyView::Empty }
}

/// The response to a payment of the given amount that was recorded.
pub open spec fn accepted(amount: Amount) -> HttpReplyView {
    HttpReplyView {
        status: STATUS_OK,
        body: ReplyBodyView::Payment(PaymentResponseView { status: pending(), amount }),
    }
}

/// Answers a liveness probe: success, with nothing in the body. It takes
/// nothing and so depends on nothing, the store least of all.
pub fn health_check() -> (reply: HttpReply)
    ensures
        reply@ == alive(),
{
    HttpReply { status: STATUS_OK, body: ReplyBody::Empty }
}

/// The response to a payment of the given amount that was recorded.
pub fn payment_accepted(amount: Amount) -> (reply: HttpReply)
    ensures
        reply@ == accepted(amount),
{
    HttpReply {
        status: STATUS_OK,
        body: ReplyBody::Payment(PaymentResponse { status: String::from_str("pending"), amount }),
    }
}

} // verus!
