//! The handling of one payment request, as a state machine: the handler
//! decides, its caller does the outside work and reports back.

use crate::error::{PayloadError, PaymentHttpError};
use crate::ident::{is_random_v4, random_v4, V4_BITS, V4_MASK};
use crate::record::{record_of, PaymentRecord, PaymentRecordView};
use crate::reply::{accepted, payment_accepted, HttpReply, HttpReplyView};
use crate::request::PaymentRequest;
use crate::store::{InsertOutcome, StoreError};
use vstd::prelude::*;

verus! {

/// Where the handling of a request stands.
#[derive(Debug, PartialEq, Eq)]
pub enum HandlerState {
    /// A payload has come in; nothing is known of it yet.
    ReceivedUnvalidated,
    /// The request was read and passes validation.
    Validated(PaymentRequest),
    /// The record was built and is on its way to the store.
    Built(PaymentRecord),
    /// The store has taken the record.
    Persisted(PaymentRecord),
    /// The client was told of the success. Nothing follows.
    Acknowledged,
    /// The request failed and the client was told so. Nothing follows.
    Failed(PaymentHttpError),
}

/// What a [`HandlerState`] holds.
pub ghost enum HandlerStateView {
    ReceivedUnvalidated,
    Validated(PaymentRequest),
    Built(PaymentRecordView),
    Persisted(PaymentRecordView),
    Acknowledged,
    Failed(PaymentHttpError),
}

impl View for HandlerState {
    type V = HandlerStateView;

    open spec fn view(&self) -> HandlerStateView {
        match self {
            HandlerState::ReceivedUnvalidated => HandlerStateView::ReceivedUnvalidated,
            HandlerState::Validated(request) => HandlerStateView::Validated(*request),
            HandlerState::Built(record) => HandlerStateView::Built(record@),
            HandlerState::Persisted(record) => HandlerStateView::Persisted(record@),
            HandlerState::Acknowledged => HandlerStateView::Acknowledged,
            HandlerState::Failed(error) => HandlerStateView::Failed(*error),
        }
    }
}

/// What the handler is told.
#[derive(Debug, PartialEq, Eq)]
pub enum HandlerEvent {
    /// The payload was read, or could not be.
    Payload(Result<PaymentRequest, PayloadError>),
    /// The handler asked for nothing; it may go on.
    Advance,
    /// The store has answered the insert.
    Stored(Result<InsertOutcome, StoreError>),
}

/// What of a [`HandlerEvent`] the handler goes by. Of the store's answer
/// that is only whether it took the record.
pub ghost enum HandlerEventView {
    Payload(Result<PaymentRequest, PayloadError>),
    Advance,
    Stored { taken: bool },
}

impl View for HandlerEvent {
    type V = HandlerEventView;

    open spec fn view(&self) -> HandlerEventView {
        match self {
            HandlerEvent::Payload(payload) => HandlerEventView::Payload(*payload),
            HandlerEvent::Advance => HandlerEventView::Advance,
            HandlerEvent::Stored(answer) => HandlerEventView::Stored { taken: answer is Ok },
        }
    }
}

/// What the handler asks of its caller.
#[derive(Debug, PartialEq, Eq)]
pub enum HandlerAction {
    /// Nothing: report [`HandlerEvent::Advance`].
    Proceed,
    /// Insert this record into the store, once, and report
    /// [`HandlerEvent::Stored`].
    Insert(PaymentRecord),
    /// Send this response. The request is done.
    Respond(HttpReply),
    /// Nothing: the request was done before.
    Halt,
}

/// What a [`HandlerAction`] holds.
pub ghost enum HandlerActionView {
    Proceed,
    Insert(PaymentRecordView),
    Respond(HttpReplyView),
    Halt,
}

impl View for HandlerAction {
    type V = HandlerActionView;

    open spec fn view(&self) -> HandlerActionView {
        match self {
            HandlerAction::Proceed => HandlerActionView::Proceed,
            HandlerAction::Insert(record) => HandlerActionView::Insert(record@),
            HandlerAction::Respond(reply) => HandlerActionView::Respond(reply@),
            HandlerAction::Halt => HandlerActionView::Halt,
        }
    }
}

/// The one way in which a request fails: the client is told that the request
/// was bad, whatever the cause.
pub open spec fn refused() -> (HandlerStateView, HandlerActionView) {
    (
        HandlerStateView::Failed(PaymentHttpError::BadRequest),
        HandlerActionView::Respond(PaymentHttpError::BadRequest.reply()),
    )
}

/// One step of the handler: from a state and an event to the next state and
/// what is asked of the caller. `id` is the identifier that a record gets if
/// this step builds one.
///
/// An event that the state does not wait for fails the request. A request
/// that is done stays as it is.
pub open spec fn step(state: HandlerStateView, event: HandlerEventView, id: u128) -> (
    HandlerStateView,
    HandlerActionView,
) {
    match state {
        HandlerStateView::ReceivedUnvalidated => match event {
            HandlerEventView::Payload(Ok(request)) => if request.is_valid() {
                (HandlerStateView::Validated(request), HandlerActionView::Proceed)
            } else {
                refused()
            },
            _ => refused(),
        },
        HandlerStateView::Validated(request) => match event {
            HandlerEventView::Advance => if request.is_valid() {
                let record = record_of(request, id);
                (HandlerStateView::Built(record), HandlerActionView::Insert(record))
            } else {
                refused()
            },
            _ => refused(),
        },
        HandlerStateView::Built(record) => match event {
            HandlerEventView::Stored { taken: true } => (
                HandlerStateView::Persisted(record),
                HandlerActionView::Proceed,
            ),
            _ => refused(),
        },
        HandlerStateView::Persisted(record) => match event {
            HandlerEventView::Advance => (
                HandlerStateView::Acknowledged,
                HandlerActionView::Respond(accepted(record.amount)),
            ),
            _ => refused(),
        },
        HandlerStateView::Acknowledged => (state, HandlerActionView::Halt),
        HandlerStateView::Failed(_) => (state, HandlerActionView::Halt),
    }
}

/// Fails the request for the given reason.
fn refuse(error: PaymentHttpError) -> (next: (HandlerState, HandlerAction))
    ensures
        (next.0@, next.1@) == refused(),
{
    let reply = error.error_response();
    (HandlerState::Failed(error), HandlerAction::Respond(reply))
}

impl HandlerState {
    /// The state in which every request starts.
    pub fn new() -> (state: HandlerState)
        ensures
            state@ == HandlerStateView::ReceivedUnvalidated,
    {
        HandlerState::ReceivedUnvalidated
    }

    /// Tells whether the request is done: nothing more will be asked of the
    /// caller.
    pub fn is_done(&self) -> (done: bool)
        ensures
            done == (self@ is Acknowledged || self@ is Failed),
    {
        match self {
            HandlerState::Acknowledged => true,
            HandlerState::Failed(_) => true,
            _ => false,
        }
    }
}

/// Takes one step of the handler, with the identifier given.
pub fn transition(state: HandlerState, event: HandlerEvent, id: u128) -> (next: (
    HandlerState,
    HandlerAction,
))
    ensures
        (next.0@, next.1@) == step(state@, event@, id),
{
    match state {
        HandlerState::ReceivedUnvalidated => match event {
            HandlerEvent::Payload(Ok(request)) => match request.validate() {
                Ok(()) => (HandlerState::Validated(request), HandlerAction::Proceed),
                Err(error) => refuse(PaymentHttpError::from_validation(error)),
            },
            HandlerEvent::Payload(Err(error)) => refuse(PaymentHttpError::from_payload(error)),
            _ => refuse(PaymentHttpError::BadRequest),
        },
        HandlerState::Validated(request) => match event {
            HandlerEvent::Advance => match request.validate() {
                Ok(()) => {
                    let record = PaymentRecord::with_id(&request, id);
                    let copy = record.clone();
                    (HandlerState::Built(record), HandlerAction::Insert(copy))
                },
                Err(error) => refuse(PaymentHttpError::from_validation(error)),
            },
            _ => refuse(PaymentHttpError::BadRequest),
        },
        HandlerState::Built(record) => match event {
            HandlerEvent::Stored(Ok(_)) => (
                HandlerState::Persisted(record),
                HandlerAction::Proceed,
            ),
            HandlerEvent::Stored(Err(error)) => refuse(PaymentHttpError::from_store(&error)),
            _ => refuse(PaymentHttpError::BadRequest),
        },
        HandlerState::Persisted(record) => match event {
            HandlerEvent::Advance => (
                HandlerState::Acknowledged,
                HandlerAction::Respond(payment_accepted(record.amount())),
            ),
            _ => refuse(PaymentHttpError::BadRequest),
        },
        HandlerState::Acknowledged => (HandlerState::Acknowledged, HandlerAction::Halt),
        HandlerState::Failed(error) => (HandlerState::Failed(error), HandlerAction::Halt),
    }
}

/// Takes one step of the handler. Where the step builds a record, the record
/// gets a fresh random identifier.
pub fn payment_handler(state: HandlerState, event: HandlerEvent) -> (next: (
    HandlerState,
    HandlerAction,
))
    ensures
        exists|id: u128|
            is_random_v4(id) && (next.0@, next.1@) == #[trigger] step(state@, event@, id),
{
    // Only the step that builds a record reads the identifier: no other
    // step draws one.
    let id: u128 = match state {
        HandlerState::Validated(_) => random_v4(),
        _ => V4_BITS,
    };
    assert(is_random_v4(V4_BITS)) by {
        assert(V4_BITS & V4_MASK == V4_BITS) by (bit_vector);
    }
    transition(state, event, id)
}

/// The event by which a caller that keeps to the rules answers an action,
/// where the store takes a record or does not as `taken` says.
pub open spec fn answer_to(action: HandlerActionView, taken: bool) -> HandlerEventView {
    match action {
        HandlerActionView::Insert(_) => HandlerEventView::Stored { taken },
        _ => HandlerEventView::Advance,
    }
}

/// What the handler asks for, in order, over at most `steps` steps from the
/// given state and event, with a caller that keeps to the rules. The run ends
/// with the first response.
pub open spec fn run(
    state: HandlerStateView,
    event: HandlerEventView,
    id: u128,
    taken: bool,
    steps: nat,
) -> Seq<HandlerActionView>
    decreases steps,
{
    if steps == 0 {
        Seq::empty()
    } else {
        let (next, action) = step(state, event, id);
        match action {
            HandlerActionView::Respond(_) | HandlerActionView::Halt => seq![action],
            _ => seq![action] + run(next, answer_to(action, taken), id, taken, (steps - 1) as nat),
        }
    }
}

/// The most steps that the handling of one request takes.
pub open spec fn max_steps() -> nat {
    4
}

/// All that the handler asks for while one request is handled, from the
/// payload to the response.
pub open spec fn handling(
    payload: Result<PaymentRequest, PayloadError>,
    id: u128,
    taken: bool,
) -> Seq<HandlerActionView> {
    run(
        HandlerStateView::ReceivedUnvalidated,
        HandlerEventView::Payload(payload),
        id,
        taken,
        max_steps(),
    )
}

/// A request that passes validation is recorded once and then acknowledged,
/// if the store takes the record: the handler asks for one insert, of the
/// record of that very request with the status of a new record, and then for
/// the response that reports success with the amount.
pub proof fn lemma_valid_request_is_recorded_once(request: PaymentRequest, id: u128)
    requires
        request.is_valid(),
    ensures
        handling(Ok(request), id, true) == seq![
            HandlerActionView::Proceed,
            HandlerActionView::Insert(record_of(request, id)),
            HandlerActionView::Proceed,
            HandlerActionView::Respond(accepted(request.amount)),
        ],
        record_of(request, id).status == crate::record::pending(),
        record_of(request, id).amount == request.amount,
        record_of(request, id).payment_method == request.payment_method.name(),
{
    reveal_with_fuel(run, 5);
    assert(handling(Ok(request), id, true) =~= seq![
        HandlerActionView::Proceed,
        HandlerActionView::Insert(record_of(request, id)),
        HandlerActionView::Proceed,
        HandlerActionView::Respond(accepted(request.amount)),
    ]);
}

/// A request that does not pass validation is refused at once: the client is
/// told that the request was bad, and no insert is asked for, whatever the
/// store would have done.
pub proof fn lemma_invalid_request_is_refused(request: PaymentRequest, id: u128, taken: bool)
    requires
        !request.is_valid(),
    ensures
        handling(Ok(request), id, taken) == seq![
            HandlerActionView::Respond(PaymentHttpError::BadRequest.reply()),
        ],
{
    reveal_with_fuel(run, 2);
}

/// A payload that could not be read is refused at once, in the same way as a
/// request that does not pass validation.
pub proof fn lemma_unreadable_payload_is_refused(error: PayloadError, id: u128, taken: bool)
    ensures
        handling(Err(error), id, taken) == seq![
            HandlerActionView::Respond(PaymentHttpError::BadRequest.reply()),
        ],
{
    reveal_with_fuel(run, 2);
}

/// Where the store does not take the record, a request that passes
/// validation is refused too: after the one insert the client is told that
/// the request was bad.
pub proof fn lemma_store_failure_is_refused(request: PaymentRequest, id: u128)
    requires
        request.is_valid(),
    ensures
        handling(Ok(request), id, false) == seq![
            HandlerActionView::Proceed,
            HandlerActionView::Insert(record_of(request, id)),
            HandlerActionView::Respond(PaymentHttpError::BadRequest.reply()),
        ],
{
    reveal_with_fuel(run, 4);
    assert(handling(Ok(request), id, false) =~= seq![
        HandlerActionView::Proceed,
        HandlerActionView::Insert(record_of(request, id)),
        HandlerActionView::Respond(PaymentHttpError::BadRequest.reply()),
    ]);
}

/// The handling of a request always comes to a response, and within four
/// steps: more steps change nothing.
pub proof fn lemma_handling_ends(
    payload: Result<PaymentRequest, PayloadError>,
    id: u128,
    taken: bool,
    steps: nat,
)
    requires
        steps >= max_steps(),
    ensures
        run(
            HandlerStateView::ReceivedUnvalidated,
            HandlerEventView::Payload(payload),
            id,
            taken,
            steps,
        ) == handling(payload, id, taken),
        handling(payload, id, taken).len() > 0,
        handling(payload, id, taken).last() is Respond,
{
    reveal_with_fuel(run, 5);
    match payload {
        Ok(request) => {
            if request.is_valid() {
                if taken {
                    lemma_valid_request_is_recorded_once(request, id);
                } else {
                    lemma_store_failure_is_refused(request, id);
                }
            } else {
                lemma_invalid_request_is_refused(request, id, taken);
            }
        },
        Err(error) => {
            lemma_unreadable_payload_is_refused(error, id, taken);
        },
    }
}

} // verus!
