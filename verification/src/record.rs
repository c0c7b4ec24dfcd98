//! The record of a pending payment, as it is handed to the store.

use crate::amount::Amount;
use crate::ident::{hyphenated, is_random_v4, lemma_text_injective, random_v4, text_of};
use crate::method::{lemma_name_round_trip, PaymentMethod};
use crate::request::PaymentRequest;
use vstd::prelude::*;
use vstd::string::StringExecFns;

verus! {

/// The status that every new record has.
pub open spec fn pending() -> Seq<char> {
    "pending"@
}

/// What a [`PaymentRecord`] holds.
pub ghost struct PaymentRecordView {
    pub transaction_id: Seq<char>,
    pub amount: Amount,
    pub payment_method: Seq<char>,
    pub status: Seq<char>,
}

/// The record that is built from a request under a given identifier.
pub open spec fn record_of(request: PaymentRequest, id: u128) -> PaymentRecordView {
    PaymentRecordView {
        transaction_id: hyphenated(id),
        amount: request.amount,
        payment_method: request.payment_method.name(),
        status: pending(),
    }
}

impl PaymentRecordView {
    /// The record was built from a request that passes validation.
    pub open spec fn wf(self) -> bool {
        exists|request: PaymentRequest, id: u128|
            request.is_valid() && self == #[trigger] record_of(request, id)
    }
}

/// The record of a pending payment. One is made for each request that passes
/// validation, and none otherwise; once made it does not change.
#[derive(Debug, PartialEq, Eq)]
pub struct PaymentRecord {
    transaction_id: String,
    amount: Amount,
    payment_method: String,
    status: String,
}

impl View for PaymentRecord {
    type V = PaymentRecordView;

    closed spec fn view(&self) -> PaymentRecordView {
        PaymentRecordView {
            transaction_id: self.transaction_id@,
            amount: self.amount,
            payment_method: self.payment_method@,
            status: self.status@,
        }
    }
}

impl Clone for PaymentRecord {
    fn clone(&self) -> (copy: Self)
        ensures
            copy@ == self@,
    {
        proof {
            use_type_invariant(self);
        }
        PaymentRecord {
            transaction_id: self.transaction_id.clone(),
            amount: self.amount,
            payment_method: self.payment_method.clone(),
            status: self.status.clone(),
        }
    }
}

impl PaymentRecord {
    #[verifier::type_invariant]
    spec fn inv(&self) -> bool {
        self@.wf()
    }

    /// Builds the record of a request under the given identifier: the
    /// identifier in its text form, the amount as it is, the payment method by
    /// its canonical name, and the status of a new record.
    pub fn with_id(request: &PaymentRequest, id: u128) -> (record: PaymentRecord)
        requires
            request.is_valid(),
        ensures
            record@ == record_of(*request, id),
    {
        let transaction_id = text_of(id);
        let payment_method = request.payment_method.to_string();
        let status = String::from_str("pending");
        proof {
            let built = PaymentRecordView {
                transaction_id: transaction_id@,
                amount: request.amount,
                payment_method: payment_method@,
                status: status@,
            };
            assert(built == record_of(*request, id));
        }
        PaymentRecord { transaction_id, amount: request.amount, payment_method, status }
    }

    /// Builds the record of a request under a fresh random identifier.
    pub fn build(request: &PaymentRequest) -> (record: PaymentRecord)
        requires
            request.is_valid(),
        ensures
            exists|id: u128| is_random_v4(id) && record@ == #[trigger] record_of(*request, id),
    {
        let id: u128 = random_v4();
        PaymentRecord::with_id(request, id)
    }

    /// The identifier of the transaction, in its text form.
    pub fn transaction_id(&self) -> (id: &str)
        ensures
            id@ == self@.transaction_id,
            self@.wf(),
    {
        proof {
            use_type_invariant(self);
        }
        self.transaction_id.as_str()
    }

    /// The amount, as the request gave it.
    pub fn amount(&self) -> (amount: Amount)
        ensures
            amount == self@.amount,
            self@.wf(),
    {
        proof {
            use_type_invariant(self);
        }
        self.amount
    }

    /// The canonical name of the payment method.
    pub fn payment_method(&self) -> (name: &str)
        ensures
            name@ == self@.payment_method,
            self@.wf(),
    {
        proof {
            use_type_invariant(self);
        }
        self.payment_method.as_str()
    }

    /// The status of the payment.
    pub fn status(&self) -> (status: &str)
        ensures
            status@ == self@.status,
            self@.wf(),
    {
        proof {
            use_type_invariant(self);
        }
        self.status.as_str()
    }
}

/// What holds of every record: its identifier is the text form of a 128-bit
/// value, its amount lies within the accepted range, its payment method is a
/// canonical name, and its status is that of a new record.
pub proof fn lemma_record_wf(record: PaymentRecordView)
    requires
        record.wf(),
    ensures
        exists|id: u128| record.transaction_id == #[trigger] hyphenated(id),
        record.amount.in_range(),
        PaymentMethod::named(record.payment_method) is Some,
        record.status == pending(),
{
    let (request, id) = choose|request: PaymentRequest, id: u128|
        request.is_valid() && record == #[trigger] record_of(request, id);
    assert(record.transaction_id == hyphenated(id));
    lemma_name_round_trip(request.payment_method, record.payment_method);
}

/// Records built under different identifiers carry different transaction
/// ids, whatever the requests: two records are mistaken for each other only
/// if the same 128 bits were drawn twice.
pub proof fn lemma_ids_tell_records_apart(
    first: PaymentRequest,
    first_id: u128,
    second: PaymentRequest,
    second_id: u128,
)
    requires
        first_id != second_id,
    ensures
        record_of(first, first_id).transaction_id != record_of(second, second_id).transaction_id,
{
    if hyphenated(first_id) == hyphenated(second_id) {
        lemma_text_injective(first_id, second_id);
    }
}

} // verus!
