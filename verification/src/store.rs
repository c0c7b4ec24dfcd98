//! The boundary to the store: where a record goes, in what shape, and what
//! comes back. The write itself is the caller's to make.

use crate::amount::Amount;
use crate::record::{PaymentRecord, PaymentRecordView};
use vstd::prelude::*;
use vstd::string::StringExecFns;

verus! {

/// The store took the record. The receipt is whatever the store gave for it;
/// no rule of this library reads it.
#[derive(Debug, PartialEq, Eq)]
pub struct InsertOutcome {
    pub receipt: String,
}

/// The store did not take the record. The reason is for the operator; no
/// rule of this library reads it.
#[derive(Debug, PartialEq, Eq)]
pub struct StoreError {
    pub reason: String,
}

/// The value of one field of a document.
#[derive(Debug, PartialEq, Eq)]
pub enum FieldValue {
    Text(String),
    Number(Amount),
}

/// What a [`FieldValue`] holds.
pub ghost enum FieldValueView {
    Text(Seq<char>),
    Number(Amount),
}

impl View for FieldValue {
    type V = FieldValueView;

    open spec fn view(&self) -> FieldValueView {
        match self {
            FieldValue::Text(text) => FieldValueView::Text(text@),
            FieldValue::Number(amount) => FieldValueView::Number(*amount),
        }
    }
}

/// One field of a document: a name and a value.
#[derive(Debug, PartialEq, Eq)]
pub struct Field {
    pub name: String,
    pub value: FieldValue,
}

/// What a [`Field`] holds.
pub ghost struct FieldView {
    pub name: Seq<char>,
    pub value: FieldValueView,
}

impl View for Field {
    type V = FieldView;

    open spec fn view(&self) -> FieldView {
        FieldView { name: self.name@, value: self.value@ }
    }
}

/// The name of the database that holds the records.
pub open spec fn database_name() -> Seq<char> {
    "payment"@
}

/// The name of the collection that holds the records.
pub open spec fn collection_name() -> Seq<char> {
    "payment"@
}

/// The document that stands for a record in the store: its four fields, in
/// this order.
pub open spec fn document_of(record: PaymentRecordView) -> Seq<FieldView> {
    seq![
        FieldView {
            name: "transaction_id"@,
            value: FieldValueView::Text(record.transaction_id),
        },
        FieldView { name: "amount"@, value: FieldValueView::Number(record.amount) },
        FieldView {
            name: "payment_method"@,
            value: FieldValueView::Text(record.payment_method),
        },
        FieldView { name: "status"@, value: FieldValueView::Text(record.status) },
    ]
}

/// The name of the database that holds the records.
pub fn database() -> (name: &'static str)
    ensures
        name@ == database_name(),
{
    "payment"
}

/// The name of the collection that holds the records.
pub fn collection() -> (name: &'static str)
    ensures
        name@ == collection_name(),
{
    "payment"
}

/// Lays a record out as the document that the store is handed.
pub fn document(record: &PaymentRecord) -> (fields: Vec<Field>)
    ensures
        fields@.map_values(|field: Field| field@) == document_of(record@),
{
    let mut fields: Vec<Field> = Vec::new();
    fields.push(
        Field {
            name: String::from_str("transaction_id"),
            value: FieldValue::Text(String::from_str(record.transaction_id())),
        },
    );
    fields.push(
        Field { name: String::from_str("amount"), value: FieldValue::Number(record.amount()) },
    );
    fields.push(
        Field {
            name: String::from_str("payment_method"),
            value: FieldValue::Text(String::from_str(record.payment_method())),
        },
    );
    fields.push(
        Field {
            name: String::from_str("status"),
            value: FieldValue::Text(String::from_str(record.status())),
        },
    );
    assert(fields@.map_values(|field: Field| field@) =~= document_of(record@));
    fields
}

} // verus!
