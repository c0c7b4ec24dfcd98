//! The payment methods that a request can name.

use vstd::prelude::*;
use vstd::string::StringExecFns;

verus! {

/// A payment method: one of a closed set.
#[derive(Clone, Copy, Debug, PartialEq, Eq, Structural)]
pub enum PaymentMethod {
    Bank,
    Truemoney,
}

impl PaymentMethod {
    /// The canonical name of a method: its only accepted text form.
    pub open spec fn name(self) -> Seq<char> {
        match self {
            PaymentMethod::Bank => "bank"@,
            PaymentMethod::Truemoney => "truemoney"@,
        }
    }

    /// The method that a text names, if it names one.
    pub open spec fn named(text: Seq<char>) -> Option<PaymentMethod> {
        if text == PaymentMethod::Bank.name() {
            Some(PaymentMethod::Bank)
        } else if text == PaymentMethod::Truemoney.name() {
            Some(PaymentMethod::Truemoney)
        } else {
            None
        }
    }

    /// The canonical name of this method.
    pub fn as_str(&self) -> (name: &'static str)
        ensures
            name@ == self.name(),
    {
        match self {
            PaymentMethod::Bank => "bank",
            PaymentMethod::Truemoney => "truemoney",
        }
    }

    /// The canonical name of this method, as an owned string.
    pub fn to_string(&self) -> (name: String)
        ensures
            name@ == self.name(),
    {
        String::from_str(self.as_str())
    }

    /// Reads a method from its text form. Only the two canonical names are
    /// accepted, letter for letter.
    pub fn from_name(text: &str) -> (method: Option<PaymentMethod>)
        ensures
            method == PaymentMethod::named(text@),
    {
        let given = String::from_str(text);
        if given == PaymentMethod::Bank.to_string() {
            Some(PaymentMethod::Bank)
        } else if given == PaymentMethod::Truemoney.to_string() {
            Some(PaymentMethod::Truemoney)
        } else {
            None
        }
    }
}

/// Reading a method's canonical name gives the method back, so the two names
/// differ; and a text that reads as a method is that method's name.
pub proof fn lemma_name_round_trip(method: PaymentMethod, text: Seq<char>)
    ensures
        PaymentMethod::named(method.name()) == Some(method),
        PaymentMethod::named(text) == Some(method) <==> text == method.name(),
{
    reveal_strlit("bank");
    reveal_strlit("truemoney");
    assert("bank"@.len() != "truemoney"@.len());
}

/// A canonical name is made of lower-case letters only.
pub proof fn lemma_name_is_lowercase(method: PaymentMethod)
    ensures
        method.name().len() > 0,
        forall|i: int| 0 <= i < method.name().len() ==> 'a' <= #[trigger] method.name()[i] <= 'z',
{
    reveal_strlit("bank");
    reveal_strlit("truemoney");
}

} // verus!
