//! Why a command on a bank account was rejected.

use vstd::prelude::*;
use vstd::std_specs::convert::FromSpecImpl;

verus! {

/// The reason why a command was rejected, in words.
#[derive(Debug, PartialEq)]
pub struct BankAccountError(pub String);

impl View for BankAccountError {
    type V = Seq<char>;

    open spec fn view(&self) -> Seq<char> {
        self.0@
    }
}

impl BankAccountError {
    /// The reason, as text.
    pub fn to_string(&self) -> (text: String)
        ensures
            text@ == self@,
    {
        self.0.clone()
    }
}

impl From<&str> for BankAccountError {
    fn from(message: &str) -> (error: Self)
        ensures
            error@ == message@,
    {
        BankAccountError(message.to_string())
    }
}

impl FromSpecImpl<&str> for BankAccountError {
    open spec fn obeys_from_spec() -> bool {
        false
    }

    open spec fn from_spec(message: &str) -> Self {
        arbitrary()
    }
}

} // verus!
