//! The outside services that a bank account may consult while it decides.

use vstd::prelude::*;

verus! {

/// The services of a bank account. There are none yet.
pub struct BankAccountServices;

} // verus!
