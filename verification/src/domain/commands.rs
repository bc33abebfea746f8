//! What a customer can ask of a bank account.

use vstd::prelude::*;

verus! {

/// A request on a bank account. Amounts are whole units of the currency.
#[derive(Debug, Clone)]
pub enum BankAccountCommand {
    OpenAccount { account_id: String },
    DepositMoney { amount: i64 },
    WithdrawMoney { amount: i64 },
    WriteCheck { check_number: String, amount: i64 },
}

} // verus!
