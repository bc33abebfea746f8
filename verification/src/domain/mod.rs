//! A bank account: commands are decided against the balance, and the events
//! they raise carry the balance that results.

pub mod commands;
pub mod error;
pub mod events;

use vstd::prelude::*;
use crate::aggregate::TAggregate;
use crate::aggregate::TAggregateES;
use crate::aggregate::TAggregateMetadata;
use crate::event;
use crate::services::BankAccountServices;
use self::commands::BankAccountCommand;
use self::error::BankAccountError;
use self::events::BankAccountEvent;
use self::events::BankAccountEventView;

verus! {

/// A bank account. The balance is in whole units of the currency.
#[derive(Debug)]
pub struct BankAccount {
    account_id: String,
    opened: bool,
    balance: i64,
    sequence: i64,
    events: Vec<BankAccountEvent>,
}

/// The mathematical content of a [`BankAccount`].
pub struct BankAccountView {
    pub account_id: Seq<char>,
    pub opened: bool,
    pub balance: i64,
    pub sequence: i64,
    pub events: Seq<BankAccountEventView>,
}

impl View for BankAccount {
    type V = BankAccountView;

    closed spec fn view(&self) -> BankAccountView {
        BankAccountView {
            account_id: self.account_id@,
            opened: self.opened,
            balance: self.balance,
            sequence: self.sequence,
            events: event::views_of(self.events@),
        }
    }
}

impl Default for BankAccount {
    fn default() -> (account: Self)
        ensures
            account@ == (BankAccountView {
                account_id: Seq::empty(),
                opened: false,
                balance: 0,
                sequence: 0,
                events: Seq::empty(),
            }),
    {
        let account = BankAccount {
            account_id: String::new(),
            opened: false,
            balance: 0,
            sequence: 0,
            events: Vec::new(),
        };
        assert(account@.events =~= Seq::empty());
        account
    }
}

/// What a command on an account with the given balance results in: the
/// events to raise, or the reason for its rejection.
///
/// A deposit raises the new balance. A withdrawal that the balance covers
/// raises the new balance; one that it does not cover is rejected. Every
/// other command raises nothing.
pub open spec fn decided(balance: i64, command: BankAccountCommand) -> Result<
    Seq<BankAccountEventView>,
    Seq<char>,
> {
    match command {
        BankAccountCommand::DepositMoney { amount } => Ok(
            seq![
                BankAccountEventView::CustomerDepositedMoney {
                    amount,
                    balance: (balance + amount) as i64,
                },
            ],
        ),
        BankAccountCommand::WithdrawMoney { amount } => if balance - amount < 0 {
            Err("funds not available"@)
        } else {
            Ok(
                seq![
                    BankAccountEventView::CustomerWithdrewCash {
                        amount,
                        balance: (balance - amount) as i64,
                    },
                ],
            )
        },
        _ => Ok(Seq::empty()),
    }
}

/// The balance that a command computes fits the balance's type.
pub open spec fn in_range(balance: i64, command: BankAccountCommand) -> bool {
    match command {
        BankAccountCommand::DepositMoney { amount } => i64::MIN <= balance + amount <= i64::MAX,
        BankAccountCommand::WithdrawMoney { amount } => i64::MIN <= balance - amount <= i64::MAX,
        _ => true,
    }
}

impl BankAccount {
    pub fn aggregate_type() -> (name: String)
        ensures
            name@ == "Account"@,
    {
        "Account".to_string()
    }

    /// The balance of the account.
    pub fn balance(&self) -> (balance: i64)
        ensures
            balance == self@.balance,
    {
        self.balance
    }

    /// Whether the account has been opened.
    pub fn opened(&self) -> (opened: bool)
        ensures
            opened == self@.opened,
    {
        self.opened
    }

    /// Whether `handle` can take the command: the balance that the command
    /// computes fits the balance's type.
    pub fn can_handle(&self, command: &BankAccountCommand) -> (fits: bool)
        ensures
            fits == in_range(self@.balance, *command),
    {
        match command {
            BankAccountCommand::DepositMoney { amount } => self.balance.checked_add(
                *amount,
            ).is_some(),
            BankAccountCommand::WithdrawMoney { amount } => self.balance.checked_sub(
                *amount,
            ).is_some(),
            _ => true,
        }
    }

    /// Decides a command against the current balance. The account itself
    /// does not change.
    pub fn handle(&self, command: BankAccountCommand, services: &BankAccountServices) -> (raised:
        Result<Vec<BankAccountEvent>, BankAccountError>)
        requires
            in_range(self@.balance, command),
        ensures
            match raised {
                Ok(events) => decided(self@.balance, command) == Ok::<
                    Seq<BankAccountEventView>,
                    Seq<char>,
                >(event::views_of(events@)),
                Err(error) => decided(self@.balance, command) == Err::<
                    Seq<BankAccountEventView>,
                    Seq<char>,
                >(error@),
            },
    {
        match command {
            BankAccountCommand::DepositMoney { amount } => {
                let balance = self.balance + amount;
                let events = vec![BankAccountEvent::CustomerDepositedMoney { amount, balance }];
                assert(event::views_of(events@) =~= seq![events@[0]@]);
                Ok(events)
            },
            BankAccountCommand::WithdrawMoney { amount } => {
                let balance = self.balance - amount;
                if balance < 0 {
                    return Err(BankAccountError("funds not available".to_string()));
                }
                let events = vec![BankAccountEvent::CustomerWithdrewCash { amount, balance }];
                assert(event::views_of(events@) =~= seq![events@[0]@]);
                Ok(events)
            },
            _ => {
                let events: Vec<BankAccountEvent> = Vec::new();
                assert(event::views_of(events@) =~= Seq::empty());
                Ok(events)
            },
        }
    }
}

impl TAggregateES for BankAccount {
    type Event = BankAccountEvent;

    open spec fn applied(v: BankAccountView, event: BankAccountEventView) -> BankAccountView {
        match event {
            BankAccountEventView::AccountOpened { account_id } => BankAccountView {
                account_id,
                opened: true,
                ..v
            },
            BankAccountEventView::CustomerDepositedMoney { amount, balance } => BankAccountView {
                balance,
                ..v
            },
            BankAccountEventView::CustomerWithdrewCash { amount, balance } => BankAccountView {
                balance,
                ..v
            },
            BankAccountEventView::CustomerWroteCheck { balance, .. } => BankAccountView {
                balance,
                ..v
            },
        }
    }

    open spec fn raised(v: BankAccountView, event: BankAccountEventView) -> BankAccountView {
        BankAccountView { events: v.events.push(event), ..v }
    }

    open spec fn pending(v: BankAccountView) -> Seq<BankAccountEventView> {
        v.events
    }

    proof fn raised_is_appended(v: BankAccountView, event: BankAccountEventView) {
    }

    // Note that the apply function has no return value.
    // The act of applying an event is simply bookkeeping, the action has already taken place.
    fn apply(&mut self, event: Self::Event) {
        match event {
            BankAccountEvent::AccountOpened { account_id } => {
                self.account_id = account_id;
                self.opened = true;
            },
            BankAccountEvent::CustomerDepositedMoney { amount: _, balance } => {
                self.balance = balance;
            },
            BankAccountEvent::CustomerWithdrewCash { amount: _, balance } => {
                self.balance = balance;
            },
            BankAccountEvent::CustomerWroteCheck { balance, .. } => {
                self.balance = balance;
            },
        }
    }

    fn raise_event(&mut self, event: Self::Event) {
        self.events.push(event);
        assert(self@.events =~= old(self)@.events.push(event@));
    }

    fn events(&self) -> (buffer: &Vec<Self::Event>) {
        &self.events
    }
}

impl TAggregateMetadata for BankAccount {
    open spec fn sequence_of(v: BankAccountView) -> i64 {
        v.sequence
    }

    open spec fn type_of(v: BankAccountView) -> Seq<char> {
        "Account"@
    }

    open spec fn id_of(v: BankAccountView) -> Seq<char> {
        v.account_id
    }

    open spec fn with_sequence(v: BankAccountView, version: i64) -> BankAccountView {
        BankAccountView { sequence: version, ..v }
    }

    proof fn sequence_replaced(v: BankAccountView, version: i64) {
    }

    fn aggregate_type(&self) -> (name: String) {
        "Account".to_string()
    }

    fn aggregate_id(&self) -> (id: String) {
        self.account_id.clone()
    }

    fn sequence(&self) -> (version: i64) {
        self.sequence
    }

    fn set_sequence(&mut self, version: i64) {
        self.sequence = version
    }
}

impl TAggregate for BankAccount {
    open spec fn initial() -> BankAccountView {
        BankAccountView {
            account_id: Seq::empty(),
            opened: false,
            balance: 0,
            sequence: 0,
            events: Seq::empty(),
        }
    }

    proof fn initial_is_blank() {
    }

    proof fn raised_keeps_identity(v: Self::V, event: <Self::Event as View>::V) {
    }

    proof fn default_is_initial(fresh: Self) {
    }
}

} // verus!
