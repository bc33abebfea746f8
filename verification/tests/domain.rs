use event_sourcing::aggregate::TAggregateES;
use event_sourcing::domain::commands::BankAccountCommand;
use event_sourcing::domain::error::BankAccountError;
use event_sourcing::domain::events::BankAccountEvent;
use event_sourcing::domain::BankAccount;
use event_sourcing::services::BankAccountServices;

fn account_given(previous: Vec<BankAccountEvent>) -> BankAccount {
    let mut account = BankAccount::default();
    for event in previous {
        account.apply(event);
    }
    account
}

fn when(
    account: &BankAccount,
    command: BankAccountCommand,
) -> Result<Vec<BankAccountEvent>, BankAccountError> {
    assert!(account.can_handle(&command));
    account.handle(command, &BankAccountServices)
}

#[test]
fn test_deposit_money() {
    let expected = BankAccountEvent::CustomerDepositedMoney {
        amount: 200,
        balance: 200,
    };

    let account = account_given(vec![]);
    let raised = when(&account, BankAccountCommand::DepositMoney { amount: 200 });
    assert_eq!(raised, Ok(vec![expected]));
}

#[test]
fn test_deposit_money_with_balance() {
    let previous = BankAccountEvent::CustomerDepositedMoney {
        amount: 200,
        balance: 200,
    };
    let expected = BankAccountEvent::CustomerDepositedMoney {
        amount: 200,
        balance: 400,
    };

    let account = account_given(vec![previous]);
    let raised = when(&account, BankAccountCommand::DepositMoney { amount: 200 });
    assert_eq!(raised, Ok(vec![expected]));
}

#[test]
fn test_withdraw_money() {
    let previous = BankAccountEvent::CustomerDepositedMoney {
        amount: 200,
        balance: 200,
    };
    let expected = BankAccountEvent::CustomerWithdrewCash {
        amount: 100,
        balance: 100,
    };

    let account = account_given(vec![previous]);
    let raised = when(&account, BankAccountCommand::WithdrawMoney { amount: 100 });
    assert_eq!(raised, Ok(vec![expected]));
}

#[test]
fn test_withdraw_money_funds_not_available() {
    let account = account_given(vec![]);
    let raised = when(&account, BankAccountCommand::WithdrawMoney { amount: 200 });
    assert_eq!(
        raised,
        Err(BankAccountError("funds not available".to_string()))
    );
}

#[test]
fn withdrawing_the_whole_balance_is_allowed() {
    let account = account_given(vec![BankAccountEvent::CustomerDepositedMoney {
        amount: 200,
        balance: 200,
    }]);
    let raised = when(&account, BankAccountCommand::WithdrawMoney { amount: 200 });
    assert_eq!(
        raised,
        Ok(vec![BankAccountEvent::CustomerWithdrewCash {
            amount: 200,
            balance: 0
        }])
    );
}

#[test]
fn other_commands_raise_nothing() {
    let account = account_given(vec![]);
    let opened = when(
        &account,
        BankAccountCommand::OpenAccount {
            account_id: "a-1".to_string(),
        },
    );
    assert_eq!(opened, Ok(vec![]));
    let check = when(
        &account,
        BankAccountCommand::WriteCheck {
            check_number: "1337".to_string(),
            amount: 236,
        },
    );
    assert_eq!(check, Ok(vec![]));
}

#[test]
fn handling_a_command_leaves_the_account_alone() {
    let account = account_given(vec![BankAccountEvent::CustomerDepositedMoney {
        amount: 50,
        balance: 50,
    }]);
    let _ = when(&account, BankAccountCommand::DepositMoney { amount: 7 });
    assert_eq!(account.balance(), 50);
    assert!(account.events().is_empty());
}

#[test]
fn a_balance_out_of_range_cannot_be_handled() {
    let account = account_given(vec![BankAccountEvent::CustomerDepositedMoney {
        amount: i64::MAX,
        balance: i64::MAX,
    }]);
    assert!(!account.can_handle(&BankAccountCommand::DepositMoney { amount: 1 }));
    assert!(account.can_handle(&BankAccountCommand::DepositMoney { amount: 0 }));
    assert!(!account.can_handle(&BankAccountCommand::WithdrawMoney { amount: -1 }));
    let debtor = account_given(vec![BankAccountEvent::CustomerWroteCheck {
        check_number: "1".to_string(),
        amount: 2,
        balance: -2,
    }]);
    assert!(!debtor.can_handle(&BankAccountCommand::WithdrawMoney { amount: i64::MAX }));
    assert!(debtor.can_handle(&BankAccountCommand::WriteCheck {
        check_number: "2".to_string(),
        amount: i64::MAX
    }));
}

#[test]
fn apply_folds_each_kind_of_event() {
    let mut account = BankAccount::default();
    assert!(!account.opened());
    assert_eq!(account.balance(), 0);
    account.apply(BankAccountEvent::AccountOpened {
        account_id: "a-1".to_string(),
    });
    assert!(account.opened());
    account.apply(BankAccountEvent::CustomerDepositedMoney {
        amount: 10,
        balance: 10,
    });
    assert_eq!(account.balance(), 10);
    account.apply(BankAccountEvent::CustomerWithdrewCash {
        amount: 4,
        balance: 6,
    });
    assert_eq!(account.balance(), 6);
    account.apply(BankAccountEvent::CustomerWroteCheck {
        check_number: "9".to_string(),
        amount: 5,
        balance: 1,
    });
    assert_eq!(account.balance(), 1);
    assert!(account.events().is_empty());
}

#[test]
fn bank_account_error_carries_its_message() {
    let error = BankAccountError::from("funds not available");
    assert_eq!(error, BankAccountError("funds not available".to_string()));
    assert_eq!(error.to_string(), "funds not available");
    assert_eq!(BankAccount::aggregate_type(), "Account");
}
