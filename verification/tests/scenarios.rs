use event_sourcing::account::Account;
use event_sourcing::account::AccountEvent;
use event_sourcing::account::CreateAccount;
use event_sourcing::account::SignInAccount;
use event_sourcing::aggregate::TAggregateES;
use event_sourcing::aggregate::TAggregateMetadata;
use event_sourcing::domain::commands::BankAccountCommand;
use event_sourcing::domain::events::BankAccountEvent;
use event_sourcing::domain::BankAccount;
use event_sourcing::error::EventStoreError;
use event_sourcing::event::EventEnvolope;
use event_sourcing::event_store::TEventStore;
use event_sourcing::repository::InMemoryDB;
use event_sourcing::repository::SqlRepository;
use event_sourcing::services::BankAccountServices;

fn execute(repo: &mut SqlRepository<BankAccount>, id: &str, command: BankAccountCommand) {
    let mut account: BankAccount = repo.load_aggregate(id).unwrap();
    assert!(account.can_handle(&command));
    let raised = account.handle(command, &BankAccountServices).unwrap();
    for event in raised {
        account.apply(event.clone());
        account.raise_event(event);
    }
    repo.commit(&account).unwrap();
}

fn sign_in(account: &mut Account, email: &str) {
    account
        .sign_in(SignInAccount {
            email: email.to_string(),
            password: "secret".to_string(),
        })
        .unwrap();
}

fn history_of_accounts() -> Vec<AccountEvent> {
    vec![
        AccountEvent::AccountCreated {
            id: 3,
            name: "first".to_string(),
            hashed_password: "h1".to_string(),
        },
        AccountEvent::SignedIn {
            email: "first".to_string(),
            password: "p".to_string(),
        },
        AccountEvent::AccountCreated {
            id: 4,
            name: "second".to_string(),
            hashed_password: "h2".to_string(),
        },
    ]
}

#[test]
fn test_event_store() {
    let mut repo = SqlRepository::<BankAccount>::new();

    let aggregate_id = "aggregate-instance-A";
    let mut account = BankAccount::default();
    let opened = BankAccountEvent::AccountOpened {
        account_id: aggregate_id.to_string(),
    };
    account.apply(opened.clone());
    account.raise_event(opened);
    repo.commit(&account).unwrap();

    // deposit 1000
    execute(
        &mut repo,
        aggregate_id,
        BankAccountCommand::DepositMoney { amount: 1000 },
    );

    // write a check for 236
    execute(
        &mut repo,
        aggregate_id,
        BankAccountCommand::WriteCheck {
            check_number: "1337".to_string(),
            amount: 236,
        },
    );

    let loaded: BankAccount = repo.load_aggregate(aggregate_id).unwrap();
    assert!(loaded.opened());
    assert_eq!(loaded.balance(), 1000);
    assert_eq!(loaded.sequence(), 2);
}

#[test]
fn replay_twice_gives_the_same_state() {
    let first = SqlRepository::<Account>::replay(history_of_accounts());
    let second = SqlRepository::<Account>::replay(history_of_accounts());
    assert_eq!(first.id, 4);
    assert_eq!(first.name, "second");
    assert_eq!(first.hashed_password, "h2");
    assert_eq!(first.sequence(), 3);
    assert!(first.events().is_empty());
    assert_eq!(first.id, second.id);
    assert_eq!(first.name, second.name);
    assert_eq!(first.hashed_password, second.hashed_password);
    assert_eq!(first.sequence(), second.sequence());
    assert_eq!(first.events(), second.events());
}

#[test]
fn replay_of_nothing_is_the_default_state() {
    let empty = SqlRepository::<BankAccount>::replay(vec![]);
    assert_eq!(empty.balance(), 0);
    assert!(!empty.opened());
    assert_eq!(empty.sequence(), 0);
    assert_eq!(empty.aggregate_id(), "");
}

#[test]
fn sequence_numbers_are_contiguous_after_commits() {
    let mut repo = SqlRepository::<Account>::new();
    let mut account = Account::create_account(CreateAccount {
        email: "a@b.c".to_string(),
        password: "pw".to_string(),
    });
    sign_in(&mut account, "one");
    repo.commit(&account).unwrap();

    let mut loaded: Account = repo.load_aggregate("0").unwrap();
    sign_in(&mut loaded, "two");
    sign_in(&mut loaded, "three");
    sign_in(&mut loaded, "four");
    repo.commit(&loaded).unwrap();

    let mut again: Account = repo.load_aggregate("0").unwrap();
    sign_in(&mut again, "five");
    repo.commit(&again).unwrap();

    let stored = repo.load_events("0").unwrap();
    assert_eq!(
        stored.iter().map(|e| e.sequence).collect::<Vec<i64>>(),
        vec![1, 2, 3, 4, 5, 6]
    );
}

#[test]
fn empty_commit_is_a_no_op() {
    let mut repo = SqlRepository::<Account>::new();
    let nothing = Account::default();
    assert_eq!(repo.commit(&nothing), Ok(()));
    assert!(repo.load_events("0").unwrap().is_empty());

    repo.commit(&Account::create_account(CreateAccount {
        email: "a@b.c".to_string(),
        password: "pw".to_string(),
    }))
    .unwrap();
    // Nothing pending: no error, whatever the sequence says.
    let mut stale = Account::default();
    stale.set_sequence(40);
    assert_eq!(repo.commit(&stale), Ok(()));
    let loaded: Account = repo.load_aggregate("0").unwrap();
    assert_eq!(repo.commit(&loaded), Ok(()));
    assert_eq!(repo.load_events("0").unwrap().len(), 1);
}

#[test]
fn load_after_commits_equals_the_direct_fold() {
    let mut repo = SqlRepository::<BankAccount>::new();
    let history = vec![
        BankAccountEvent::AccountOpened {
            account_id: "acc".to_string(),
        },
        BankAccountEvent::CustomerDepositedMoney {
            amount: 70,
            balance: 70,
        },
        BankAccountEvent::CustomerWroteCheck {
            check_number: "n\"1\\".to_string(),
            amount: 20,
            balance: 50,
        },
        BankAccountEvent::CustomerWithdrewCash {
            amount: 60,
            balance: -10,
        },
    ];

    let mut first = BankAccount::default();
    first.apply(history[0].clone());
    first.raise_event(history[0].clone());
    first.raise_event(history[1].clone());
    repo.commit(&first).unwrap();

    let mut second: BankAccount = repo.load_aggregate("acc").unwrap();
    second.raise_event(history[2].clone());
    second.raise_event(history[3].clone());
    repo.commit(&second).unwrap();

    let loaded: BankAccount = repo.load_aggregate("acc").unwrap();
    let folded = SqlRepository::<BankAccount>::replay(history);
    assert_eq!(loaded.balance(), -10);
    assert_eq!(loaded.balance(), folded.balance());
    assert_eq!(loaded.opened(), folded.opened());
    assert_eq!(loaded.aggregate_id(), folded.aggregate_id());
    assert_eq!(loaded.sequence(), 4);
    assert_eq!(loaded.sequence(), folded.sequence());
    assert_eq!(loaded.events(), folded.events());
}

#[test]
fn a_stale_commit_is_rejected() {
    let mut repo = SqlRepository::<Account>::new();
    repo.commit(&Account::create_account(CreateAccount {
        email: "a@b.c".to_string(),
        password: "pw".to_string(),
    }))
    .unwrap();

    let mut session_a: Account = repo.load_aggregate("0").unwrap();
    let mut session_b: Account = repo.load_aggregate("0").unwrap();
    assert_eq!(session_a.sequence(), 1);
    assert_eq!(session_b.sequence(), 1);
    sign_in(&mut session_a, "a1");
    sign_in(&mut session_a, "a2");
    sign_in(&mut session_b, "b1");

    assert_eq!(repo.commit(&session_a), Ok(()));
    assert_eq!(
        repo.commit(&session_b),
        Err(EventStoreError::ConcurrencyError)
    );
    let stored = repo.load_events("0").unwrap();
    assert_eq!(
        stored.iter().map(|e| e.sequence).collect::<Vec<i64>>(),
        vec![1, 2, 3]
    );

    // The loser reloads and tries again.
    let mut retry: Account = repo.load_aggregate("0").unwrap();
    assert_eq!(retry.sequence(), 3);
    sign_in(&mut retry, "b1");
    assert_eq!(repo.commit(&retry), Ok(()));
    assert_eq!(repo.load_events("0").unwrap().len(), 4);
}

#[test]
fn committing_the_same_instance_twice_is_rejected() {
    let mut repo = SqlRepository::<Account>::new();
    let account = Account::create_account(CreateAccount {
        email: "a@b.c".to_string(),
        password: "pw".to_string(),
    });
    assert_eq!(repo.commit(&account), Ok(()));
    assert_eq!(
        repo.commit(&account),
        Err(EventStoreError::ConcurrencyError)
    );
    assert_eq!(repo.load_events("0").unwrap().len(), 1);
}

#[test]
fn a_commit_ahead_of_the_history_is_rejected() {
    let mut repo = SqlRepository::<Account>::new();
    let mut account = Account::create_account(CreateAccount {
        email: "a@b.c".to_string(),
        password: "pw".to_string(),
    });
    account.set_sequence(i64::MAX);
    assert_eq!(
        repo.commit(&account),
        Err(EventStoreError::ConcurrencyError)
    );
    account.set_sequence(-1);
    assert_eq!(
        repo.commit(&account),
        Err(EventStoreError::ConcurrencyError)
    );
    assert!(repo.load_events("0").unwrap().is_empty());
}

#[test]
fn deposit_then_withdraw() {
    let mut repo = SqlRepository::<BankAccount>::new();

    let mut account = BankAccount::default();
    let deposited = BankAccountEvent::CustomerDepositedMoney {
        amount: 200,
        balance: 200,
    };
    account.apply(deposited.clone());
    account.raise_event(deposited);
    repo.commit(&account).unwrap();
    let id = account.aggregate_id();

    let mut loaded: BankAccount = repo.load_aggregate(&id).unwrap();
    assert_eq!(loaded.sequence(), 1);
    assert_eq!(loaded.balance(), 200);

    let raised = loaded
        .handle(
            BankAccountCommand::WithdrawMoney { amount: 100 },
            &BankAccountServices,
        )
        .unwrap();
    assert_eq!(
        raised,
        vec![BankAccountEvent::CustomerWithdrewCash {
            amount: 100,
            balance: 100
        }]
    );
    for event in raised {
        loaded.apply(event.clone());
        loaded.raise_event(event);
    }
    repo.commit(&loaded).unwrap();

    let reloaded: BankAccount = repo.load_aggregate(&id).unwrap();
    assert_eq!(reloaded.balance(), 100);
    assert_eq!(reloaded.sequence(), 2);
}

#[test]
fn a_corrupt_payload_fails_one_aggregate_only() {
    let mut db = InMemoryDB::new();
    let good = "{\"CustomerDepositedMoney\":{\"amount\":5,\"balance\":5}}";
    let corrupt = "{\"CustomerDepositedMoney\":{\"amount\":5,\"balance\":";
    for (id, sequence, payload) in [("x", 1, good), ("y", 1, good), ("x", 2, corrupt)] {
        db.append(vec![EventEnvolope {
            aggregate_type: "Account".to_string(),
            aggregate_id: id.to_string(),
            sequence,
            event_type: "CustomerDepositedMoney".to_string(),
            event_version: "1.0".to_string(),
            payload: payload.to_string(),
        }])
        .unwrap();
    }
    let repo = SqlRepository::<BankAccount>::from_executor(db);

    let x: Result<BankAccount, EventStoreError> = repo.load_aggregate("x");
    assert_eq!(x.err(), Some(EventStoreError::DecodeError));
    let y: BankAccount = repo.load_aggregate("y").unwrap();
    assert_eq!(y.balance(), 5);
    assert_eq!(y.sequence(), 1);
    assert_eq!(repo.load_events("x").unwrap().len(), 2);
}
