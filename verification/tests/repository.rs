use event_sourcing::account::Account;
use event_sourcing::account::AccountEvent;
use event_sourcing::account::CreateAccount;
use event_sourcing::account::SignInAccount;
use event_sourcing::aggregate::TAggregateES;
use event_sourcing::aggregate::TAggregateMetadata;
use event_sourcing::error::EventStoreError;
use event_sourcing::event::EventEnvolope;
use event_sourcing::event::TEvent;
use event_sourcing::event_store::TEventStore;
use event_sourcing::repository::InMemoryDB;
use event_sourcing::repository::SqlRepository;

fn new_account() -> Account {
    Account::create_account(CreateAccount {
        email: "test_email@mail.com".to_string(),
        password: "test_password".to_string(),
    })
}

fn envelope(id: &str, sequence: i64, payload: &str) -> EventEnvolope {
    EventEnvolope {
        aggregate_type: "Account".to_string(),
        aggregate_id: id.to_string(),
        sequence,
        event_type: "SignIn".to_string(),
        event_version: "0.1".to_string(),
        payload: payload.to_string(),
    }
}

#[test]
fn test_commit() {
    let mut repo = SqlRepository::new();
    let aggregate = Account::create_account(CreateAccount {
        email: "test_email@mail.com".to_string(),
        password: "test_password".to_string(),
    });

    repo.commit(&aggregate).unwrap();
}

#[test]
fn test_load_aggregate() {
    // given
    let mut repo = SqlRepository::new();
    let aggregate = Account::create_account(CreateAccount {
        email: "test_email@mail.com".to_string(),
        password: "test_password".to_string(),
    });
    repo.commit(&aggregate).unwrap();

    // when
    let account_aggregate: Account = repo
        .load_aggregate(aggregate.id.to_string().as_str())
        .expect("Shouldn't fail!");

    //then
    assert_eq!(account_aggregate.sequence(), 1);
    assert_eq!(account_aggregate.name, "test_email@mail.com".to_string());
    assert_ne!(
        account_aggregate.hashed_password,
        "test_password".to_string()
    );
}

#[test]
fn test_command_on_existing_aggregate() {
    // given
    let mut repo = SqlRepository::new();
    let aggregate = Account::create_account(CreateAccount {
        email: "test_email@mail.com".to_string(),
        password: "test_password".to_string(),
    });

    repo.commit(&aggregate).unwrap();

    let mut account_aggregate: Account = repo
        .load_aggregate(aggregate.id.to_string().as_str())
        .expect("Shouldn't fail!");

    // when
    account_aggregate
        .sign_in(SignInAccount {
            email: "test_email@mail.com".to_string(),
            password: "test_password".to_string(),
        })
        .unwrap();

    repo.commit(&account_aggregate).unwrap();

    // then
    let updated_account_aggregate: Account = repo
        .load_aggregate(aggregate.id.to_string().as_str())
        .expect("Shouldn't fail!");

    assert_eq!(updated_account_aggregate.sequence(), 2);
}

#[test]
fn create_account_hashes_and_raises() {
    let aggregate = new_account();
    assert_eq!(aggregate.id, 0);
    assert_eq!(aggregate.name, "test_email@mail.com");
    assert_eq!(aggregate.hashed_password, "test_password_hashed");
    assert_eq!(aggregate.version, 0);
    assert_eq!(
        aggregate.events(),
        &vec![AccountEvent::AccountCreated {
            id: 0,
            name: "test_email@mail.com".to_string(),
            hashed_password: "test_password_hashed".to_string(),
        }]
    );
    assert_eq!(aggregate.aggregate_id(), "0");
    assert_eq!(TAggregateMetadata::aggregate_type(&aggregate), "Account");
}

#[test]
fn sign_in_raises_without_touching_the_state() {
    let mut aggregate = new_account();
    assert!(aggregate.verify_password("anything").is_ok());
    aggregate
        .sign_in(SignInAccount {
            email: "e".to_string(),
            password: "p".to_string(),
        })
        .unwrap();
    assert_eq!(aggregate.events().len(), 2);
    assert_eq!(
        aggregate.events()[1],
        AccountEvent::SignedIn {
            email: "e".to_string(),
            password: "p".to_string(),
        }
    );
    assert_eq!(aggregate.name, "test_email@mail.com");
    assert_eq!(aggregate.sequence(), 0);
}

#[test]
fn applying_a_creation_replaces_the_account() {
    let mut aggregate = new_account();
    aggregate.set_sequence(7);
    aggregate.apply(AccountEvent::AccountCreated {
        id: 12,
        name: "n".to_string(),
        hashed_password: "h".to_string(),
    });
    assert_eq!(aggregate.id, 12);
    assert_eq!(aggregate.name, "n");
    assert_eq!(aggregate.hashed_password, "h");
    assert_eq!(aggregate.sequence(), 0);
    assert!(aggregate.events().is_empty());
    aggregate.apply(AccountEvent::SignedIn {
        email: "e".to_string(),
        password: "p".to_string(),
    });
    assert_eq!(aggregate.id, 12);
    assert_eq!(aggregate.name, "n");
}

#[test]
fn event_tags() {
    let created = AccountEvent::AccountCreated {
        id: 1,
        name: "n".to_string(),
        hashed_password: "h".to_string(),
    };
    let signed = AccountEvent::SignedIn {
        email: "e".to_string(),
        password: "p".to_string(),
    };
    assert_eq!(created.event_type(), "AccountCreated");
    assert_eq!(signed.event_type(), "SignIn");
    assert_eq!(created.event_version(), "0.1");
    assert_eq!(TEvent::aggregate_type(&signed), "Account");
}

#[test]
fn extract_events_frames_each_pending_event() {
    let mut aggregate = new_account();
    aggregate.set_sequence(4);
    aggregate
        .sign_in(SignInAccount {
            email: "e".to_string(),
            password: "p".to_string(),
        })
        .unwrap();
    let batch = SqlRepository::<Account>::extract_events(&aggregate);
    assert_eq!(batch.len(), 2);
    assert_eq!(batch[0].aggregate_type, "Account");
    assert_eq!(batch[0].aggregate_id, "0");
    assert_eq!(batch[0].sequence, 5);
    assert_eq!(batch[0].event_type, "AccountCreated");
    assert_eq!(batch[0].event_version, "0.1");
    assert_eq!(
        batch[0].payload,
        "{\"AccountCreated\":{\"hashed_password\":\"test_password_hashed\",\"id\":0,\"name\":\"test_email@mail.com\"}}"
    );
    assert_eq!(batch[1].aggregate_type, "Account");
    assert_eq!(batch[1].aggregate_id, "0");
    assert_eq!(batch[1].sequence, 6);
    assert_eq!(batch[1].event_type, "SignIn");
    assert_eq!(batch[1].event_version, "0.1");
    assert_eq!(
        batch[1].payload,
        "{\"SignedIn\":{\"email\":\"e\",\"password\":\"p\"}}"
    );
}

#[test]
fn load_events_of_an_unknown_aggregate_is_empty() {
    let mut repo = SqlRepository::<Account>::new();
    assert_eq!(repo.load_events("0").unwrap().len(), 0);
    repo.commit(&new_account()).unwrap();
    assert_eq!(repo.load_events("1").unwrap().len(), 0);
    let fresh: Account = repo.load_aggregate("1").unwrap();
    assert_eq!(fresh.sequence(), 0);
    assert_eq!(fresh.name, "");
}

#[test]
fn load_events_returns_only_the_asked_aggregate_in_order() {
    let mut db = InMemoryDB::new();
    let signed = "{\"SignedIn\":{\"email\":\"e\",\"password\":\"p\"}}";
    db.append(vec![envelope("a", 1, signed)]).unwrap();
    db.append(vec![envelope("b", 1, signed), envelope("b", 2, signed)])
        .unwrap();
    db.append(vec![envelope("a", 2, signed), envelope("a", 3, signed)])
        .unwrap();
    let repo = SqlRepository::<Account>::from_executor(db);
    let of_a = repo.load_events("a").unwrap();
    assert_eq!(
        of_a.iter().map(|e| e.sequence).collect::<Vec<i64>>(),
        vec![1, 2, 3]
    );
    assert!(of_a.iter().all(|e| e.aggregate_id == "a"));
    let of_b = repo.load_events("b").unwrap();
    assert_eq!(
        of_b.iter().map(|e| e.sequence).collect::<Vec<i64>>(),
        vec![1, 2]
    );
    let loaded: Account = repo.load_aggregate("a").unwrap();
    assert_eq!(loaded.sequence(), 3);
}

#[test]
fn append_refuses_what_does_not_continue_the_history() {
    let mut db = InMemoryDB::default();
    let signed = "{\"SignedIn\":{\"email\":\"e\",\"password\":\"p\"}}";
    assert_eq!(db.append(vec![]), Ok(()));
    assert_eq!(
        db.append(vec![envelope("a", 2, signed)]),
        Err(EventStoreError::ConcurrencyError)
    );
    assert_eq!(
        db.append(vec![envelope("a", 0, signed)]),
        Err(EventStoreError::ConcurrencyError)
    );
    assert_eq!(db.append(vec![envelope("a", 1, signed)]), Ok(()));
    assert_eq!(
        db.append(vec![envelope("a", 1, signed)]),
        Err(EventStoreError::ConcurrencyError)
    );
    assert_eq!(
        db.append(vec![envelope("a", 2, signed), envelope("a", 4, signed)]),
        Err(EventStoreError::ConcurrencyError)
    );
    assert_eq!(
        db.append(vec![envelope("a", 2, signed), envelope("b", 3, signed)]),
        Err(EventStoreError::ConcurrencyError)
    );
    assert_eq!(
        db.append(vec![envelope("a", i64::MIN, signed)]),
        Err(EventStoreError::ConcurrencyError)
    );
    assert_eq!(db.head("a"), 1);
    assert_eq!(db.head("b"), 0);
    assert_eq!(db.load("a").len(), 1);
    assert_eq!(
        db.append(vec![envelope("a", 2, signed), envelope("a", 3, signed)]),
        Ok(())
    );
    assert_eq!(db.head("a"), 3);
}

#[test]
fn error_messages() {
    assert_eq!(EventStoreError::StorageError.message(), "storage error");
    assert_eq!(EventStoreError::DecodeError.message(), "decode error");
    assert_eq!(
        EventStoreError::ConcurrencyError.message(),
        "concurrency error"
    );
}
