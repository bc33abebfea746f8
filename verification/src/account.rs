//! A user account: an aggregate with two kinds of events.

use vstd::prelude::*;
use vstd::string::StringExecFns;
use crate::aggregate::TAggregate;
use crate::aggregate::TAggregateES;
use crate::aggregate::TAggregateMetadata;
use crate::event::TEvent;
use crate::payload;

verus! {

/// The request to open an account.
#[derive(Clone)]
pub struct CreateAccount {
    pub email: String,
    pub password: String,
}

/// The request to sign in to an account.
#[derive(Clone)]
pub struct SignInAccount {
    pub email: String,
    pub password: String,
}

/// Why a request on an account was turned down.
#[derive(Debug)]
pub struct Error;

/// What has happened to an account.
#[derive(Debug, PartialEq, Clone)]
pub enum AccountEvent {
    AccountCreated { id: i64, name: String, hashed_password: String },
    SignedIn { email: String, password: String },
}

/// The mathematical content of an [`AccountEvent`].
pub enum AccountEventView {
    AccountCreated { id: i64, name: Seq<char>, hashed_password: Seq<char> },
    SignedIn { email: Seq<char>, password: Seq<char> },
}

impl View for AccountEvent {
    type V = AccountEventView;

    open spec fn view(&self) -> AccountEventView {
        match *self {
            AccountEvent::AccountCreated { id, name, hashed_password } => {
                AccountEventView::AccountCreated {
                    id,
                    name: name@,
                    hashed_password: hashed_password@,
                }
            },
            AccountEvent::SignedIn { email, password } => AccountEventView::SignedIn {
                email: email@,
                password: password@,
            },
        }
    }
}

/// The payload of an `AccountCreated` event.
pub open spec fn created_text(id: i64, name: Seq<char>, hashed_password: Seq<char>) -> Seq<char> {
    "{\"AccountCreated\":{\"hashed_password\":"@ + payload::quoted(hashed_password) + ",\"id\":"@
        + payload::int_text(id as int) + ",\"name\":"@ + payload::quoted(name) + "}}"@
}

/// The payload of a `SignedIn` event.
pub open spec fn signed_in_text(email: Seq<char>, password: Seq<char>) -> Seq<char> {
    "{\"SignedIn\":{\"email\":"@ + payload::quoted(email) + ",\"password\":"@ + payload::quoted(
        password,
    ) + "}}"@
}

/// The `AccountCreated` event that a text is the payload of.
pub open spec fn created_of(text: Seq<char>) -> Option<AccountEventView> {
    match payload::literal_at(text, 0, "{\"AccountCreated\":{\"hashed_password\":"@) {
        None => None,
        Some(cut1) => match payload::quoted_at(text, cut1) {
            None => None,
            Some((hashed_password, cut2)) => match payload::literal_at(text, cut2, ",\"id\":"@) {
                None => None,
                Some(cut3) => match payload::int_at(text, cut3) {
                    None => None,
                    Some((id, cut4)) => match payload::literal_at(text, cut4, ",\"name\":"@) {
                        None => None,
                        Some(cut5) => match payload::quoted_at(text, cut5) {
                            None => None,
                            Some((name, cut6)) => match payload::literal_at(text, cut6, "}}"@) {
                                None => None,
                                Some(cut7) => if cut7 == text.len() {
                                    Some(
                                        AccountEventView::AccountCreated {
                                            id,
                                            name,
                                            hashed_password,
                                        },
                                    )
                                } else {
                                    None
                                },
                            },
                        },
                    },
                },
            },
        },
    }
}

/// The `SignedIn` event that a text is the payload of.
pub open spec fn signed_in_of(text: Seq<char>) -> Option<AccountEventView> {
    match payload::literal_at(text, 0, "{\"SignedIn\":{\"email\":"@) {
        None => None,
        Some(cut1) => match payload::quoted_at(text, cut1) {
            None => None,
            Some((email, cut2)) => match payload::literal_at(text, cut2, ",\"password\":"@) {
                None => None,
                Some(cut3) => match payload::quoted_at(text, cut3) {
                    None => None,
                    Some((password, cut4)) => match payload::literal_at(text, cut4, "}}"@) {
                        None => None,
                        Some(cut5) => if cut5 == text.len() {
                            Some(AccountEventView::SignedIn { email, password })
                        } else {
                            None
                        },
                    },
                },
            },
        },
    }
}

/// The literal that follows the id starts with a comma.
proof fn name_opening_starts_with_comma()
    ensures
        ",\"name\":"@.len() > 0,
        ",\"name\":"@[0] == ',',
{
    reveal_strlit(",\"name\":");
}

/// The payload of an `AccountCreated` event is read back as that event.
pub proof fn created_is_read(id: i64, name: Seq<char>, hashed_password: Seq<char>)
    ensures
        created_of(created_text(id, name, hashed_password)) == Some(
            AccountEventView::AccountCreated { id, name, hashed_password },
        ),
{
    let l0 = "{\"AccountCreated\":{\"hashed_password\":"@;
    let f1 = payload::quoted(hashed_password);
    let l1 = ",\"id\":"@;
    let f2 = payload::int_text(id as int);
    let l2 = ",\"name\":"@;
    let f3 = payload::quoted(name);
    let l3 = "}}"@;
    let text = created_text(id, name, hashed_password);
    let e = Seq::<char>::empty();
    payload::seven_pieces(l0, f1, l1, f2, l2, f3, l3);
    assert(text.skip(0) == text);
    let cut1 = l0.len() as int;
    payload::literal_is_read(text, 0, l0, f1 + (l1 + (f2 + (l2 + (f3 + l3)))));
    let cut2 = cut1 + f1.len();
    payload::quoted_piece_is_read(text, cut1, hashed_password, l1 + (f2 + (l2 + (f3 + l3))));
    let cut3 = cut2 + l1.len();
    payload::literal_is_read(text, cut2, l1, f2 + (l2 + (f3 + l3)));
    let cut4 = cut3 + f2.len();
    name_opening_starts_with_comma();
    assert((l2 + (f3 + l3))[0] == l2[0]);
    payload::int_piece_is_read(text, cut3, id, l2 + (f3 + l3));
    let cut5 = cut4 + l2.len();
    payload::literal_is_read(text, cut4, l2, f3 + l3);
    let cut6 = cut5 + f3.len();
    assert(l3 + e == l3);
    payload::quoted_piece_is_read(text, cut5, name, l3);
    payload::literal_is_read(text, cut6, l3, e);
}

/// The payload of a `SignedIn` event is read back as that event, and is the
/// payload of no `AccountCreated` event.
pub proof fn signed_in_is_read(email: Seq<char>, password: Seq<char>)
    ensures
        signed_in_of(signed_in_text(email, password)) == Some(
            AccountEventView::SignedIn { email, password },
        ),
        created_of(signed_in_text(email, password)) is None,
{
    let l0 = "{\"SignedIn\":{\"email\":"@;
    let f1 = payload::quoted(email);
    let l1 = ",\"password\":"@;
    let f2 = payload::quoted(password);
    let l2 = "}}"@;
    let text = signed_in_text(email, password);
    let e = Seq::<char>::empty();
    payload::five_pieces(l0, f1, l1, f2, l2);
    assert(text.skip(0) == text);
    let cut1 = l0.len() as int;
    payload::literal_is_read(text, 0, l0, f1 + (l1 + (f2 + l2)));
    let cut2 = cut1 + f1.len();
    payload::quoted_piece_is_read(text, cut1, email, l1 + (f2 + l2));
    let cut3 = cut2 + l1.len();
    payload::literal_is_read(text, cut2, l1, f2 + l2);
    let cut4 = cut3 + f2.len();
    assert(l2 + e == l2);
    payload::quoted_piece_is_read(text, cut3, password, l2);
    payload::literal_is_read(text, cut4, l2, e);
    assert(created_of(text) is None) by {
        signed_in_opening_differs();
        payload::other_literal_is_not_read(
            text,
            l0,
            f1 + (l1 + (f2 + l2)),
            "{\"AccountCreated\":{\"hashed_password\":"@,
            2,
        );
    }
}

/// The openings that name the two events differ.
proof fn signed_in_opening_differs()
    ensures
        "{\"SignedIn\":{\"email\":"@.len() > 2,
        "{\"AccountCreated\":{\"hashed_password\":"@.len() > 2,
        "{\"SignedIn\":{\"email\":"@[2] == 'S',
        "{\"AccountCreated\":{\"hashed_password\":"@[2] == 'A',
{
    reveal_strlit("{\"AccountCreated\":{\"hashed_password\":");
    reveal_strlit("{\"SignedIn\":{\"email\":");
}

fn read_created(text: &Vec<char>) -> (event: Option<AccountEvent>)
    ensures
        match event {
            Some(e) => created_of(text@) == Some(e@),
            None => created_of(text@) is None,
        },
{
    let cut1 = match payload::read_literal(text, 0, "{\"AccountCreated\":{\"hashed_password\":") {
        Some(next) => next,
        None => {
            return None;
        },
    };
    let (hashed_password, cut2) = match payload::read_quoted(text, cut1) {
        Some(read) => read,
        None => {
            return None;
        },
    };
    let cut3 = match payload::read_literal(text, cut2, ",\"id\":") {
        Some(next) => next,
        None => {
            return None;
        },
    };
    let (id, cut4) = match payload::read_int(text, cut3) {
        Some(read) => read,
        None => {
            return None;
        },
    };
    let cut5 = match payload::read_literal(text, cut4, ",\"name\":") {
        Some(next) => next,
        None => {
            return None;
        },
    };
    let (name, cut6) = match payload::read_quoted(text, cut5) {
        Some(read) => read,
        None => {
            return None;
        },
    };
    let cut7 = match payload::read_literal(text, cut6, "}}") {
        Some(next) => next,
        None => {
            return None;
        },
    };
    if cut7 == text.len() {
        Some(AccountEvent::AccountCreated { id, name, hashed_password })
    } else {
        None
    }
}

fn read_signed_in(text: &Vec<char>) -> (event: Option<AccountEvent>)
    ensures
        match event {
            Some(e) => signed_in_of(text@) == Some(e@),
            None => signed_in_of(text@) is None,
        },
{
    let cut1 = match payload::read_literal(text, 0, "{\"SignedIn\":{\"email\":") {
        Some(next) => next,
        None => {
            return None;
        },
    };
    let (email, cut2) = match payload::read_quoted(text, cut1) {
        Some(read) => read,
        None => {
            return None;
        },
    };
    let cut3 = match payload::read_literal(text, cut2, ",\"password\":") {
        Some(next) => next,
        None => {
            return None;
        },
    };
    let (password, cut4) = match payload::read_quoted(text, cut3) {
        Some(read) => read,
        None => {
            return None;
        },
    };
    let cut5 = match payload::read_literal(text, cut4, "}}") {
        Some(next) => next,
        None => {
            return None;
        },
    };
    if cut5 == text.len() {
        Some(AccountEvent::SignedIn { email, password })
    } else {
        None
    }
}

impl TEvent for AccountEvent {
    open spec fn type_tag(v: AccountEventView) -> Seq<char> {
        match v {
            AccountEventView::AccountCreated { .. } => "AccountCreated"@,
            AccountEventView::SignedIn { .. } => "SignIn"@,
        }
    }

    open spec fn version_tag(v: AccountEventView) -> Seq<char> {
        "0.1"@
    }

    open spec fn owner_tag(v: AccountEventView) -> Seq<char> {
        "Account"@
    }

    open spec fn encoded(v: AccountEventView) -> Seq<char> {
        match v {
            AccountEventView::AccountCreated { id, name, hashed_password } => created_text(
                id,
                name,
                hashed_password,
            ),
            AccountEventView::SignedIn { email, password } => signed_in_text(email, password),
        }
    }

    open spec fn decoded(payload: Seq<char>) -> Option<AccountEventView> {
        match created_of(payload) {
            Some(v) => Some(v),
            None => signed_in_of(payload),
        }
    }

    proof fn lossless(v: AccountEventView) {
        match v {
            AccountEventView::AccountCreated { id, name, hashed_password } => {
                created_is_read(id, name, hashed_password);
            },
            AccountEventView::SignedIn { email, password } => {
                signed_in_is_read(email, password);
            },
        }
    }

    fn event_type(&self) -> (tag: String) {
        let event_type_in_str = match self {
            Self::AccountCreated { .. } => "AccountCreated",
            Self::SignedIn { .. } => "SignIn",
        };
        event_type_in_str.to_string()
    }

    fn event_version(&self) -> (tag: String) {
        "0.1".to_string()
    }

    fn aggregate_type(&self) -> (tag: String) {
        "Account".to_string()
    }

    fn to_payload(&self) -> (payload: String) {
        let mut out = String::new();
        match self {
            Self::AccountCreated { id, name, hashed_password } => {
                out.append("{\"AccountCreated\":{\"hashed_password\":");
                payload::write_quoted(&mut out, hashed_password.as_str());
                out.append(",\"id\":");
                payload::write_int(&mut out, *id);
                out.append(",\"name\":");
                payload::write_quoted(&mut out, name.as_str());
                out.append("}}");
            },
            Self::SignedIn { email, password } => {
                out.append("{\"SignedIn\":{\"email\":");
                payload::write_quoted(&mut out, email.as_str());
                out.append(",\"password\":");
                payload::write_quoted(&mut out, password.as_str());
                out.append("}}");
            },
        }
        out
    }

    fn from_payload(payload: &str) -> (event: Option<Self>) {
        let text = payload::chars_of(payload);
        match read_created(&text) {
            Some(event) => Some(event),
            None => read_signed_in(&text),
        }
    }
}

/// A user account.
#[derive(Debug)]
pub struct Account {
    pub id: i64,
    pub name: String,
    pub hashed_password: String,
    pub version: i64,
    events: Vec<AccountEvent>,
}

/// The mathematical content of an [`Account`].
pub struct AccountView {
    pub id: i64,
    pub name: Seq<char>,
    pub hashed_password: Seq<char>,
    pub version: i64,
    pub events: Seq<AccountEventView>,
}

impl View for Account {
    type V = AccountView;

    closed spec fn view(&self) -> AccountView {
        AccountView {
            id: self.id,
            name: self.name@,
            hashed_password: self.hashed_password@,
            version: self.version,
            events: crate::event::views_of(self.events@),
        }
    }
}

impl Default for Account {
    fn default() -> (account: Self)
        ensures
            account@ == (AccountView {
                id: 0,
                name: Seq::empty(),
                hashed_password: Seq::empty(),
                version: 0,
                events: Seq::empty(),
            }),
    {
        let account = Account {
            id: 0,
            name: String::new(),
            hashed_password: String::new(),
            version: 0,
            events: Vec::new(),
        };
        assert(account@.events =~= Seq::empty());
        account
    }
}

impl Account {
    /// Opens an account: the name is the email, the password is stored
    /// hashed, and the creation is raised as the first pending event.
    pub fn create_account(cmd: CreateAccount) -> (aggregate: Self)
        ensures
            aggregate@ == (AccountView {
                id: 0,
                name: cmd.email@,
                hashed_password: cmd.password@ + "_hashed"@,
                version: 0,
                events: seq![
                    AccountEventView::AccountCreated {
                        id: 0,
                        name: cmd.email@,
                        hashed_password: cmd.password@ + "_hashed"@,
                    },
                ],
            }),
    {
        let mut aggregate = Account {
            name: cmd.email.clone(),
            hashed_password: cmd.password.concat("_hashed"),
            id: 0,
            version: 0,
            events: Vec::new(),
        };
        assert(aggregate@.events =~= Seq::empty());
        let created = AccountEvent::AccountCreated {
            name: cmd.email,
            hashed_password: aggregate.hashed_password.clone(),
            id: aggregate.id,
        };
        aggregate.raise_event(created);
        assert(aggregate@.events =~= seq![created@]);
        aggregate
    }

    /// Checks a password against the account. Every password is accepted.
    pub fn verify_password(&self, plain_text: &str) -> (checked: Result<(), Error>)
        ensures
            checked is Ok,
    {
        Ok(())
    }

    /// Signs in: once the password is verified, the sign-in is raised as a
    /// pending event.
    pub fn sign_in(&mut self, cmd: SignInAccount) -> (signed: Result<(), Error>)
        ensures
            signed is Ok,
            final(self)@ == Self::raised(
                old(self)@,
                AccountEventView::SignedIn { email: cmd.email@, password: cmd.password@ },
            ),
    {
        match self.verify_password(cmd.password.as_str()) {
            Ok(()) => {},
            Err(e) => {
                return Err(e);
            },
        }
        self.raise_event(AccountEvent::SignedIn { email: cmd.email, password: cmd.password });
        Ok(())
    }
}

impl TAggregateES for Account {
    type Event = AccountEvent;

    open spec fn applied(v: AccountView, event: AccountEventView) -> AccountView {
        match event {
            AccountEventView::AccountCreated { id, name, hashed_password } => AccountView {
                id,
                name,
                hashed_password,
                version: 0,
                events: Seq::empty(),
            },
            AccountEventView::SignedIn { .. } => v,
        }
    }

    open spec fn raised(v: AccountView, event: AccountEventView) -> AccountView {
        AccountView { events: v.events.push(event), ..v }
    }

    open spec fn pending(v: AccountView) -> Seq<AccountEventView> {
        v.events
    }

    proof fn raised_is_appended(v: AccountView, event: AccountEventView) {
    }

    fn apply(&mut self, event: Self::Event) {
        match event {
            Self::Event::AccountCreated { id, name, hashed_password } => {
                *self = Account { id, name, hashed_password, version: 0, events: Vec::new() };
                assert(self@.events =~= Seq::empty());
            },
            Self::Event::SignedIn { .. } => {},
        }
    }

    fn raise_event(&mut self, event: Self::Event) {
        self.events.push(event);
        assert(self@.events =~= old(self)@.events.push(event@));
    }

    fn events(&self) -> (buffer: &Vec<Self::Event>) {
        &self.events
    }
}

impl TAggregateMetadata for Account {
    open spec fn sequence_of(v: AccountView) -> i64 {
        v.version
    }

    open spec fn type_of(v: AccountView) -> Seq<char> {
        "Account"@
    }

    open spec fn id_of(v: AccountView) -> Seq<char> {
        payload::int_text(v.id as int)
    }

    open spec fn with_sequence(v: AccountView, version: i64) -> AccountView {
        AccountView { version, ..v }
    }

    proof fn sequence_replaced(v: AccountView, version: i64) {
    }

    fn aggregate_type(&self) -> (name: String) {
        "Account".to_string()
    }

    fn aggregate_id(&self) -> (id: String) {
        let mut id = String::new();
        payload::write_int(&mut id, self.id);
        id
    }

    fn sequence(&self) -> (version: i64) {
        self.version
    }

    fn set_sequence(&mut self, version: i64) {
        self.version = version
    }
}

impl TAggregate for Account {
    open spec fn initial() -> AccountView {
        AccountView {
            id: 0,
            name: Seq::empty(),
            hashed_password: Seq::empty(),
            version: 0,
            events: Seq::empty(),
        }
    }

    proof fn initial_is_blank() {
    }

    proof fn raised_keeps_identity(v: Self::V, event: <Self::Event as View>::V) {
    }

    proof fn default_is_initial(fresh: Self) {
    }
}

} // verus!
