//! What can happen to a bank account.

use vstd::prelude::*;
use vstd::string::StringExecFns;
use crate::event::TEvent;
use crate::payload;

verus! {

/// A fact about a bank account. Amounts are whole units of the currency;
/// `balance` is the balance after the event.
#[derive(Debug, PartialEq, Clone)]
pub enum BankAccountEvent {
    AccountOpened { account_id: String },
    CustomerDepositedMoney { amount: i64, balance: i64 },
    CustomerWithdrewCash { amount: i64, balance: i64 },
    CustomerWroteCheck { check_number: String, amount: i64, balance: i64 },
}

/// The mathematical content of a [`BankAccountEvent`].
pub enum BankAccountEventView {
    AccountOpened { account_id: Seq<char> },
    CustomerDepositedMoney { amount: i64, balance: i64 },
    CustomerWithdrewCash { amount: i64, balance: i64 },
    CustomerWroteCheck { check_number: Seq<char>, amount: i64, balance: i64 },
}

impl View for BankAccountEvent {
    type V = BankAccountEventView;

    open spec fn view(&self) -> BankAccountEventView {
        match *self {
            BankAccountEvent::AccountOpened { account_id } => BankAccountEventView::AccountOpened {
                account_id: account_id@,
            },
            BankAccountEvent::CustomerDepositedMoney {
                amount,
                balance,
            } => BankAccountEventView::CustomerDepositedMoney { amount, balance },
            BankAccountEvent::CustomerWithdrewCash {
                amount,
                balance,
            } => BankAccountEventView::CustomerWithdrewCash { amount, balance },
            BankAccountEvent::CustomerWroteCheck {
                check_number,
                amount,
                balance,
            } => BankAccountEventView::CustomerWroteCheck {
                check_number: check_number@,
                amount,
                balance,
            },
        }
    }
}

/// The payload of an `AccountOpened` event.
pub open spec fn opened_text(account_id: Seq<char>) -> Seq<char> {
    "{\"AccountOpened\":{\"account_id\":"@ + payload::quoted(account_id) + "}}"@
}

/// The payload of an event that carries an amount and a balance, behind the
/// opening that names the event.
pub open spec fn amounts_text(opening: Seq<char>, amount: i64, balance: i64) -> Seq<char> {
    opening + payload::int_text(amount as int) + ",\"balance\":"@ + payload::int_text(
        balance as int,
    ) + "}}"@
}

/// The payload of a `CustomerWroteCheck` event.
pub open spec fn wrote_check_text(check_number: Seq<char>, amount: i64, balance: i64) -> Seq<
    char,
> {
    "{\"CustomerWroteCheck\":{\"amount\":"@ + payload::int_text(amount as int)
        + ",\"balance\":"@ + payload::int_text(balance as int) + ",\"check_number\":"@
        + payload::quoted(check_number) + "}}"@
}

/// The account id of the `AccountOpened` event that a text is the payload of.
pub open spec fn opened_of(text: Seq<char>) -> Option<Seq<char>> {
    match payload::literal_at(text, 0, "{\"AccountOpened\":{\"account_id\":"@) {
        None => None,
        Some(cut1) => match payload::quoted_at(text, cut1) {
            None => None,
            Some((account_id, cut2)) => match payload::literal_at(text, cut2, "}}"@) {
                None => None,
                Some(cut3) => if cut3 == text.len() {
                    Some(account_id)
                } else {
                    None
                },
            },
        },
    }
}

/// The amount and the balance of the event that a text is the payload of,
/// behind the opening that names the event.
pub open spec fn amounts_of(text: Seq<char>, opening: Seq<char>) -> Option<(i64, i64)> {
    match payload::literal_at(text, 0, opening) {
        None => None,
        Some(cut1) => match payload::int_at(text, cut1) {
            None => None,
            Some((amount, cut2)) => match payload::literal_at(text, cut2, ",\"balance\":"@) {
                None => None,
                Some(cut3) => match payload::int_at(text, cut3) {
                    None => None,
                    Some((balance, cut4)) => match payload::literal_at(text, cut4, "}}"@) {
                        None => None,
                        Some(cut5) => if cut5 == text.len() {
                            Some((amount, balance))
                        } else {
                            None
                        },
                    },
                },
            },
        },
    }
}

/// The fields of the `CustomerWroteCheck` event that a text is the payload
/// of: check number, amount, balance.
pub open spec fn wrote_check_of(text: Seq<char>) -> Option<(Seq<char>, i64, i64)> {
    match payload::literal_at(text, 0, "{\"CustomerWroteCheck\":{\"amount\":"@) {
        None => None,
        Some(cut1) => match payload::int_at(text, cut1) {
            None => None,
            Some((amount, cut2)) => match payload::literal_at(text, cut2, ",\"balance\":"@) {
                None => None,
                Some(cut3) => match payload::int_at(text, cut3) {
                    None => None,
                    Some((balance, cut4)) => match payload::literal_at(
                        text,
                        cut4,
                        ",\"check_number\":"@,
                    ) {
                        None => None,
                        Some(cut5) => match payload::quoted_at(text, cut5) {
                            None => None,
                            Some((check_number, cut6)) => match payload::literal_at(
                                text,
                                cut6,
                                "}}"@,
                            ) {
                                None => None,
                                Some(cut7) => if cut7 == text.len() {
                                    Some((check_number, amount, balance))
                                } else {
                                    None
                                },
                            },
                        },
                    },
                },
            },
        },
    }
}

/// No literal that follows a number starts with a digit.
proof fn separators_start_with_no_digit()
    ensures
        ",\"balance\":"@.len() > 0,
        ",\"balance\":"@[0] == ',',
        ",\"check_number\":"@.len() > 0,
        ",\"check_number\":"@[0] == ',',
        "}}"@.len() > 0,
        "}}"@[0] == '}',
{
    reveal_strlit(",\"balance\":");
    reveal_strlit(",\"check_number\":");
    reveal_strlit("}}");
}

/// The payload of an `AccountOpened` event is read back.
pub proof fn opened_is_read(account_id: Seq<char>)
    ensures
        opened_of(opened_text(account_id)) == Some(account_id),
{
    let l0 = "{\"AccountOpened\":{\"account_id\":"@;
    let f1 = payload::quoted(account_id);
    let l1 = "}}"@;
    let text = opened_text(account_id);
    let e = Seq::<char>::empty();
    payload::three_pieces(l0, f1, l1);
    assert(text.skip(0) == text);
    let cut1 = l0.len() as int;
    payload::literal_is_read(text, 0, l0, f1 + l1);
    let cut2 = cut1 + f1.len();
    assert(l1 + e == l1);
    payload::quoted_piece_is_read(text, cut1, account_id, l1);
    payload::literal_is_read(text, cut2, l1, e);
}

/// The payload of an event with an amount and a balance is read back.
pub proof fn amounts_are_read(opening: Seq<char>, amount: i64, balance: i64)
    ensures
        amounts_of(amounts_text(opening, amount, balance), opening) == Some((amount, balance)),
{
    let l0 = opening;
    let f1 = payload::int_text(amount as int);
    let l1 = ",\"balance\":"@;
    let f2 = payload::int_text(balance as int);
    let l2 = "}}"@;
    let text = amounts_text(opening, amount, balance);
    let e = Seq::<char>::empty();
    separators_start_with_no_digit();
    payload::five_pieces(l0, f1, l1, f2, l2);
    assert(text.skip(0) == text);
    let cut1 = l0.len() as int;
    payload::literal_is_read(text, 0, l0, f1 + (l1 + (f2 + l2)));
    let cut2 = cut1 + f1.len();
    assert((l1 + (f2 + l2))[0] == l1[0]);
    payload::int_piece_is_read(text, cut1, amount, l1 + (f2 + l2));
    let cut3 = cut2 + l1.len();
    payload::literal_is_read(text, cut2, l1, f2 + l2);
    let cut4 = cut3 + f2.len();
    assert(l2 + e == l2);
    payload::int_piece_is_read(text, cut3, balance, l2);
    payload::literal_is_read(text, cut4, l2, e);
}

/// The payload of a `CustomerWroteCheck` event is read back.
pub proof fn wrote_check_is_read(check_number: Seq<char>, amount: i64, balance: i64)
    ensures
        wrote_check_of(wrote_check_text(check_number, amount, balance)) == Some(
            (check_number, amount, balance),
        ),
{
    let l0 = "{\"CustomerWroteCheck\":{\"amount\":"@;
    let f1 = payload::int_text(amount as int);
    let l1 = ",\"balance\":"@;
    let f2 = payload::int_text(balance as int);
    let l2 = ",\"check_number\":"@;
    let f3 = payload::quoted(check_number);
    let l3 = "}}"@;
    let text = wrote_check_text(check_number, amount, balance);
    let e = Seq::<char>::empty();
    separators_start_with_no_digit();
    payload::seven_pieces(l0, f1, l1, f2, l2, f3, l3);
    assert(text.skip(0) == text);
    let cut1 = l0.len() as int;
    payload::literal_is_read(text, 0, l0, f1 + (l1 + (f2 + (l2 + (f3 + l3)))));
    let cut2 = cut1 + f1.len();
    assert((l1 + (f2 + (l2 + (f3 + l3))))[0] == l1[0]);
    payload::int_piece_is_read(text, cut1, amount, l1 + (f2 + (l2 + (f3 + l3))));
    let cut3 = cut2 + l1.len();
    payload::literal_is_read(text, cut2, l1, f2 + (l2 + (f3 + l3)));
    let cut4 = cut3 + f2.len();
    assert((l2 + (f3 + l3))[0] == l2[0]);
    payload::int_piece_is_read(text, cut3, balance, l2 + (f3 + l3));
    let cut5 = cut4 + l2.len();
    payload::literal_is_read(text, cut4, l2, f3 + l3);
    let cut6 = cut5 + f3.len();
    assert(l3 + e == l3);
    payload::quoted_piece_is_read(text, cut5, check_number, l3);
    payload::literal_is_read(text, cut6, l3, e);
}

/// The openings that name the four events differ from one another.
proof fn openings_differ()
    ensures
        "{\"AccountOpened\":{\"account_id\":"@.len() > 11,
        "{\"CustomerDepositedMoney\":{\"amount\":"@.len() > 11,
        "{\"CustomerWithdrewCash\":{\"amount\":"@.len() > 11,
        "{\"CustomerWroteCheck\":{\"amount\":"@.len() > 11,
        "{\"AccountOpened\":{\"account_id\":"@[2] == 'A',
        "{\"CustomerDepositedMoney\":{\"amount\":"@[2] == 'C',
        "{\"CustomerWithdrewCash\":{\"amount\":"@[2] == 'C',
        "{\"CustomerWroteCheck\":{\"amount\":"@[2] == 'C',
        "{\"CustomerDepositedMoney\":{\"amount\":"@[10] == 'D',
        "{\"CustomerWithdrewCash\":{\"amount\":"@[10] == 'W',
        "{\"CustomerWroteCheck\":{\"amount\":"@[10] == 'W',
        "{\"CustomerWithdrewCash\":{\"amount\":"@[11] == 'i',
        "{\"CustomerWroteCheck\":{\"amount\":"@[11] == 'r',
{
    reveal_strlit("{\"AccountOpened\":{\"account_id\":");
    reveal_strlit("{\"CustomerDepositedMoney\":{\"amount\":");
    reveal_strlit("{\"CustomerWithdrewCash\":{\"amount\":");
    reveal_strlit("{\"CustomerWroteCheck\":{\"amount\":");
}

/// The payload of a deposit is read back as a deposit and as nothing else.
proof fn deposited_is_told_apart(amount: i64, balance: i64)
    ensures
        opened_of(amounts_text("{\"CustomerDepositedMoney\":{\"amount\":"@, amount, balance))
            is None,
        amounts_of(
            amounts_text("{\"CustomerDepositedMoney\":{\"amount\":"@, amount, balance),
            "{\"CustomerDepositedMoney\":{\"amount\":"@,
        ) == Some((amount, balance)),
{
    let deposited = "{\"CustomerDepositedMoney\":{\"amount\":"@;
    let text = amounts_text(deposited, amount, balance);
    let rest = payload::int_text(amount as int) + (",\"balance\":"@ + (payload::int_text(
        balance as int,
    ) + "}}"@));
    openings_differ();
    amounts_are_read(deposited, amount, balance);
    payload::five_pieces(
        deposited,
        payload::int_text(amount as int),
        ",\"balance\":"@,
        payload::int_text(balance as int),
        "}}"@,
    );
    payload::other_literal_is_not_read(
        text,
        deposited,
        rest,
        "{\"AccountOpened\":{\"account_id\":"@,
        2,
    );
}

/// The payload of a withdrawal is read back as a withdrawal and as nothing
/// else.
proof fn withdrew_is_told_apart(amount: i64, balance: i64)
    ensures
        opened_of(amounts_text("{\"CustomerWithdrewCash\":{\"amount\":"@, amount, balance))
            is None,
        amounts_of(
            amounts_text("{\"CustomerWithdrewCash\":{\"amount\":"@, amount, balance),
            "{\"CustomerDepositedMoney\":{\"amount\":"@,
        ) is None,
        amounts_of(
            amounts_text("{\"CustomerWithdrewCash\":{\"amount\":"@, amount, balance),
            "{\"CustomerWithdrewCash\":{\"amount\":"@,
        ) == Some((amount, balance)),
{
    let withdrew = "{\"CustomerWithdrewCash\":{\"amount\":"@;
    let text = amounts_text(withdrew, amount, balance);
    let rest = payload::int_text(amount as int) + (",\"balance\":"@ + (payload::int_text(
        balance as int,
    ) + "}}"@));
    openings_differ();
    amounts_are_read(withdrew, amount, balance);
    payload::five_pieces(
        withdrew,
        payload::int_text(amount as int),
        ",\"balance\":"@,
        payload::int_text(balance as int),
        "}}"@,
    );
    payload::other_literal_is_not_read(
        text,
        withdrew,
        rest,
        "{\"AccountOpened\":{\"account_id\":"@,
        2,
    );
    payload::other_literal_is_not_read(
        text,
        withdrew,
        rest,
        "{\"CustomerDepositedMoney\":{\"amount\":"@,
        10,
    );
}

/// The payload of a check is read back as a check and as nothing else.
proof fn wrote_check_is_told_apart(check_number: Seq<char>, amount: i64, balance: i64)
    ensures
        opened_of(wrote_check_text(check_number, amount, balance)) is None,
        amounts_of(
            wrote_check_text(check_number, amount, balance),
            "{\"CustomerDepositedMoney\":{\"amount\":"@,
        ) is None,
        amounts_of(
            wrote_check_text(check_number, amount, balance),
            "{\"CustomerWithdrewCash\":{\"amount\":"@,
        ) is None,
        wrote_check_of(wrote_check_text(check_number, amount, balance)) == Some(
            (check_number, amount, balance),
        ),
{
    let wrote = "{\"CustomerWroteCheck\":{\"amount\":"@;
    let text = wrote_check_text(check_number, amount, balance);
    let rest = payload::int_text(amount as int) + (",\"balance\":"@ + (payload::int_text(
        balance as int,
    ) + (",\"check_number\":"@ + (payload::quoted(check_number) + "}}"@))));
    openings_differ();
    wrote_check_is_read(check_number, amount, balance);
    payload::seven_pieces(
        wrote,
        payload::int_text(amount as int),
        ",\"balance\":"@,
        payload::int_text(balance as int),
        ",\"check_number\":"@,
        payload::quoted(check_number),
        "}}"@,
    );
    payload::other_literal_is_not_read(
        text,
        wrote,
        rest,
        "{\"AccountOpened\":{\"account_id\":"@,
        2,
    );
    payload::other_literal_is_not_read(
        text,
        wrote,
        rest,
        "{\"CustomerDepositedMoney\":{\"amount\":"@,
        10,
    );
    payload::other_literal_is_not_read(
        text,
        wrote,
        rest,
        "{\"CustomerWithdrewCash\":{\"amount\":"@,
        11,
    );
}

fn read_opened(text: &Vec<char>) -> (read: Option<String>)
    ensures
        match read {
            Some(account_id) => opened_of(text@) == Some(account_id@),
            None => opened_of(text@) is None,
        },
{
    let cut1 = match payload::read_literal(text, 0, "{\"AccountOpened\":{\"account_id\":") {
        Some(next) => next,
        None => {
            return None;
        },
    };
    let (account_id, cut2) = match payload::read_quoted(text, cut1) {
        Some(read) => read,
        None => {
            return None;
        },
    };
    let cut3 = match payload::read_literal(text, cut2, "}}") {
        Some(next) => next,
        None => {
            return None;
        },
    };
    if cut3 == text.len() {
        Some(account_id)
    } else {
        None
    }
}

fn read_amounts(text: &Vec<char>, opening: &str) -> (read: Option<(i64, i64)>)
    ensures
        read == amounts_of(text@, opening@),
{
    let cut1 = match payload::read_literal(text, 0, opening) {
        Some(next) => next,
        None => {
            return None;
        },
    };
    let (amount, cut2) = match payload::read_int(text, cut1) {
        Some(read) => read,
        None => {
            return None;
        },
    };
    let cut3 = match payload::read_literal(text, cut2, ",\"balance\":") {
        Some(next) => next,
        None => {
            return None;
        },
    };
    let (balance, cut4) = match payload::read_int(text, cut3) {
        Some(read) => read,
        None => {
            return None;
        },
    };
    let cut5 = match payload::read_literal(text, cut4, "}}") {
        Some(next) => next,
        None => {
            return None;
        },
    };
    if cut5 == text.len() {
        Some((amount, balance))
    } else {
        None
    }
}

fn read_wrote_check(text: &Vec<char>) -> (read: Option<(String, i64, i64)>)
    ensures
        match read {
            Some((check_number, amount, balance)) => wrote_check_of(text@) == Some(
                (check_number@, amount, balance),
            ),
            None => wrote_check_of(text@) is None,
        },
{
    let cut1 = match payload::read_literal(text, 0, "{\"CustomerWroteCheck\":{\"amount\":") {
        Some(next) => next,
        None => {
            return None;
        },
    };
    let (amount, cut2) = match payload::read_int(text, cut1) {
        Some(read) => read,
        None => {
            return None;
        },
    };
    let cut3 = match payload::read_literal(text, cut2, ",\"balance\":") {
        Some(next) => next,
        None => {
            return None;
        },
    };
    let (balance, cut4) = match payload::read_int(text, cut3) {
        Some(read) => read,
        None => {
            return None;
        },
    };
    let cut5 = match payload::read_literal(text, cut4, ",\"check_number\":") {
        Some(next) => next,
        None => {
            return None;
        },
    };
    let (check_number, cut6) = match payload::read_quoted(text, cut5) {
        Some(read) => read,
        None => {
            return None;
        },
    };
    let cut7 = match payload::read_literal(text, cut6, "}}") {
        Some(next) => next,
        None => {
            return None;
        },
    };
    if cut7 == text.len() {
        Some((check_number, amount, balance))
    } else {
        None
    }
}

fn write_amounts(out: &mut String, opening: &str, amount: i64, balance: i64)
    ensures
        final(out)@ == old(out)@ + amounts_text(opening@, amount, balance),
{
    out.append(opening);
    payload::write_int(out, amount);
    out.append(",\"balance\":");
    payload::write_int(out, balance);
    out.append("}}");
    assert(out@ =~= old(out)@ + amounts_text(opening@, amount, balance));
}

impl TEvent for BankAccountEvent {
    open spec fn type_tag(v: BankAccountEventView) -> Seq<char> {
        match v {
            BankAccountEventView::AccountOpened { .. } => "AccountOpened"@,
            BankAccountEventView::CustomerDepositedMoney { .. } => "CustomerDepositedMoney"@,
            BankAccountEventView::CustomerWithdrewCash { .. } => "CustomerWithdrewCash"@,
            BankAccountEventView::CustomerWroteCheck { .. } => "CustomerWroteCheck"@,
        }
    }

    open spec fn version_tag(v: BankAccountEventView) -> Seq<char> {
        "1.0"@
    }

    open spec fn owner_tag(v: BankAccountEventView) -> Seq<char> {
        "Account"@
    }

    open spec fn encoded(v: BankAccountEventView) -> Seq<char> {
        match v {
            BankAccountEventView::AccountOpened { account_id } => opened_text(account_id),
            BankAccountEventView::CustomerDepositedMoney { amount, balance } => amounts_text(
                "{\"CustomerDepositedMoney\":{\"amount\":"@,
                amount,
                balance,
            ),
            BankAccountEventView::CustomerWithdrewCash { amount, balance } => amounts_text(
                "{\"CustomerWithdrewCash\":{\"amount\":"@,
                amount,
                balance,
            ),
            BankAccountEventView::CustomerWroteCheck {
                check_number,
                amount,
                balance,
            } => wrote_check_text(check_number, amount, balance),
        }
    }

    open spec fn decoded(payload: Seq<char>) -> Option<BankAccountEventView> {
        if let Some(account_id) = opened_of(payload) {
            Some(BankAccountEventView::AccountOpened { account_id })
        } else if let Some((amount, balance)) = amounts_of(
            payload,
            "{\"CustomerDepositedMoney\":{\"amount\":"@,
        ) {
            Some(BankAccountEventView::CustomerDepositedMoney { amount, balance })
        } else if let Some((amount, balance)) = amounts_of(
            payload,
            "{\"CustomerWithdrewCash\":{\"amount\":"@,
        ) {
            Some(BankAccountEventView::CustomerWithdrewCash { amount, balance })
        } else if let Some((check_number, amount, balance)) = wrote_check_of(payload) {
            Some(BankAccountEventView::CustomerWroteCheck { check_number, amount, balance })
        } else {
            None
        }
    }

    proof fn lossless(v: BankAccountEventView) {
        match v {
            BankAccountEventView::AccountOpened { account_id } => {
                opened_is_read(account_id);
            },
            BankAccountEventView::CustomerDepositedMoney { amount, balance } => {
                deposited_is_told_apart(amount, balance);
            },
            BankAccountEventView::CustomerWithdrewCash { amount, balance } => {
                withdrew_is_told_apart(amount, balance);
            },
            BankAccountEventView::CustomerWroteCheck { check_number, amount, balance } => {
                wrote_check_is_told_apart(check_number, amount, balance);
            },
        }
    }

    fn event_type(&self) -> (tag: String) {
        let event_type: &str = match self {
            BankAccountEvent::AccountOpened { .. } => "AccountOpened",
            BankAccountEvent::CustomerDepositedMoney { .. } => "CustomerDepositedMoney",
            BankAccountEvent::CustomerWithdrewCash { .. } => "CustomerWithdrewCash",
            BankAccountEvent::CustomerWroteCheck { .. } => "CustomerWroteCheck",
        };
        event_type.to_string()
    }

    fn event_version(&self) -> (tag: String) {
        "1.0".to_string()
    }

    fn aggregate_type(&self) -> (tag: String) {
        "Account".to_string()
    }

    fn to_payload(&self) -> (payload: String) {
        let mut out = String::new();
        match self {
            BankAccountEvent::AccountOpened { account_id } => {
                out.append("{\"AccountOpened\":{\"account_id\":");
                payload::write_quoted(&mut out, account_id.as_str());
                out.append("}}");
            },
            BankAccountEvent::CustomerDepositedMoney { amount, balance } => {
                write_amounts(
                    &mut out,
                    "{\"CustomerDepositedMoney\":{\"amount\":",
                    *amount,
                    *balance,
                );
            },
            BankAccountEvent::CustomerWithdrewCash { amount, balance } => {
                write_amounts(
                    &mut out,
                    "{\"CustomerWithdrewCash\":{\"amount\":",
                    *amount,
                    *balance,
                );
            },
            BankAccountEvent::CustomerWroteCheck { check_number, amount, balance } => {
                out.append("{\"CustomerWroteCheck\":{\"amount\":");
                payload::write_int(&mut out, *amount);
                out.append(",\"balance\":");
                payload::write_int(&mut out, *balance);
                out.append(",\"check_number\":");
                payload::write_quoted(&mut out, check_number.as_str());
                out.append("}}");
            },
        }
        out
    }

    fn from_payload(payload: &str) -> (event: Option<Self>) {
        let text = payload::chars_of(payload);
        if let Some(account_id) = read_opened(&text) {
            return Some(BankAccountEvent::AccountOpened { account_id });
        }
        if let Some((amount, balance)) = read_amounts(
            &text,
            "{\"CustomerDepositedMoney\":{\"amount\":",
        ) {
            return Some(BankAccountEvent::CustomerDepositedMoney { amount, balance });
        }
        if let Some((amount, balance)) = read_amounts(
            &text,
            "{\"CustomerWithdrewCash\":{\"amount\":",
        ) {
            return Some(BankAccountEvent::CustomerWithdrewCash { amount, balance });
        }
        if let Some((check_number, amount, balance)) = read_wrote_check(&text) {
            return Some(BankAccountEvent::CustomerWroteCheck { check_number, amount, balance });
        }
        None
    }
}

} // verus!
