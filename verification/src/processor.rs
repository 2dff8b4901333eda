use vstd::prelude::*;

use crate::amount::{check_amount, spec_check_amount, spec_to_decimal, to_decimal};
use crate::balance::{
    spec_chargeback, spec_deposit, spec_dispute, spec_resolve, spec_withdrawal, Balance,
};
use crate::errors::TxError;
use crate::history::{history_wf, with_dispute, TransactionHistory, TxKind, TxRecord};
use crate::balances::{balances_wf, spec_has_headroom, Balances};

verus! {

/// The kind of an incoming command. `Unknown` stands for any input kind
/// that is not one of the five recognised ones; processing rejects it with
/// `UnknownTransactionType`.
#[derive(Clone, Copy, Debug, PartialEq, Eq, Structural)]
pub enum CommandKind {
    Deposit,
    Withdrawal,
    Dispute,
    Resolve,
    Chargeback,
    Unknown,
}

/// One incoming operation: its kind, the client it addresses, the
/// transaction id it posts or references, and — for deposits and
/// withdrawals only — the literal amount as it arrived.
#[derive(Clone, Debug)]
pub struct Command {
    pub kind: CommandKind,
    pub client_id: u16,
    pub tx_id: u32,
    pub amount: Option<String>,
}

/// The mathematical image of a command: the amount literal as a sequence
/// of characters.
pub struct CommandV {
    pub kind: CommandKind,
    pub client_id: u16,
    pub tx_id: u32,
    pub amount: Option<Seq<char>>,
}

impl View for Command {
    type V = CommandV;

    open spec fn view(&self) -> CommandV {
        CommandV {
            kind: self.kind,
            client_id: self.client_id,
            tx_id: self.tx_id,
            amount: match self.amount {
                Some(s) => Some(s@),
                None => None,
            },
        }
    }
}

/// Phase one, referential validation: what the transaction history says
/// against the command, before anything is read or written elsewhere.
pub open spec fn spec_phase1(h: Map<u32, TxRecord>, c: CommandV) -> Result<(), TxError> {
    match c.kind {
        CommandKind::Deposit | CommandKind::Withdrawal => {
            if h.contains_key(c.tx_id) {
                Err(TxError::TransactionAlreadyExists)
            } else {
                Ok(())
            }
        },
        CommandKind::Dispute => {
            if h.contains_key(c.tx_id) {
                let tx = h[c.tx_id];
                if tx.kind != TxKind::Deposit {
                    Err(TxError::ReferenceTransactionTypeIncorrect)
                } else if tx.client_id != c.client_id {
                    Err(TxError::ReferenceTransactionIncorrect)
                } else if tx.in_dispute {
                    Err(TxError::TransactionAlreadyInDispute)
                } else {
                    Ok(())
                }
            } else {
                Err(TxError::ReferenceTransactionNotFound)
            }
        },
        CommandKind::Resolve | CommandKind::Chargeback => {
            if h.contains_key(c.tx_id) {
                if !h[c.tx_id].in_dispute {
                    Err(TxError::ReferenceTransactionStateIncorrect)
                } else {
                    Ok(())
                }
            } else {
                Err(TxError::ReferenceTransactionNotFound)
            }
        },
        CommandKind::Unknown => Err(TxError::UnknownTransactionType),
    }
}

/// Phase two, amount resolution: deposits and withdrawals read their own
/// literal; the dispute family takes the amount of the referenced record.
/// Either way the amount must be strictly positive.
pub open spec fn spec_phase2(h: Map<u32, TxRecord>, c: CommandV) -> Result<u128, TxError> {
    match c.kind {
        CommandKind::Deposit | CommandKind::Withdrawal => {
            match c.amount {
                None => Err(TxError::UnknownTransactionType),
                Some(s) => {
                    match spec_to_decimal(s) {
                        Err(e) => Err(e),
                        Ok(units) => {
                            match spec_check_amount(units) {
                                Err(e) => Err(e),
                                Ok(_) => Ok(units as u128),
                            }
                        },
                    }
                },
            }
        },
        CommandKind::Dispute | CommandKind::Resolve | CommandKind::Chargeback => {
            let units = h[c.tx_id].units as i128;
            match spec_check_amount(units) {
                Err(e) => Err(e),
                Ok(_) => Ok(units as u128),
            }
        },
        CommandKind::Unknown => Err(TxError::UnknownTransactionType),
    }
}

/// The balance transition a command kind asks for.
pub open spec fn spec_apply_op(b: Balance, kind: CommandKind, amount: u128) -> Result<
    Balance,
    TxError,
> {
    match kind {
        CommandKind::Deposit => spec_deposit(b, amount),
        CommandKind::Withdrawal => spec_withdrawal(b, amount),
        CommandKind::Dispute => spec_dispute(b, amount),
        CommandKind::Resolve => spec_resolve(b, amount),
        CommandKind::Chargeback => spec_chargeback(b, amount),
        CommandKind::Unknown => Err(TxError::UnknownTransactionType),
    }
}

/// How a committed command changes the transaction history: a deposit or
/// withdrawal posts a fresh record, a dispute raises the referenced
/// record's dispute flag, a resolve or chargeback clears it.
pub open spec fn spec_commit_history(h: Map<u32, TxRecord>, c: CommandV, amount: u128) -> Map<
    u32,
    TxRecord,
> {
    match c.kind {
        CommandKind::Deposit => h.insert(
            c.tx_id,
            TxRecord { kind: TxKind::Deposit, client_id: c.client_id, units: amount, in_dispute: false },
        ),
        CommandKind::Withdrawal => h.insert(
            c.tx_id,
            TxRecord {
                kind: TxKind::Withdrawal,
                client_id: c.client_id,
                units: amount,
                in_dispute: false,
            },
        ),
        CommandKind::Dispute => h.insert(c.tx_id, with_dispute(h[c.tx_id], true)),
        CommandKind::Resolve | CommandKind::Chargeback => h.insert(
            c.tx_id,
            with_dispute(h[c.tx_id], false),
        ),
        CommandKind::Unknown => h,
    }
}

/// The whole step a command makes: the outcome, the history afterwards and
/// the ledger afterwards. The three phases short-circuit: a command that
/// fails referential validation or amount resolution changes nothing, and
/// one whose balance transition fails leaves at most a freshly created
/// zero-balance account behind — exactly one balance mutation per
/// committed command.
pub open spec fn spec_do_cmd(h: Map<u32, TxRecord>, b: Map<u16, Balance>, c: CommandV) -> (
    Result<(), TxError>,
    Map<u32, TxRecord>,
    Map<u16, Balance>,
) {
    match spec_phase1(h, c) {
        Err(e) => (Err(e), h, b),
        Ok(_) => {
            match spec_phase2(h, c) {
                Err(e) => (Err(e), h, b),
                Ok(amount) => {
                    let b1 = if b.contains_key(c.client_id) {
                        b
                    } else {
                        b.insert(
                            c.client_id,
                            Balance { avail: 0u128, held: 0u128, locked: false },
                        )
                    };
                    match spec_apply_op(b1[c.client_id], c.kind, amount) {
                        Err(e) => (Err(e), h, b1),
                        Ok(nb) => (
                            Ok(()),
                            spec_commit_history(h, c, amount),
                            b1.insert(c.client_id, nb),
                        ),
                    }
                },
            }
        },
    }
}

/// Validates one command against the transaction history, resolves its
/// amount, applies the matching balance transition, and — only when that
/// succeeded — commits the new balance and the history update. A rejected
/// command reports its error and mutates nothing, except that reaching the
/// balance phase creates the client's account with a zero balance if it
/// did not exist yet.
pub fn do_cmd(
    cmd: &Command,
    transaction_history: &mut TransactionHistory,
    balances: &mut Balances,
) -> (r: Result<(), TxError>)
    requires
        history_wf(old(transaction_history)@),
        balances_wf(old(balances)@),
        old(balances).inv(),
        cmd.kind == CommandKind::Deposit ==> spec_has_headroom(old(balances)@, cmd.client_id),
    ensures
        ({
            let step = spec_do_cmd(old(transaction_history)@, old(balances)@, cmd@);
            &&& r == step.0
            &&& final(transaction_history)@ == step.1
            &&& final(balances)@ == step.2
        }),
        history_wf(final(transaction_history)@),
        balances_wf(final(balances)@),
        final(balances).inv(),
{
    // Phase 1: referential validation, against the history alone.
    match cmd.kind {
        CommandKind::Deposit | CommandKind::Withdrawal => {
            if transaction_history.contains(cmd.tx_id) {
                return Err(TxError::TransactionAlreadyExists);
            }
        },
        CommandKind::Dispute => {
            match transaction_history.lookup(cmd.tx_id) {
                Some(tx) => {
                    if tx.kind != TxKind::Deposit {
                        return Err(TxError::ReferenceTransactionTypeIncorrect);
                    }
                    if tx.client_id != cmd.client_id {
                        return Err(TxError::ReferenceTransactionIncorrect);
                    }
                    if tx.in_dispute {
                        return Err(TxError::TransactionAlreadyInDispute);
                    }
                },
                None => {
                    return Err(TxError::ReferenceTransactionNotFound);
                },
            }
        },
        CommandKind::Resolve | CommandKind::Chargeback => {
            match transaction_history.lookup(cmd.tx_id) {
                Some(tx) => {
                    if !tx.in_dispute {
                        return Err(TxError::ReferenceTransactionStateIncorrect);
                    }
                },
                None => {
                    return Err(TxError::ReferenceTransactionNotFound);
                },
            }
        },
        CommandKind::Unknown => {
            return Err(TxError::UnknownTransactionType);
        },
    }
    // Phase 2: amount resolution.
    let units: i128 = match cmd.kind {
        CommandKind::Deposit | CommandKind::Withdrawal => {
            match &cmd.amount {
                Some(q) => {
                    match to_decimal(q.as_str()) {
                        Ok(u) => u,
                        Err(e) => {
                            return Err(e);
                        },
                    }
                },
                None => {
                    return Err(TxError::UnknownTransactionType);
                },
            }
        },
        CommandKind::Dispute | CommandKind::Resolve | CommandKind::Chargeback => {
            match transaction_history.lookup(cmd.tx_id) {
                Some(tx) => tx.units as i128,
                None => {
                    return Err(TxError::ReferenceTransactionNotFound);
                },
            }
        },
        CommandKind::Unknown => {
            return Err(TxError::UnknownTransactionType);
        },
    };
    match check_amount(units) {
        Ok(_) => {},
        Err(e) => {
            return Err(e);
        },
    }
    let amount: u128 = units as u128;
    // Phase 3: apply the balance transition and commit.
    let balance = balances.ensure_entry(cmd.client_id);
    let applied = match cmd.kind {
        CommandKind::Deposit => balance.deposit(amount),
        CommandKind::Withdrawal => balance.withdrawal(amount),
        CommandKind::Dispute => balance.dispute(amount),
        CommandKind::Resolve => balance.resolve(amount),
        CommandKind::Chargeback => balance.chargeback(amount),
        CommandKind::Unknown => Err(TxError::UnknownTransactionType),
    };
    let new_balance = match applied {
        Ok(nb) => nb,
        Err(e) => {
            return Err(e);
        },
    };
    balances.commit(cmd.client_id, new_balance);
    match cmd.kind {
        CommandKind::Deposit => {
            match transaction_history.insert(cmd.tx_id, TxKind::Deposit, cmd.client_id, amount) {
                Ok(_) => {},
                Err(e) => {
                    return Err(e);
                },
            }
        },
        CommandKind::Withdrawal => {
            match transaction_history.insert(cmd.tx_id, TxKind::Withdrawal, cmd.client_id, amount) {
                Ok(_) => {},
                Err(e) => {
                    return Err(e);
                },
            }
        },
        CommandKind::Dispute => {
            transaction_history.mark_disputed(cmd.tx_id);
        },
        CommandKind::Resolve | CommandKind::Chargeback => {
            transaction_history.mark_resolved(cmd.tx_id);
        },
        CommandKind::Unknown => {},
    }
    Ok(())
}

} // verus!
