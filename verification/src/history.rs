use vstd::prelude::*;

use std::collections::HashMap;

use crate::amount::AMOUNT_LIMIT;
use crate::errors::TxError;

verus! {

/// The kind of a posted transaction. Only deposits and withdrawals are
/// recorded; the dispute family only changes a record's dispute flag.
#[derive(Clone, Copy, Debug, PartialEq, Eq, Structural)]
pub enum TxKind {
    Deposit,
    Withdrawal,
}

/// One posted transaction: its kind, the client that originated it, its
/// amount in ten-thousandths, and whether it is currently in dispute.
/// Everything but the dispute flag is immutable once posted.
#[derive(Clone, Copy, Debug, PartialEq, Eq, Structural)]
pub struct TxRecord {
    pub kind: TxKind,
    pub client_id: u16,
    pub units: u128,
    pub in_dispute: bool,
}

/// A record is well formed when its amount is strictly positive and within
/// the representable range.
pub open spec fn record_wf(t: TxRecord) -> bool {
    0 < t.units <= AMOUNT_LIMIT
}

/// The record as it stands after its dispute flag is set to `d`.
pub open spec fn with_dispute(t: TxRecord, d: bool) -> TxRecord {
    TxRecord { kind: t.kind, client_id: t.client_id, units: t.units, in_dispute: d }
}

/// The authoritative registry of posted transactions, keyed by transaction
/// id. Ids are globally unique across all clients; records are never
/// deleted.
pub struct TransactionHistory {
    map: HashMap<u32, TxRecord>,
}

/// A history is well formed when every record in it is.
pub open spec fn history_wf(h: Map<u32, TxRecord>) -> bool {
    forall|t: u32| h.contains_key(t) ==> record_wf(#[trigger] h[t])
}

impl View for TransactionHistory {
    type V = Map<u32, TxRecord>;

    closed spec fn view(&self) -> Map<u32, TxRecord> {
        self.map@
    }
}

impl TransactionHistory {
    /// An empty registry.
    pub fn new() -> (r: Self)
        ensures
            r@ == Map::<u32, TxRecord>::empty(),
    {
        TransactionHistory { map: HashMap::new() }
    }

    /// Whether a transaction id is already registered.
    pub fn contains(&self, tx_id: u32) -> (r: bool)
        ensures
            r == self@.contains_key(tx_id),
    {
        self.map.contains_key(&tx_id)
    }

    /// The record registered under an id, if any.
    pub fn lookup(&self, tx_id: u32) -> (r: Option<TxRecord>)
        ensures
            r == if self@.contains_key(tx_id) {
                Some(self@[tx_id])
            } else {
                None::<TxRecord>
            },
    {
        match self.map.get(&tx_id) {
            Some(t) => Some(*t),
            None => None,
        }
    }

    /// How many transactions are registered.
    pub fn len(&self) -> (r: usize)
        ensures
            r == self@.dom().len(),
    {
        self.map.len()
    }

    /// Registers a fresh transaction, not in dispute. Fails with
    /// `TransactionAlreadyExists` when the id is already present, and then
    /// changes nothing.
    pub fn insert(&mut self, tx_id: u32, kind: TxKind, client_id: u16, units: u128) -> (r: Result<
        (),
        TxError,
    >)
        ensures
            old(self)@.contains_key(tx_id) ==> r == Err::<(), TxError>(
                TxError::TransactionAlreadyExists,
            ) && final(self)@ == old(self)@,
            !old(self)@.contains_key(tx_id) ==> r == Ok::<(), TxError>(()) && final(self)@ == old(
                self,
            )@.insert(
                tx_id,
                TxRecord { kind, client_id, units, in_dispute: false },
            ),
    {
        if self.map.contains_key(&tx_id) {
            Err(TxError::TransactionAlreadyExists)
        } else {
            self.map.insert(tx_id, TxRecord { kind, client_id, units, in_dispute: false });
            Ok(())
        }
    }

    /// Sets the dispute flag of a registered transaction; an unknown id
    /// changes nothing. The caller is responsible for having validated the
    /// transition.
    pub fn mark_disputed(&mut self, tx_id: u32)
        ensures
            final(self)@ == if old(self)@.contains_key(tx_id) {
                old(self)@.insert(tx_id, with_dispute(old(self)@[tx_id], true))
            } else {
                old(self)@
            },
    {
        let current = match self.map.get(&tx_id) {
            Some(t) => Some(*t),
            None => None,
        };
        match current {
            Some(t) => {
                self.map.insert(tx_id, TxRecord { in_dispute: true, ..t });
            },
            None => {},
        }
    }

    /// Clears the dispute flag of a registered transaction; an unknown id
    /// changes nothing. The caller is responsible for having validated the
    /// transition.
    pub fn mark_resolved(&mut self, tx_id: u32)
        ensures
            final(self)@ == if old(self)@.contains_key(tx_id) {
                old(self)@.insert(tx_id, with_dispute(old(self)@[tx_id], false))
            } else {
                old(self)@
            },
    {
        let current = match self.map.get(&tx_id) {
            Some(t) => Some(*t),
            None => None,
        };
        match current {
            Some(t) => {
                self.map.insert(tx_id, TxRecord { in_dispute: false, ..t });
            },
            None => {},
        }
    }
}

} // verus!
