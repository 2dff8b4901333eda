use vstd::prelude::*;

use std::collections::HashMap;

use crate::amount::AMOUNT_LIMIT;
use crate::balance::{balance_wf, Balance};

verus! {

/// Every account in the ledger is well formed.
pub open spec fn balances_wf(b: Map<u16, Balance>) -> bool {
    forall|c: u16| b.contains_key(c) ==> balance_wf(#[trigger] b[c])
}

/// A client's total funds: available plus held, or zero for a client
/// without an account.
pub open spec fn client_total(b: Map<u16, Balance>, client_id: u16) -> int {
    if b.contains_key(client_id) {
        b[client_id].avail + b[client_id].held
    } else {
        0
    }
}

/// Whether a client's account can take the largest representable amount
/// without leaving the representable range.
pub open spec fn spec_has_headroom(b: Map<u16, Balance>, client_id: u16) -> bool {
    client_total(b, client_id) + AMOUNT_LIMIT <= u128::MAX
}

/// The ledger: each client's account balance, created lazily on the first
/// operation that references the client and never deleted. Clients are
/// also kept in the order of their first appearance, for the final report.
pub struct Balances {
    map: HashMap<u16, Balance>,
    ids: Vec<u16>,
}

impl View for Balances {
    type V = Map<u16, Balance>;

    closed spec fn view(&self) -> Map<u16, Balance> {
        self.map@
    }
}

impl Balances {
    /// The client list carries each account exactly once.
    pub closed spec fn inv(&self) -> bool {
        &&& self.ids@.no_duplicates()
        &&& forall|i: int|
            0 <= i < self.ids@.len() ==> self.map@.contains_key(#[trigger] self.ids@[i])
        &&& forall|c: u16| #[trigger] self.map@.contains_key(c) ==> self.ids@.contains(c)
    }

    /// An empty ledger.
    pub fn new() -> (r: Self)
        ensures
            r@ == Map::<u16, Balance>::empty(),
            r.inv(),
    {
        Balances { map: HashMap::new(), ids: Vec::new() }
    }

    /// The balance of a client, if the client has an account.
    pub fn get(&self, client_id: u16) -> (r: Option<Balance>)
        ensures
            r == if self@.contains_key(client_id) {
                Some(self@[client_id])
            } else {
                None::<Balance>
            },
    {
        match self.map.get(&client_id) {
            Some(b) => Some(*b),
            None => None,
        }
    }

    /// How many clients have an account.
    pub fn len(&self) -> (r: usize)
        ensures
            r == self@.dom().len(),
    {
        self.map.len()
    }

    /// The client's account, created with a zero balance if this is the
    /// first operation that references the client.
    pub fn ensure_entry(&mut self, client_id: u16) -> (r: Balance)
        requires
            old(self).inv(),
        ensures
            final(self).inv(),
            final(self)@ == if old(self)@.contains_key(client_id) {
                old(self)@
            } else {
                old(self)@.insert(client_id, Balance { avail: 0u128, held: 0u128, locked: false })
            },
            final(self)@.contains_key(client_id),
            r == final(self)@[client_id],
    {
        match self.map.get(&client_id) {
            Some(b) => *b,
            None => {
                let b = Balance::new();
                self.map.insert(client_id, b);
                self.ids.push(client_id);
                proof {
                    let olds = old(self).ids@;
                    assert(!olds.contains(client_id)) by {
                        if olds.contains(client_id) {
                            let j = choose|j: int|
                                0 <= j < olds.len() && olds[j] == client_id;
                            assert(old(self).map@.contains_key(olds[j]));
                        }
                    }
                    assert forall|i: int, j: int|
                        0 <= i < self.ids@.len() && 0 <= j < self.ids@.len() && i != j implies self.ids@[i]
                        != self.ids@[j] by {
                        if i < olds.len() && j < olds.len() {
                            assert(olds[i] != olds[j]);
                        } else if j == olds.len() && self.ids@[i] == client_id {
                            assert(olds[i] == client_id);
                            assert(olds.contains(client_id));
                        } else if i == olds.len() && self.ids@[j] == client_id {
                            assert(olds[j] == client_id);
                            assert(olds.contains(client_id));
                        }
                    }
                    assert forall|i: int| 0 <= i < self.ids@.len() implies self.map@.contains_key(
                        #[trigger] self.ids@[i],
                    ) by {
                        if i < olds.len() {
                            assert(old(self).map@.contains_key(olds[i]));
                        }
                    }
                    assert forall|c: u16| #[trigger] self.map@.contains_key(c) implies self.ids@.contains(
                        c,
                    ) by {
                        if c == client_id {
                            assert(self.ids@[olds.len() as int] == client_id);
                        } else {
                            assert(old(self).map@.contains_key(c));
                            let j = choose|j: int| 0 <= j < olds.len() && olds[j] == c;
                            assert(self.ids@[j] == c);
                        }
                    }
                }
                b
            },
        }
    }

    /// Writes a client's new balance back. The account must already exist.
    pub fn commit(&mut self, client_id: u16, balance: Balance)
        requires
            old(self).inv(),
            old(self)@.contains_key(client_id),
        ensures
            final(self).inv(),
            final(self)@ == old(self)@.insert(client_id, balance),
    {
        self.map.insert(client_id, balance);
        proof {
            assert(self.map@.dom() =~= old(self).map@.dom());
        }
    }

    /// The clients that have an account, in the order of their first
    /// appearance: each exactly once.
    pub fn clients(&self) -> (r: Vec<u16>)
        requires
            self.inv(),
        ensures
            r@.no_duplicates(),
            forall|i: int| 0 <= i < r@.len() ==> self@.contains_key(#[trigger] r@[i]),
            forall|c: u16| #[trigger] self@.contains_key(c) ==> r@.contains(c),
    {
        let mut out: Vec<u16> = Vec::new();
        let mut i: usize = 0;
        while i < self.ids.len()
            invariant
                self.inv(),
                0 <= i <= self.ids@.len(),
                out@ == self.ids@.subrange(0, i as int),
            decreases self.ids@.len() - i,
        {
            out.push(self.ids[i]);
            i += 1;
        }
        proof {
            assert(out@ =~= self.ids@);
        }
        out
    }

    /// Whether the client's account can take another full-range deposit
    /// without leaving the representable range.
    pub fn has_headroom(&self, client_id: u16) -> (r: bool)
        requires
            balances_wf(self@),
        ensures
            r == spec_has_headroom(self@, client_id),
    {
        match self.get(client_id) {
            None => true,
            Some(b) => {
                let rest = u128::MAX - b.avail;
                rest - b.held >= AMOUNT_LIMIT
            },
        }
    }
}

} // verus!
