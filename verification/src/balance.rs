use vstd::prelude::*;

use crate::errors::TxError;

verus! {

/// One client's account: spendable funds, funds frozen pending dispute
/// resolution, and whether a chargeback has locked the account. Funds are
/// counts of ten-thousandths (see `crate::amount`), so they can never be
/// negative.
#[derive(Clone, Copy, Debug, PartialEq, Eq, Structural)]
pub struct Balance {
    pub avail: u128,
    pub held: u128,
    pub locked: bool,
}

/// A balance is well formed when its total (available plus held) is
/// representable.
pub open spec fn balance_wf(b: Balance) -> bool {
    b.avail + b.held <= u128::MAX
}

/// What depositing yields: on a locked account `LockedAccount`, otherwise
/// the amount joins the available funds.
pub open spec fn spec_deposit(b: Balance, amount: u128) -> Result<Balance, TxError> {
    if b.locked {
        Err(TxError::LockedAccount)
    } else {
        Ok(Balance { avail: (b.avail + amount) as u128, held: b.held, locked: b.locked })
    }
}

/// What withdrawing yields: `LockedAccount` on a locked account,
/// `InsufficientFunds` when the available funds fall short, otherwise the
/// amount leaves the available funds.
pub open spec fn spec_withdrawal(b: Balance, amount: u128) -> Result<Balance, TxError> {
    if b.locked {
        Err(TxError::LockedAccount)
    } else if b.avail < amount {
        Err(TxError::InsufficientFunds)
    } else {
        Ok(Balance { avail: (b.avail - amount) as u128, held: b.held, locked: b.locked })
    }
}

/// What disputing yields: `LockedAccount` on a locked account,
/// `InsufficientFunds` when the available funds fall short, otherwise the
/// amount moves from available to held.
pub open spec fn spec_dispute(b: Balance, amount: u128) -> Result<Balance, TxError> {
    if b.locked {
        Err(TxError::LockedAccount)
    } else if b.avail < amount {
        Err(TxError::InsufficientFunds)
    } else {
        Ok(
            Balance {
                avail: (b.avail - amount) as u128,
                held: (b.held + amount) as u128,
                locked: b.locked,
            },
        )
    }
}

/// What resolving yields: `LockedAccount` on a locked account,
/// `InsufficientFunds` when the held funds fall short, otherwise the
/// amount moves back from held to available.
pub open spec fn spec_resolve(b: Balance, amount: u128) -> Result<Balance, TxError> {
    if b.locked {
        Err(TxError::LockedAccount)
    } else if b.held < amount {
        Err(TxError::InsufficientFunds)
    } else {
        Ok(
            Balance {
                avail: (b.avail + amount) as u128,
                held: (b.held - amount) as u128,
                locked: b.locked,
            },
        )
    }
}

/// What a chargeback yields: `LockedAccount` on a locked account,
/// `InsufficientFunds` when the held funds fall short, otherwise the
/// amount leaves the held funds and the account locks for good.
pub open spec fn spec_chargeback(b: Balance, amount: u128) -> Result<Balance, TxError> {
    if b.locked {
        Err(TxError::LockedAccount)
    } else if b.held < amount {
        Err(TxError::InsufficientFunds)
    } else {
        Ok(Balance { avail: b.avail, held: (b.held - amount) as u128, locked: true })
    }
}

/// Rejects any operation on a locked account.
pub fn bail_if_locked(balance: &Balance) -> (r: Result<(), TxError>)
    ensures
        r == if balance.locked {
            Err::<(), TxError>(TxError::LockedAccount)
        } else {
            Ok::<(), TxError>(())
        },
{
    if balance.locked {
        Err(TxError::LockedAccount)
    } else {
        Ok(())
    }
}

impl Balance {
    /// A fresh account: no funds, not locked.
    pub fn new() -> (r: Self)
        ensures
            r == (Balance { avail: 0u128, held: 0u128, locked: false }),
    {
        Self { avail: 0, held: 0, locked: false }
    }

    /// Adds the amount to the available funds.
    pub fn deposit(&self, amount: u128) -> (r: Result<Self, TxError>)
        requires
            self.avail + amount <= u128::MAX,
        ensures
            r == spec_deposit(*self, amount),
    {
        match bail_if_locked(self) {
            Err(e) => Err(e),
            Ok(()) => Ok(Balance { avail: self.avail + amount, held: self.held, locked: self.locked }),
        }
    }

    /// Takes the amount out of the available funds.
    pub fn withdrawal(&self, amount: u128) -> (r: Result<Self, TxError>)
        ensures
            r == spec_withdrawal(*self, amount),
    {
        match bail_if_locked(self) {
            Err(e) => Err(e),
            Ok(()) => {
                if self.avail < amount {
                    Err(TxError::InsufficientFunds)
                } else {
                    Ok(Balance { avail: self.avail - amount, held: self.held, locked: self.locked })
                }
            },
        }
    }

    /// Freezes the amount: it moves from available to held.
    pub fn dispute(&self, amount: u128) -> (r: Result<Self, TxError>)
        requires
            balance_wf(*self),
        ensures
            r == spec_dispute(*self, amount),
    {
        match bail_if_locked(self) {
            Err(e) => Err(e),
            Ok(()) => {
                if self.avail < amount {
                    Err(TxError::InsufficientFunds)
                } else {
                    Ok(
                        Balance {
                            avail: self.avail - amount,
                            held: self.held + amount,
                            locked: self.locked,
                        },
                    )
                }
            },
        }
    }

    /// Releases the amount: it moves back from held to available.
    pub fn resolve(&self, amount: u128) -> (r: Result<Self, TxError>)
        requires
            balance_wf(*self),
        ensures
            r == spec_resolve(*self, amount),
    {
        match bail_if_locked(self) {
            Err(e) => Err(e),
            Ok(()) => {
                if self.held < amount {
                    Err(TxError::InsufficientFunds)
                } else {
                    Ok(
                        Balance {
                            avail: self.avail + amount,
                            held: self.held - amount,
                            locked: self.locked,
                        },
                    )
                }
            },
        }
    }

    /// Takes the amount out of the held funds and locks the account.
    pub fn chargeback(&self, amount: u128) -> (r: Result<Self, TxError>)
        ensures
            r == spec_chargeback(*self, amount),
    {
        match bail_if_locked(self) {
            Err(e) => Err(e),
            Ok(()) => {
                if self.held < amount {
                    Err(TxError::InsufficientFunds)
                } else {
                    Ok(Balance { avail: self.avail, held: self.held - amount, locked: true })
                }
            },
        }
    }
}

} // verus!
