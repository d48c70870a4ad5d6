//! The stored identity bond, the storage keys, and the errors of the contract.
use soroban_sdk::Address;
use vstd::prelude::*;

verus! {

/// Keys of the contract's instance storage.
#[derive(PartialEq, Eq, Structural, Clone, Copy, Debug)]
pub enum DataKey {
    Admin,
    Bond,
}

/// Why a contract call is refused. Each refusal aborts the call and leaves
/// the stored state as it was.
#[derive(PartialEq, Eq, Structural, Clone, Copy, Debug)]
pub enum BondError {
    /// No bond has been created yet.
    NoBond,
    /// A withdrawal asked for more than the bonded amount.
    InsufficientBalance,
    /// The bonded amount minus the withdrawn amount does not fit in an `i128`.
    WithdrawalUnderflow,
    /// The bonded amount plus the top-up does not fit in an `i128`.
    TopUpOverflow,
    /// The bond duration plus the extension does not fit in a `u64`.
    DurationOverflow,
    /// A withdrawal request was made on a bond that is not rolling.
    NotRolling,
    /// A withdrawal request was already recorded on the bond.
    WithdrawalAlreadyRequested,
}

impl BondError {
    /// The text with which the contract aborts on this error.
    pub fn message(&self) -> (m: &'static str)
        ensures
            m@ == match *self {
                BondError::NoBond => "no bond"@,
                BondError::InsufficientBalance => "insufficient balance for withdrawal"@,
                BondError::WithdrawalUnderflow => "withdrawal caused underflow"@,
                BondError::TopUpOverflow => "top-up caused overflow"@,
                BondError::DurationOverflow => "duration extension caused overflow"@,
                BondError::NotRolling => "not a rolling bond"@,
                BondError::WithdrawalAlreadyRequested => "withdrawal already requested"@,
            },
    {
        match self {
            BondError::NoBond => "no bond",
            BondError::InsufficientBalance => "insufficient balance for withdrawal",
            BondError::WithdrawalUnderflow => "withdrawal caused underflow",
            BondError::TopUpOverflow => "top-up caused overflow",
            BondError::DurationOverflow => "duration extension caused overflow",
            BondError::NotRolling => "not a rolling bond",
            BondError::WithdrawalAlreadyRequested => "withdrawal already requested",
        }
    }
}

/// A bond locked by an identity.
#[derive(Debug)]
pub struct IdentityBond {
    /// The owner, who must authorize every change to the bond.
    pub identity: Address,
    /// The amount currently bonded.
    pub bonded_amount: i128,
    /// Ledger time at which the current bond term started.
    pub bond_start: u64,
    /// Length of a bond term.
    pub bond_duration: u64,
    /// Whether the bond renews itself at the end of each term.
    pub is_rolling: bool,
    /// Ledger time of the pending withdrawal request, or 0 when there is none.
    pub withdrawal_requested_at: u64,
    /// Notice the owner gives before a withdrawal of a rolling bond.
    pub notice_period_duration: u64,
}

/// The bond that a new bond request creates: nothing withdrawn or requested
/// yet, and the first term starting at `now`.
pub open spec fn created_bond(
    identity: Address,
    amount: i128,
    duration: u64,
    is_rolling: bool,
    notice_period_duration: u64,
    now: u64,
) -> IdentityBond {
    IdentityBond {
        identity,
        bonded_amount: amount,
        bond_start: now,
        bond_duration: duration,
        is_rolling,
        withdrawal_requested_at: 0,
        notice_period_duration,
    }
}

/// The bond after `amount` is withdrawn from it, or why that is refused.
/// A withdrawal may not exceed the bonded amount; a negative amount adds to
/// the bond and is refused when the result does not fit in an `i128`.
pub open spec fn withdrawn(bond: IdentityBond, amount: i128) -> Result<IdentityBond, BondError> {
    if amount > bond.bonded_amount {
        Err(BondError::InsufficientBalance)
    } else if bond.bonded_amount - amount > i128::MAX {
        Err(BondError::WithdrawalUnderflow)
    } else {
        Ok(IdentityBond { bonded_amount: (bond.bonded_amount - amount) as i128, ..bond })
    }
}

/// The bond after `amount` is added to it, or why that is refused.
pub open spec fn topped_up(bond: IdentityBond, amount: i128) -> Result<IdentityBond, BondError> {
    if bond.bonded_amount + amount < i128::MIN || bond.bonded_amount + amount > i128::MAX {
        Err(BondError::TopUpOverflow)
    } else {
        Ok(IdentityBond { bonded_amount: (bond.bonded_amount + amount) as i128, ..bond })
    }
}

/// The bond with its term lengthened by `additional`, or why that is refused.
pub open spec fn extended(bond: IdentityBond, additional: u64) -> Result<IdentityBond, BondError> {
    if bond.bond_duration + additional > u64::MAX {
        Err(BondError::DurationOverflow)
    } else {
        Ok(IdentityBond { bond_duration: (bond.bond_duration + additional) as u64, ..bond })
    }
}

/// The bond with a withdrawal request recorded at `now`, or why that is
/// refused: only a rolling bond takes a request, and only one at a time.
pub open spec fn with_withdrawal_request(bond: IdentityBond, now: u64) -> Result<IdentityBond, BondError> {
    if !bond.is_rolling {
        Err(BondError::NotRolling)
    } else if bond.withdrawal_requested_at != 0 {
        Err(BondError::WithdrawalAlreadyRequested)
    } else {
        Ok(IdentityBond { withdrawal_requested_at: now, ..bond })
    }
}

/// End of the bond's current term: its start plus its duration, saturating
/// at `u64::MAX`.
pub open spec fn term_end(bond: IdentityBond) -> u64 {
    if bond.bond_start + bond.bond_duration > u64::MAX {
        u64::MAX
    } else {
        (bond.bond_start + bond.bond_duration) as u64
    }
}

/// A rolling bond whose term ended before `now` is due for renewal.
pub open spec fn renewal_due(bond: IdentityBond, now: u64) -> bool {
    bond.is_rolling && now > term_end(bond)
}

/// The bond renewed at `now`: a new term starts and any pending withdrawal
/// request is dropped.
pub open spec fn renewed(bond: IdentityBond, now: u64) -> IdentityBond {
    IdentityBond { bond_start: now, withdrawal_requested_at: 0, ..bond }
}

} // verus!
