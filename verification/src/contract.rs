//! The contract's stored state and the calls that change it.
use crate::bond::{
    created_bond, extended, renewal_due, renewed, topped_up, with_withdrawal_request, withdrawn,
    BondError, IdentityBond,
};
use soroban_sdk::Address;
use vstd::prelude::*;

verus! {

/// The Credence bond contract, as its instance storage holds it: the
/// administrator set at initialization and the identity bond, each absent
/// until first written.
pub struct CredenceBond {
    pub admin: Option<Address>,
    pub bond: Option<IdentityBond>,
}

/// A call that either commits `outcome` or is refused: on success the bond of
/// `outcome` is stored and the administrator kept, on refusal the call fails
/// with the error of `outcome` and the contract is left as it was.
pub open spec fn settled(
    before: CredenceBond,
    after: CredenceBond,
    r: Result<(), BondError>,
    outcome: Result<IdentityBond, BondError>,
) -> bool {
    match outcome {
        Ok(b) => r == Ok::<(), BondError>(()) && after == before.with_bond(b),
        Err(e) => r == Err::<(), BondError>(e) && after == before,
    }
}

/// A renewal check at `now`: a bond due for renewal is renewed and the call
/// answers `true`; otherwise it answers `false`, or `NoBond`, and nothing
/// changes.
pub open spec fn renewal_settled(
    before: CredenceBond,
    after: CredenceBond,
    r: Result<bool, BondError>,
    now: u64,
) -> bool {
    match before.bond {
        None => r == Err::<bool, BondError>(BondError::NoBond) && after == before,
        Some(b) => if renewal_due(b, now) {
            r == Ok::<bool, BondError>(true) && after == before.with_bond(renewed(b, now))
        } else {
            r == Ok::<bool, BondError>(false) && after == before
        },
    }
}

impl CredenceBond {
    /// The contract with `bond` stored in place of its bond.
    pub open spec fn with_bond(self, bond: IdentityBond) -> CredenceBond {
        CredenceBond { admin: self.admin, bond: Some(bond) }
    }

    /// The stored bond, or `NoBond` when none was created.
    pub open spec fn stored_bond(self) -> Result<IdentityBond, BondError> {
        match self.bond {
            Some(b) => Ok(b),
            None => Err(BondError::NoBond),
        }
    }

    /// What a withdrawal of `amount` makes of the stored bond.
    pub open spec fn after_withdraw(self, amount: i128) -> Result<IdentityBond, BondError> {
        match self.bond {
            Some(b) => withdrawn(b, amount),
            None => Err(BondError::NoBond),
        }
    }

    /// What a top-up of `amount` makes of the stored bond.
    pub open spec fn after_top_up(self, amount: i128) -> Result<IdentityBond, BondError> {
        match self.bond {
            Some(b) => topped_up(b, amount),
            None => Err(BondError::NoBond),
        }
    }

    /// What an extension by `additional` makes of the stored bond.
    pub open spec fn after_extend_duration(self, additional: u64) -> Result<IdentityBond, BondError> {
        match self.bond {
            Some(b) => extended(b, additional),
            None => Err(BondError::NoBond),
        }
    }

    /// What a withdrawal request at `now` makes of the stored bond.
    pub open spec fn after_request_withdrawal(self, now: u64) -> Result<IdentityBond, BondError> {
        match self.bond {
            Some(b) => with_withdrawal_request(b, now),
            None => Err(BondError::NoBond),
        }
    }

    /// The `withdrawal_requested` event that a withdrawal request with result
    /// `outcome` publishes from this state: the owner and the recorded request
    /// time when the request succeeded, no event when it was refused.
    pub open spec fn withdrawal_event(self, outcome: Result<(), BondError>) -> Option<(Address, u64)> {
        match outcome {
            Ok(_) => match self.bond {
                Some(b) => Some((b.identity, b.withdrawal_requested_at)),
                None => None,
            },
            Err(_) => None,
        }
    }

    /// A contract with nothing stored yet.
    pub fn new() -> (c: CredenceBond)
        ensures
            c.admin is None,
            c.bond is None,
    {
        CredenceBond { admin: None, bond: None }
    }

    /// Records `admin` as the administrator; the bond is left as it is.
    /// (The host requires `admin` to authorize the call.)
    pub fn initialize(&mut self, admin: Address)
        ensures
            final(self).admin == Some(admin),
            final(self).bond == old(self).bond,
    {
        self.admin = Some(admin);
    }

    /// Creates the bond of `identity`, replacing any bond stored before, with
    /// its first term starting at ledger time `now`. (The host requires
    /// `identity` to authorize the call.)
    pub fn create_bond(
        &mut self,
        identity: Address,
        amount: i128,
        duration: u64,
        is_rolling: bool,
        notice_period_duration: u64,
        now: u64,
    )
        ensures
            *final(self) == old(self).with_bond(
                created_bond(identity, amount, duration, is_rolling, notice_period_duration, now),
            ),
    {
        self.bond = Some(
            IdentityBond {
                identity,
                bonded_amount: amount,
                bond_start: now,
                bond_duration: duration,
                is_rolling,
                withdrawal_requested_at: 0,
                notice_period_duration,
            },
        );
    }

    /// The stored bond, or `NoBond` when none was created.
    pub fn get_identity_state(&self) -> (r: Result<&IdentityBond, BondError>)
        ensures
            match r {
                Ok(b) => self.stored_bond() == Ok::<IdentityBond, BondError>(*b),
                Err(e) => self.stored_bond() == Err::<IdentityBond, BondError>(e),
            },
    {
        match &self.bond {
            Some(b) => Ok(b),
            None => Err(BondError::NoBond),
        }
    }

    /// Who must authorize a call on the stored bond (`withdraw`, `top_up`,
    /// `extend_duration`, `request_withdrawal`, `renew_if_rolling`): its
    /// owner, whatever the administrator is; `NoBond` when none was created.
    pub fn required_signer(&self) -> (r: Result<&Address, BondError>)
        ensures
            r matches Ok(a) ==> self.bond matches Some(b) && *a == b.identity,
            r matches Err(e) ==> self.bond is None && e == BondError::NoBond,
            self.bond is Some <==> r is Ok,
    {
        match &self.bond {
            Some(b) => Ok(&b.identity),
            None => Err(BondError::NoBond),
        }
    }

    /// Withdraws `amount` from the bond.
    pub fn withdraw(&mut self, amount: i128) -> (r: Result<(), BondError>)
        ensures
            settled(*old(self), *final(self), r, old(self).after_withdraw(amount)),
    {
        match &mut self.bond {
            None => Err(BondError::NoBond),
            Some(bond) => {
                if amount > bond.bonded_amount {
                    return Err(BondError::InsufficientBalance);
                }
                match bond.bonded_amount.checked_sub(amount) {
                    None => Err(BondError::WithdrawalUnderflow),
                    Some(left) => {
                        bond.bonded_amount = left;
                        Ok(())
                    },
                }
            },
        }
    }

    /// Adds `amount` to the bond.
    pub fn top_up(&mut self, amount: i128) -> (r: Result<(), BondError>)
        ensures
            settled(*old(self), *final(self), r, old(self).after_top_up(amount)),
    {
        match &mut self.bond {
            None => Err(BondError::NoBond),
            Some(bond) => match bond.bonded_amount.checked_add(amount) {
                None => Err(BondError::TopUpOverflow),
                Some(total) => {
                    bond.bonded_amount = total;
                    Ok(())
                },
            },
        }
    }

    /// Lengthens the bond's term by `additional_duration`.
    pub fn extend_duration(&mut self, additional_duration: u64) -> (r: Result<(), BondError>)
        ensures
            settled(*old(self), *final(self), r, old(self).after_extend_duration(additional_duration)),
    {
        match &mut self.bond {
            None => Err(BondError::NoBond),
            Some(bond) => match bond.bond_duration.checked_add(additional_duration) {
                None => Err(BondError::DurationOverflow),
                Some(duration) => {
                    bond.bond_duration = duration;
                    Ok(())
                },
            },
        }
    }

    /// Records a withdrawal request at ledger time `now` on a rolling bond.
    /// (On success the host publishes a `withdrawal_requested` event with
    /// the owner and `now`.)
    pub fn request_withdrawal(&mut self, now: u64) -> (r: Result<(), BondError>)
        ensures
            settled(*old(self), *final(self), r, old(self).after_request_withdrawal(now)),
    {
        match &mut self.bond {
            None => Err(BondError::NoBond),
            Some(bond) => {
                if !bond.is_rolling {
                    return Err(BondError::NotRolling);
                }
                if bond.withdrawal_requested_at != 0 {
                    return Err(BondError::WithdrawalAlreadyRequested);
                }
                bond.withdrawal_requested_at = now;
                Ok(())
            },
        }
    }

    /// The event to publish after `request_withdrawal` answered `outcome` and
    /// left this state: the owner and the request time on success, none on a
    /// refusal.
    pub fn requested_withdrawal_event(&self, outcome: &Result<(), BondError>) -> (ev: Option<(&Address, u64)>)
        ensures
            match ev {
                Some((a, t)) => self.withdrawal_event(*outcome) == Some((*a, t)),
                None => self.withdrawal_event(*outcome) is None,
            },
    {
        match outcome {
            Ok(()) => match &self.bond {
                Some(b) => Some((&b.identity, b.withdrawal_requested_at)),
                None => None,
            },
            Err(_) => None,
        }
    }

    /// Starts a new term at ledger time `now` when the bond is rolling and its
    /// term ended before `now`, dropping any pending withdrawal request.
    /// Answers whether the bond was renewed; otherwise nothing changes.
    pub fn renew_if_rolling(&mut self, now: u64) -> (r: Result<bool, BondError>)
        ensures
            renewal_settled(*old(self), *final(self), r, now),
    {
        match &mut self.bond {
            None => Err(BondError::NoBond),
            Some(bond) => {
                if !bond.is_rolling {
                    return Ok(false);
                }
                let end = bond.bond_start.saturating_add(bond.bond_duration);
                if now <= end {
                    return Ok(false);
                }
                bond.bond_start = now;
                bond.withdrawal_requested_at = 0;
                Ok(true)
            },
        }
    }
}

} // verus!
