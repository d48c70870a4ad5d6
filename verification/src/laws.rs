//! Properties of the bond contract that span several calls.
use crate::bond::{
    created_bond, extended, renewal_due, renewed, term_end, topped_up, with_withdrawal_request,
    withdrawn, BondError, IdentityBond,
};
use crate::contract::{renewal_settled, settled, CredenceBond};
use soroban_sdk::Address;
use vstd::prelude::*;

verus! {

/// Reading the bond right after creating it gives back exactly the created
/// bond: the given owner, amount, duration, rolling flag and notice period,
/// a term starting at the creation time and no withdrawal request.
pub proof fn read_after_create(
    contract: CredenceBond,
    identity: Address,
    amount: i128,
    duration: u64,
    is_rolling: bool,
    notice_period_duration: u64,
    now: u64,
)
    ensures
        contract.with_bond(
            created_bond(identity, amount, duration, is_rolling, notice_period_duration, now),
        ).stored_bond() == Ok::<IdentityBond, BondError>(
            created_bond(identity, amount, duration, is_rolling, notice_period_duration, now),
        ),
{
}

/// Every call on the bond that succeeds keeps its owner, its rolling flag and
/// its notice period.
pub proof fn bond_calls_keep_owner_and_terms(bond: IdentityBond, amount: i128, duration: u64, now: u64)
    ensures
        withdrawn(bond, amount) matches Ok(b) ==> b.identity == bond.identity
            && b.is_rolling == bond.is_rolling && b.notice_period_duration == bond.notice_period_duration,
        topped_up(bond, amount) matches Ok(b) ==> b.identity == bond.identity
            && b.is_rolling == bond.is_rolling && b.notice_period_duration == bond.notice_period_duration,
        extended(bond, duration) matches Ok(b) ==> b.identity == bond.identity
            && b.is_rolling == bond.is_rolling && b.notice_period_duration == bond.notice_period_duration,
        with_withdrawal_request(bond, now) matches Ok(b) ==> b.identity == bond.identity
            && b.is_rolling == bond.is_rolling && b.notice_period_duration == bond.notice_period_duration,
        renewed(bond, now).identity == bond.identity && renewed(bond, now).is_rolling == bond.is_rolling
            && renewed(bond, now).notice_period_duration == bond.notice_period_duration,
{
}

/// A withdrawal that succeeds never leaves a negative bonded amount.
pub proof fn withdrawal_leaves_no_debt(bond: IdentityBond, amount: i128)
    ensures
        withdrawn(bond, amount) matches Ok(b) ==> b.bonded_amount >= 0,
{
}

/// Topping up the amount just withdrawn always succeeds and restores the bond.
pub proof fn top_up_undoes_withdraw(bond: IdentityBond, amount: i128)
    ensures
        withdrawn(bond, amount) matches Ok(b) ==> topped_up(b, amount) == Ok::<IdentityBond, BondError>(bond),
{
    if let Ok(b) = withdrawn(bond, amount) {
        assert(topped_up(b, amount) == Ok::<IdentityBond, BondError>(bond));
    }
}

/// On a bond whose amount is not negative, withdrawing the amount just topped
/// up always succeeds and restores the bond.
pub proof fn withdraw_undoes_top_up(bond: IdentityBond, amount: i128)
    requires
        bond.bonded_amount >= 0,
    ensures
        topped_up(bond, amount) matches Ok(b) ==> withdrawn(b, amount) == Ok::<IdentityBond, BondError>(bond),
{
    if let Ok(b) = topped_up(bond, amount) {
        assert(withdrawn(b, amount) == Ok::<IdentityBond, BondError>(bond));
    }
}

/// Two extensions that succeed lengthen the term as one extension by their
/// sum does.
pub proof fn extensions_add_up(bond: IdentityBond, first: u64, second: u64)
    ensures
        extended(bond, first) matches Ok(b1) ==> (extended(b1, second) matches Ok(b2) ==> {
            &&& first + second <= u64::MAX
            &&& extended(bond, (first + second) as u64) == Ok::<IdentityBond, BondError>(b2)
        }),
{
    if let Ok(b1) = extended(bond, first) {
        if let Ok(b2) = extended(b1, second) {
            assert(extended(bond, (first + second) as u64) == Ok::<IdentityBond, BondError>(b2));
        }
    }
}

/// Once a withdrawal request is recorded at a time other than 0, a second
/// request is refused as already made.
pub proof fn withdrawal_requested_once(bond: IdentityBond, now: u64, later: u64)
    requires
        now != 0,
    ensures
        with_withdrawal_request(bond, now) matches Ok(b) ==> with_withdrawal_request(b, later)
            == Err::<IdentityBond, BondError>(BondError::WithdrawalAlreadyRequested),
{
}

/// A bond renewed at `now` is not due for renewal again at `now`: renewing
/// twice at the same ledger time changes the bond once.
pub proof fn renewal_is_idempotent(bond: IdentityBond, now: u64)
    ensures
        !renewal_due(renewed(bond, now), now),
{
}

/// A renewal only happens after the current term ended, and the new term
/// runs at least until the renewal time.
pub proof fn renewal_follows_term_end(bond: IdentityBond, now: u64)
    ensures
        renewal_due(bond, now) ==> term_end(bond) < now,
        term_end(renewed(bond, now)) >= now,
{
}

/// Every call on the bond keeps the administrator. A call that succeeds makes
/// its outcome the bond that the next read gives back; a refused call reports
/// the outcome's error and leaves the contract exactly as it was.
pub proof fn bond_calls_commit_or_change_nothing(
    before: CredenceBond,
    after: CredenceBond,
    r: Result<(), BondError>,
    outcome: Result<IdentityBond, BondError>,
)
    requires
        settled(before, after, r, outcome),
    ensures
        after.admin == before.admin,
        r is Ok ==> after.stored_bond() == outcome,
        r is Err ==> after == before && outcome == Err::<IdentityBond, BondError>(r->Err_0),
{
}

/// A withdrawal request publishes its event exactly when it succeeds, naming
/// the bond owner and the request time.
pub proof fn withdrawal_event_on_success_only(
    before: CredenceBond,
    after: CredenceBond,
    r: Result<(), BondError>,
    now: u64,
)
    requires
        settled(before, after, r, before.after_request_withdrawal(now)),
    ensures
        after.withdrawal_event(r) == match before.bond {
            Some(b) => if r is Ok {
                Some((b.identity, now))
            } else {
                None::<(Address, u64)>
            },
            None => None::<(Address, u64)>,
        },
        r is Ok <==> after.withdrawal_event(r) is Some,
{
}

/// A new bond holds exactly what it was created with: the given owner,
/// amount, duration, rolling flag and notice period, a term starting at the
/// creation time, and no withdrawal request; so a new rolling bond accepts a
/// withdrawal request at any later time, recording that time.
pub proof fn created_bond_is_fresh(
    before: CredenceBond,
    after: CredenceBond,
    identity: Address,
    amount: i128,
    duration: u64,
    is_rolling: bool,
    notice_period_duration: u64,
    now: u64,
    later: u64,
)
    requires
        after == before.with_bond(
            created_bond(identity, amount, duration, is_rolling, notice_period_duration, now),
        ),
    ensures
        after.admin == before.admin,
        after.bond matches Some(b) && {
            &&& b.identity == identity
            &&& b.bonded_amount == amount
            &&& b.bond_start == now
            &&& b.bond_duration == duration
            &&& b.is_rolling == is_rolling
            &&& b.withdrawal_requested_at == 0
            &&& b.notice_period_duration == notice_period_duration
        },
        is_rolling ==> (after.after_request_withdrawal(later) matches Ok(b)
            && b.withdrawal_requested_at == later && b.bond_start == now),
{
}

/// A withdrawal succeeds exactly when the amount is at most the bonded amount
/// and the difference fits in an `i128`, whatever the term or a pending
/// withdrawal request; it then lowers the bonded amount by `amount` and
/// changes nothing else. Otherwise it is refused, leaving the contract as it
/// was: `NoBond`, `InsufficientBalance` for an amount above the balance,
/// `WithdrawalUnderflow` when the difference is too large.
pub proof fn withdraw_moves_only_the_amount(
    before: CredenceBond,
    after: CredenceBond,
    r: Result<(), BondError>,
    amount: i128,
)
    requires
        settled(before, after, r, before.after_withdraw(amount)),
    ensures
        before.bond is None ==> r == Err::<(), BondError>(BondError::NoBond) && after == before,
        before.bond matches Some(b) ==> {
            if amount > b.bonded_amount {
                r == Err::<(), BondError>(BondError::InsufficientBalance) && after == before
            } else if b.bonded_amount - amount > i128::MAX {
                r == Err::<(), BondError>(BondError::WithdrawalUnderflow) && after == before
            } else {
                &&& r == Ok::<(), BondError>(())
                &&& after.admin == before.admin
                &&& after.bond matches Some(n) && {
                    &&& n.bonded_amount == b.bonded_amount - amount
                    &&& n.identity == b.identity
                    &&& n.bond_start == b.bond_start
                    &&& n.bond_duration == b.bond_duration
                    &&& n.is_rolling == b.is_rolling
                    &&& n.withdrawal_requested_at == b.withdrawal_requested_at
                    &&& n.notice_period_duration == b.notice_period_duration
                }
            }
        },
{
}

/// A top-up succeeds exactly when the sum fits in an `i128`, whatever the
/// term or a pending withdrawal request; it then raises the bonded amount by
/// `amount` and changes nothing else. Otherwise it is refused with
/// `TopUpOverflow` (or `NoBond`), leaving the contract as it was.
pub proof fn top_up_moves_only_the_amount(
    before: CredenceBond,
    after: CredenceBond,
    r: Result<(), BondError>,
    amount: i128,
)
    requires
        settled(before, after, r, before.after_top_up(amount)),
    ensures
        before.bond is None ==> r == Err::<(), BondError>(BondError::NoBond) && after == before,
        before.bond matches Some(b) ==> {
            if b.bonded_amount + amount < i128::MIN || b.bonded_amount + amount > i128::MAX {
                r == Err::<(), BondError>(BondError::TopUpOverflow) && after == before
            } else {
                &&& r == Ok::<(), BondError>(())
                &&& after.admin == before.admin
                &&& after.bond matches Some(n) && {
                    &&& n.bonded_amount == b.bonded_amount + amount
                    &&& n.identity == b.identity
                    &&& n.bond_start == b.bond_start
                    &&& n.bond_duration == b.bond_duration
                    &&& n.is_rolling == b.is_rolling
                    &&& n.withdrawal_requested_at == b.withdrawal_requested_at
                    &&& n.notice_period_duration == b.notice_period_duration
                }
            }
        },
{
}

/// An extension succeeds exactly when the new duration fits in a `u64`, for
/// rolling and fixed bonds alike; it then lengthens the term by `additional`
/// and changes nothing else. Otherwise it is refused with `DurationOverflow`
/// (or `NoBond`), leaving the contract as it was.
pub proof fn extension_lengthens_any_bond(
    before: CredenceBond,
    after: CredenceBond,
    r: Result<(), BondError>,
    additional: u64,
)
    requires
        settled(before, after, r, before.after_extend_duration(additional)),
    ensures
        before.bond is None ==> r == Err::<(), BondError>(BondError::NoBond) && after == before,
        before.bond matches Some(b) ==> {
            if b.bond_duration + additional > u64::MAX {
                r == Err::<(), BondError>(BondError::DurationOverflow) && after == before
            } else {
                &&& r == Ok::<(), BondError>(())
                &&& after.admin == before.admin
                &&& after.bond matches Some(n) && {
                    &&& n.bond_duration == b.bond_duration + additional
                    &&& n.identity == b.identity
                    &&& n.bonded_amount == b.bonded_amount
                    &&& n.bond_start == b.bond_start
                    &&& n.is_rolling == b.is_rolling
                    &&& n.withdrawal_requested_at == b.withdrawal_requested_at
                    &&& n.notice_period_duration == b.notice_period_duration
                }
            }
        },
{
}

/// A withdrawal request is refused only on a fixed bond (`NotRolling`) or
/// when a request is already recorded (`WithdrawalAlreadyRequested`), or
/// when there is no bond; a refusal leaves the contract as it was. On a
/// rolling bond with no request it succeeds at any time, before or after the
/// term ends, recording `now` and changing nothing else.
pub proof fn withdrawal_request_depends_only_on_flag_and_request(
    before: CredenceBond,
    after: CredenceBond,
    r: Result<(), BondError>,
    now: u64,
)
    requires
        settled(before, after, r, before.after_request_withdrawal(now)),
    ensures
        before.bond is None ==> r == Err::<(), BondError>(BondError::NoBond) && after == before,
        before.bond matches Some(b) ==> {
            if !b.is_rolling {
                r == Err::<(), BondError>(BondError::NotRolling) && after == before
            } else if b.withdrawal_requested_at != 0 {
                r == Err::<(), BondError>(BondError::WithdrawalAlreadyRequested) && after == before
            } else {
                &&& r == Ok::<(), BondError>(())
                &&& after.admin == before.admin
                &&& after.bond matches Some(n) && {
                    &&& n.withdrawal_requested_at == now
                    &&& n.identity == b.identity
                    &&& n.bonded_amount == b.bonded_amount
                    &&& n.bond_start == b.bond_start
                    &&& n.bond_duration == b.bond_duration
                    &&& n.is_rolling == b.is_rolling
                    &&& n.notice_period_duration == b.notice_period_duration
                }
            }
        },
{
}

/// A rolling bond whose term (start plus duration) ended before `now` is
/// always renewed: the call answers `true`, the new term starts at `now` and
/// any withdrawal request is dropped, whatever the request time or notice
/// period, and nothing else changes. Any other bond (fixed, or with a term
/// reaching `now`, including a term whose end passes `u64::MAX`) is left as
/// it was and the call answers `false`.
pub proof fn expired_rolling_bond_always_renews(
    before: CredenceBond,
    after: CredenceBond,
    r: Result<bool, BondError>,
    now: u64,
)
    requires
        renewal_settled(before, after, r, now),
    ensures
        before.bond is None ==> r == Err::<bool, BondError>(BondError::NoBond) && after == before,
        before.bond matches Some(b) ==> {
            if b.is_rolling && now > b.bond_start + b.bond_duration {
                &&& r == Ok::<bool, BondError>(true)
                &&& after.admin == before.admin
                &&& after.bond matches Some(n) && {
                    &&& n.bond_start == now
                    &&& n.withdrawal_requested_at == 0
                    &&& n.identity == b.identity
                    &&& n.bonded_amount == b.bonded_amount
                    &&& n.bond_duration == b.bond_duration
                    &&& n.is_rolling == b.is_rolling
                    &&& n.notice_period_duration == b.notice_period_duration
                }
            } else {
                r == Ok::<bool, BondError>(false) && after == before
            }
        },
{
}

} // verus!
