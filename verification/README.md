# credence_bond

The Credence identity bond contract for Soroban: an identity locks an amount
for a duration, may top it up, withdraw from it, lengthen it, and, for a
rolling bond, request a withdrawal or have the bond renewed once a term ends.

- `src/` holds the rules, verified with Verus: `bond.rs` (the stored bond, the
  storage keys, the refusals and what each call makes of a bond),
  `contract.rs` (the contract's stored state and its calls), `laws.rs`
  (properties across calls), `address.rs` (the host's address type, carried
  unopened).
- `app/` is the Soroban contract itself: it reads and writes instance storage,
  asks the host to check the authorizations, reads the ledger time and
  publishes the withdrawal request event that `src/` hands it
  (`CredenceBond::requested_withdrawal_event`). Which address must sign a call on
  the bond is decided in `src/` (`CredenceBond::required_signer`); the
  administrator and a new bond's identity sign the calls that name them.
- `tests/` runs the rules on concrete bonds.
