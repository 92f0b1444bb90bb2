//! The vault's lifecycle states and the shape-based classifier that infers
//! the state from an observed on-chain transaction.

use vstd::prelude::*;
use crate::tx::{Address, Transaction, DUST_MARKER_SATS};

verus! {

/// The lifecycle phase of a vault.
#[derive(Clone, Copy, PartialEq, Eq, Structural, Debug)]
pub enum VaultState {
    Inactive,
    Triggered,
    Completed,
}

/// The covenant-emulation scheme a vault uses.
#[derive(Clone, Copy, PartialEq, Eq, Structural, Debug)]
pub enum VaultType {
    CAT,
    CTV,
}

/// The chain a vault lives on. The covenant's logic is chain-independent;
/// the field rides along so address encoders outside the core know which
/// prefix to use.
#[derive(Clone, Copy, PartialEq, Eq, Structural, Debug)]
pub enum Network {
    Bitcoin,
    Testnet,
    Signet,
    Regtest,
}

/// The state that the classifier reads from a transaction's shape, tested
/// against the vault's own script for the phase in question. In order: a
/// transaction with exactly two outputs whose second output carries exactly
/// the dust-marker value is a trigger; else a transaction with exactly one
/// output paying a script other than the vault's has completed a withdrawal;
/// everything else leaves the vault inactive.
pub open spec fn classify_spec(tx: Transaction, vault_script: Seq<u8>) -> VaultState {
    if tx.output@.len() == 2 && tx.output@[1].value == DUST_MARKER_SATS {
        VaultState::Triggered
    } else if tx.output@.len() == 1 && tx.output@[0].script_pubkey@ != vault_script {
        VaultState::Completed
    } else {
        VaultState::Inactive
    }
}

/// Infers the vault state from an observed transaction and the vault's own
/// address for the phase being tested.
pub fn classify_transaction(tx: &Transaction, vault_address: &Address) -> (r: VaultState)
    ensures
        r == classify_spec(*tx, vault_address.script_pubkey@),
{
    if tx.output.len() == 2 && tx.output[1].value == DUST_MARKER_SATS {
        VaultState::Triggered
    } else if tx.output.len() == 1
        && !crate::tx::bytes_eq(&tx.output[0].script_pubkey, &vault_address.script_pubkey) {
        VaultState::Completed
    } else {
        VaultState::Inactive
    }
}

} // verus!
