//! The two external collaborators the covenant consumes, as interfaces: the
//! script factory, which turns a key, a timelock or a committed hash into the
//! bytes of one spending leaf, and the signature engine, which reassembles a
//! covenant-encoding signature from decomposed message components. Neither
//! interface promises anything: every result is checked or carried opaquely
//! by the verified callers.

use vstd::prelude::*;

verus! {

/// The malleable transaction field that the grinding search varies.
#[derive(Clone, Copy, PartialEq, Eq, Structural, Debug)]
pub enum GrindField {
    LockTime,
    Sequence,
}

/// Produces the script bytes of each spending leaf. One method per leaf kind;
/// keys are 32 x-only bytes, the committed hash is 32 bytes.
pub trait ScriptFactory {
    /// The CAT trigger-withdrawal leaf for a vault key.
    fn trigger_leaf(&self, pubkey: &Vec<u8>) -> Vec<u8>;

    /// The CAT complete-withdrawal leaf for a vault key and a relative
    /// timelock in blocks.
    fn complete_leaf(&self, pubkey: &Vec<u8>, timelock_in_blocks: u16) -> Vec<u8>;

    /// The CAT cancel-withdrawal leaf for a vault key.
    fn cancel_leaf(&self, pubkey: &Vec<u8>) -> Vec<u8>;

    /// The CTV deposit leaf embedding a 32-byte template commitment hash.
    fn ctv_deposit_leaf(&self, template_hash: &Vec<u8>) -> Vec<u8>;

    /// The CTV complete-withdrawal leaf for a vault key and a relative
    /// timelock in blocks.
    fn ctv_complete_leaf(&self, pubkey: &Vec<u8>, timelock_in_blocks: u16) -> Vec<u8>;

    /// The CTV cancel-withdrawal leaf for a vault key.
    fn ctv_cancel_leaf(&self, pubkey: &Vec<u8>) -> Vec<u8>;
}

/// Reassembles the covenant-encoding signature from the ordered signature
/// message components of a transaction. The grinding search calls this once
/// per candidate transaction and keeps the first whose signature's final
/// byte satisfies the covenant constraint.
pub trait SignatureEngine {
    /// The 64-byte signature reconstructed from the given components.
    fn reassemble(&self, components: &Vec<Vec<u8>>) -> Vec<u8>;
}

} // verus!
