//! The covenant's cross-cutting guarantees, each proved once and for all:
//! how the classifier reads the shapes the builders produce, and what the
//! CTV commitment depends on.

use vstd::prelude::*;
use crate::tx::{OutPoint, Transaction, TxOut, DUST_MARKER_SATS};
use crate::encode::le64;
use crate::state::{classify_spec, VaultState};
use crate::covenant::{
    ctv_commitment_bytes, ctv_hash_spec, ctv_template_outputs, ctv_template_sequences,
    ctv_trigger_leaves, ctv_trigger_script, ctv_tx_commitment_bytes, vault_script, VaultCovenant,
};
use crate::crypto::sha256_of;
use crate::sighash::{outputs_blob, sequences_blob};
use crate::builders::{built_cancel_tx, built_complete_tx, built_ctv_trigger_tx, built_trigger_tx};
use crate::tx::TxIn;

verus! {

/// Among transactions with exactly two outputs, the classifier answers
/// Triggered exactly when the second output's value is the dust marker,
/// whatever address it is tested against.
pub proof fn lemma_two_output_classification(tx: Transaction, vault_spk: Seq<u8>)
    requires
        tx.output@.len() == 2,
    ensures
        (classify_spec(tx, vault_spk) == VaultState::Triggered) == (tx.output@[1].value
            == DUST_MARKER_SATS),
{
}

/// Among transactions with exactly one output, the classifier answers
/// Completed exactly when that output's script differs from the vault's, and
/// Inactive exactly when it matches.
pub proof fn lemma_one_output_classification(tx: Transaction, vault_spk: Seq<u8>)
    requires
        tx.output@.len() == 1,
    ensures
        (classify_spec(tx, vault_spk) == VaultState::Completed) == (tx.output@[0].script_pubkey@
            != vault_spk),
        (classify_spec(tx, vault_spk) == VaultState::Inactive) == (tx.output@[0].script_pubkey@
            == vault_spk),
{
}

/// The CTV commitment hash depends only on the vault's amount, its internal
/// key and its two CTV spending leaves: two covenants that agree on those
/// agree on the hash, however often it is recomputed.
pub proof fn lemma_ctv_hash_deterministic(c1: VaultCovenant, c2: VaultCovenant)
    requires
        c1.amount == c2.amount,
        c1.nums_key@ == c2.nums_key@,
        c1.complete_script@ == c2.complete_script@,
        c1.cancel_script@ == c2.cancel_script@,
    ensures
        ctv_hash_spec(c1) == ctv_hash_spec(c2),
{
    assert(ctv_trigger_leaves(c1) =~= ctv_trigger_leaves(c2));
}

/// Eight little-endian bytes determine their value.
pub proof fn lemma_le64_injective(a: u64, b: u64)
    requires
        a != b,
    ensures
        le64(a) != le64(b),
{
    if le64(a) == le64(b) {
        assert(le64(a)[0] == le64(b)[0]);
        assert(le64(a)[1] == le64(b)[1]);
        assert(le64(a)[2] == le64(b)[2]);
        assert(le64(a)[3] == le64(b)[3]);
        assert(le64(a)[4] == le64(b)[4]);
        assert(le64(a)[5] == le64(b)[5]);
        assert(le64(a)[6] == le64(b)[6]);
        assert(le64(a)[7] == le64(b)[7]);
        assert(((a & 0xff) as u8 == (b & 0xff) as u8 && ((a >> 8) & 0xff) as u8 == ((b >> 8)
            & 0xff) as u8 && ((a >> 16) & 0xff) as u8 == ((b >> 16) & 0xff) as u8 && ((a >> 24)
            & 0xff) as u8 == ((b >> 24) & 0xff) as u8 && ((a >> 32) & 0xff) as u8 == ((b >> 32)
            & 0xff) as u8 && ((a >> 40) & 0xff) as u8 == ((b >> 40) & 0xff) as u8 && ((a >> 48)
            & 0xff) as u8 == ((b >> 48) & 0xff) as u8 && ((a >> 56) & 0xff) as u8 == ((b >> 56)
            & 0xff) as u8) ==> a == b) by (bit_vector);
    }
}

/// Changing the vault amount changes the output bytes the CTV template
/// commits to: the hash preimages of the two commitments differ. (That the
/// digests themselves then differ is collision resistance, checked by test
/// on concrete values, not provable of an abstract hash.)
pub proof fn lemma_ctv_amount_changes_committed_outputs(
    trigger_spk: Seq<u8>,
    amount1: u64,
    amount2: u64,
)
    requires
        amount1 != amount2,
    ensures
        ctv_template_outputs(trigger_spk, amount1) != ctv_template_outputs(trigger_spk, amount2),
{
    lemma_le64_injective(amount1, amount2);
    let o1 = ctv_template_outputs(trigger_spk, amount1);
    let o2 = ctv_template_outputs(trigger_spk, amount2);
    if o1 == o2 {
        assert(o1.subrange(0, 8) =~= le64(amount1));
        assert(o2.subrange(0, 8) =~= le64(amount2));
    }
}

/// Round trip: a transaction the trigger builder returns is classified as
/// Triggered, against any address — in particular against the vault's own
/// Inactive-phase address.
pub proof fn lemma_trigger_then_classify(
    c: VaultCovenant,
    t: Transaction,
    fee_utxo: OutPoint,
    fee_out: TxOut,
    target_spk: Seq<u8>,
    tested_spk: Seq<u8>,
)
    requires
        built_trigger_tx(c, t, fee_utxo, fee_out, target_spk),
    ensures
        classify_spec(t, tested_spk) == VaultState::Triggered,
{
}

/// Round trip: a transaction the complete builder returns is classified as
/// Completed against any address whose script the withdrawal target differs
/// from — in particular the vault's own — and its vault input's sequence
/// encodes a relative delay of at least the vault's configured timelock, as
/// a plain block count.
pub proof fn lemma_complete_then_classify(
    c: VaultCovenant,
    t: Transaction,
    fee_utxo: OutPoint,
    fee_out: TxOut,
    target_spk: Seq<u8>,
    trig: Transaction,
    tested_spk: Seq<u8>,
)
    requires
        built_complete_tx(c, t, fee_utxo, fee_out, target_spk, trig),
        target_spk != tested_spk,
    ensures
        classify_spec(t, tested_spk) == VaultState::Completed,
        c.timelock_in_blocks <= t.input@[0].sequence <= 0xffff,
{
}

/// The transaction the CTV trigger builder returns commits to exactly the
/// bytes whose digest the deposit leaf embedded: its version, locktime,
/// counts, sequences hash and outputs hash reassemble to the covenant's own
/// template commitment, so the pre-committed hash check passes on the built
/// spend.
pub proof fn lemma_ctv_trigger_matches_commitment(
    c: VaultCovenant,
    t: Transaction,
    fee_utxo: OutPoint,
)
    requires
        built_ctv_trigger_tx(c, t, fee_utxo),
    ensures
        sha256_of(ctv_tx_commitment_bytes(t)) == ctv_hash_spec(c),
{
    assert(sequences_blob(t.input@) =~= ctv_template_sequences()) by {
        reveal_with_fuel(sequences_blob, 3);
        assert(t.input@.drop_last().drop_last() =~= Seq::<TxIn>::empty());
        assert(t.input@.drop_last().last() == t.input@[0]);
    }
    assert(outputs_blob(t.output@) =~= ctv_template_outputs(ctv_trigger_script(c), c.amount))
        by {
        reveal_with_fuel(outputs_blob, 2);
        assert(t.output@.drop_last() =~= Seq::<crate::tx::TxOut>::empty());
        assert(crate::tx::txout_view(t.output@[0]) == (c.amount, ctv_trigger_script(c)));
    }
    assert(ctv_tx_commitment_bytes(t) =~= ctv_commitment_bytes(
        ctv_trigger_script(c), c.amount));
}

/// The vault's own address depends only on its scheme, its internal key and
/// its leaf scripts: recomputing it from the same material always yields the
/// same script.
pub proof fn lemma_vault_address_deterministic(c1: VaultCovenant, c2: VaultCovenant)
    requires
        c1.vault_type == c2.vault_type,
        c1.nums_key@ == c2.nums_key@,
        c1.trigger_script@ == c2.trigger_script@,
        c1.complete_script@ == c2.complete_script@,
        c1.cancel_script@ == c2.cancel_script@,
        c1.deposit_script@ == c2.deposit_script@,
    ensures
        vault_script(c1) == vault_script(c2),
{
    assert(crate::covenant::vault_leaves(c1) =~= crate::covenant::vault_leaves(c2));
}

/// A cancel transaction always has a single output, and its script is the
/// vault's own Inactive-phase address script, recomputed from the same key
/// material and leaves; classified against that address the transaction
/// reads as Inactive — funds are back where a fresh vault holds them.
pub proof fn lemma_cancel_pays_vault(
    c: VaultCovenant,
    t: Transaction,
    fee_utxo: OutPoint,
    fee_out: TxOut,
)
    requires
        built_cancel_tx(c, t, fee_utxo, fee_out),
    ensures
        t.output@.len() == 1,
        t.output@[0].script_pubkey@ == vault_script(c),
        classify_spec(t, vault_script(c)) == VaultState::Inactive,
{
    assert(crate::tx::txout_view(t.output@[0]).1 == vault_script(c));
}

} // verus!
