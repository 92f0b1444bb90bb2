//! The transaction builders: trigger, complete and cancel for the CAT
//! scheme, and the trigger and cancel spends of the CTV scheme, each with its
//! bit-exact witness stack. The grinding search that makes a CAT signature
//! encodable lives here too.

use vstd::prelude::*;
use crate::tx::{
    clone_bytes, clone_outpoint, clone_txout, outpoint_view, txout_view, Address, OutPoint,
    Transaction, TxIn, TxOut, DUST_MARKER_SATS, SEQUENCE_ENABLE_RBF_NO_LOCKTIME, SEQUENCE_FINAL,
};
use crate::encode::{
    encode_inputs, encode_outpoint, encode_script, le32, le64, inputs_encoding, outpoint_encoding,
    script_encoding, u32_le_bytes, u64_le_bytes,
};
use crate::crypto::{
    is_seckey, pubkey_of, schnorr_verifies, sha256_of, tagged_hash_of, tapsighash_tag,
};
use crate::sighash::{
    bytes_views, full_sigmsg, get_sigmsg_components, outpoints_blob, outputs_blob,
    scriptpath_component, sequences_blob, TxCommitmentSpec, SIGHASH_ALL, SIGHASH_DEFAULT,
    SPEND_TYPE_SCRIPT_PATH,
};
use crate::taproot::tapleaf_hash_of;
use crate::taproot::tapleaf_hash;
use crate::covenant::{GRIND_LIMIT, VaultCovenant, VaultError};
use crate::engine::{GrindField, SignatureEngine};

verus! {

/// The commitment mask of the trigger and cancel protocols: the script
/// reconstructs the spent amounts, the spent scripts, the outputs and the
/// input index from explicit witness pushes, so those components are
/// disabled.
pub fn trigger_commitment_mask() -> (r: TxCommitmentSpec)
    ensures
        r == (TxCommitmentSpec {
            prev_amounts: false,
            prev_scriptpubkeys: false,
            outputs: false,
            input_index: false,
            ..crate::sighash::spec_all()
        }),
{
    let mut cs = TxCommitmentSpec::all();
    cs.prev_amounts = false;
    cs.prev_scriptpubkeys = false;
    cs.outputs = false;
    cs.input_index = false;
    cs
}

/// The commitment mask of the complete protocol: the script reconstructs the
/// spent outpoints and the outputs from explicit witness pushes, so those
/// components are disabled.
pub fn complete_commitment_mask() -> (r: TxCommitmentSpec)
    ensures
        r == (TxCommitmentSpec { prevouts: false, outputs: false, ..crate::sighash::spec_all() }),
{
    let mut cs = TxCommitmentSpec::all();
    cs.prevouts = false;
    cs.outputs = false;
    cs
}

/// The signature-message components a trigger or cancel witness opens with:
/// epoch, hash type, version, locktime, prevouts hash, sequences hash, spend
/// type, script-path extension.
pub open spec fn trigger_witness_components(ground: Transaction, leaf_script: Seq<u8>) -> Seq<
    Seq<u8>,
> {
    seq![
        seq![0u8],
        seq![SIGHASH_DEFAULT],
        le32(ground.version),
        le32(ground.lock_time),
        sha256_of(outpoints_blob(ground.input@)),
        sha256_of(sequences_blob(ground.input@)),
        seq![SPEND_TYPE_SCRIPT_PATH],
        scriptpath_component(tapleaf_hash_of(leaf_script)),
    ]
}

/// The signature-message components a complete witness opens with: epoch,
/// hash type, version, locktime, spent-amounts hash, spent-scripts hash,
/// sequences hash, spend type, input index, script-path extension. The two
/// spent outputs are the vault output and the fee-paying output.
pub open spec fn complete_witness_components(
    ground: Transaction,
    amount: u64,
    vault_spk: Seq<u8>,
    fee_out: (u64, Seq<u8>),
    leaf_script: Seq<u8>,
) -> Seq<Seq<u8>> {
    seq![
        seq![0u8],
        seq![SIGHASH_DEFAULT],
        le32(ground.version),
        le32(ground.lock_time),
        sha256_of(le64(amount) + le64(fee_out.0)),
        sha256_of(encode_script(vault_spk) + encode_script(fee_out.1)),
        sha256_of(sequences_blob(ground.input@)),
        seq![SPEND_TYPE_SCRIPT_PATH],
        le32(0u32),
        scriptpath_component(tapleaf_hash_of(leaf_script)),
    ]
}

/// The full signature message that the vault's own witness signature
/// authenticates: every component with the explicit all-inputs-all-outputs
/// sighash type, the two spent outputs being the vault prevout and the
/// fee-paying prevout.
pub open spec fn vault_input_sigmsg(
    t: Transaction,
    vault_prevout: (u64, Seq<u8>),
    fee_out: (u64, Seq<u8>),
    leaf_script: Seq<u8>,
) -> Seq<u8> {
    seq![0u8] + seq![SIGHASH_ALL] + le32(t.version) + le32(t.lock_time) + sha256_of(
        outpoints_blob(t.input@),
    ) + sha256_of(le64(vault_prevout.0) + le64(fee_out.0)) + sha256_of(
        encode_script(vault_prevout.1) + encode_script(fee_out.1),
    ) + sha256_of(sequences_blob(t.input@)) + sha256_of(outputs_blob(t.output@)) + seq![
        SPEND_TYPE_SCRIPT_PATH,
    ] + le32(0u32) + scriptpath_component(tapleaf_hash_of(leaf_script))
}

/// Whether `ss` is the vault's witness signature for the spend `t` of the
/// given vault prevout and leaf: 65 bytes, the all-type suffix byte, and 64
/// signature bytes verifying under the vault's key over the spend's
/// signature hash.
pub open spec fn vault_signature_ok(
    c: VaultCovenant,
    t: Transaction,
    vault_prevout: (u64, Seq<u8>),
    fee_out: (u64, Seq<u8>),
    leaf_script: Seq<u8>,
    ss: Seq<u8>,
) -> bool {
    &&& ss.len() == 65
    &&& ss[64] == SIGHASH_ALL
    &&& schnorr_verifies(
        ss.take(64),
        pubkey_of(c.seckey@),
        tagged_hash_of(
            tapsighash_tag(),
            vault_input_sigmsg(t, vault_prevout, fee_out, leaf_script),
        ),
    )
}

/// The bytes of a consensus encoding split into pushes of at most 80 bytes,
/// since script policy caps the size of a single push.
pub open spec fn chunks80(s: Seq<u8>) -> Seq<Seq<u8>>
    decreases s.len(),
{
    if s.len() <= 80 {
        seq![s]
    } else {
        seq![s.take(80)] + chunks80(s.skip(80))
    }
}

/// A copy of `v[from..to]`.
pub fn subvec(v: &Vec<u8>, from: usize, to: usize) -> (r: Vec<u8>)
    requires
        from <= to <= v@.len(),
    ensures
        r@ == v@.subrange(from as int, to as int),
{
    let mut r: Vec<u8> = Vec::new();
    let mut i: usize = from;
    while i < to
        invariant
            from <= i <= to <= v@.len(),
            r@ == v@.subrange(from as int, i as int),
        decreases to - i,
    {
        r.push(v[i]);
        proof {
            assert(v@.subrange(from as int, i + 1 as int) =~= v@.subrange(
                from as int, i as int).push(v@[i as int]));
        }
        i = i + 1;
    }
    r
}

/// Appends `buf` to the witness in pushes of at most 80 bytes each.
fn push_chunks(w: &mut Vec<Vec<u8>>, buf: &Vec<u8>)
    requires
        buf@.len() >= 1,
    ensures
        bytes_views(final(w)@) == bytes_views(old(w)@) + chunks80(buf@),
{
    let ghost base = bytes_views(w@);
    let ghost mut pc: Seq<Seq<u8>> = Seq::empty();
    let mut offset: usize = 0;
    proof {
        assert(buf@.skip(0) =~= buf@);
    }
    while buf.len() - offset > 80
        invariant
            offset < buf@.len(),
            base == bytes_views(old(w)@),
            bytes_views(w@) == base + pc,
            chunks80(buf@) == pc + chunks80(buf@.skip(offset as int)),
        decreases buf@.len() - offset,
    {
        let chunk = subvec(buf, offset, offset + 80);
        proof {
            crate::sighash::lemma_views_push(w@, chunk);
            assert(buf@.skip(offset as int).take(80) =~= chunk@);
            assert(buf@.skip(offset as int).skip(80) =~= buf@.skip(offset + 80 as int));
            assert(base + pc.push(chunk@) =~= (base + pc).push(chunk@));
            assert(chunks80(buf@) =~= (pc + seq![chunk@]) + chunks80(
                buf@.skip(offset + 80 as int)));
            assert(pc.push(chunk@) =~= pc + seq![chunk@]);
            pc = pc.push(chunk@);
        }
        w.push(chunk);
        offset = offset + 80;
    }
    let chunk = subvec(buf, offset, buf.len());
    proof {
        crate::sighash::lemma_views_push(w@, chunk);
        assert(buf@.skip(offset as int) =~= chunk@);
        assert(chunks80(buf@.skip(offset as int)) =~= seq![chunk@]);
        assert(base + pc.push(chunk@) =~= (base + pc).push(chunk@));
        assert(pc.push(chunk@) =~= pc + seq![chunk@]);
        assert(chunks80(buf@) =~= pc + seq![chunk@]);
        pc = pc.push(chunk@);
    }
    w.push(chunk);
    proof {
        assert(bytes_views(w@) =~= base + chunks80(buf@));
    }
}

/// One step of the grinding search: the result transaction differs from the
/// skeleton only in the grind field of the vault input.
pub open spec fn grind_adjusted(
    skeleton: Transaction,
    ground: Transaction,
    field: GrindField,
    timelock_in_blocks: u16,
) -> bool {
    &&& ground.version == skeleton.version
    &&& ground.output == skeleton.output
    &&& ground.input@.len() == skeleton.input@.len()
    &&& forall|i: int|
        1 <= i < skeleton.input@.len() ==> ground.input@[i] == skeleton.input@[i]
    &&& ground.input@[0].previous_output == skeleton.input@[0].previous_output
    &&& ground.input@[0].witness == skeleton.input@[0].witness
    &&& (field == GrindField::LockTime ==> {
        &&& ground.input@[0].sequence == skeleton.input@[0].sequence
        &&& ground.lock_time < GRIND_LIMIT
    })
    &&& (field == GrindField::Sequence ==> {
        &&& ground.lock_time == skeleton.lock_time
        &&& timelock_in_blocks <= ground.input@[0].sequence <= 0xffff
    })
}

/// Varies the chosen malleable field of `txn` until the signature the engine
/// reassembles from the transaction's full message components ends in a zero
/// byte — the covenant-encoding constraint the scripts can check cheaply —
/// or the bound is exhausted. Returns the winning transaction and that
/// 64-byte signature.
#[verifier::loop_isolation(false)]
pub fn grind_transaction<E: SignatureEngine>(
    engine: &E,
    txn: Transaction,
    field: GrindField,
    timelock_in_blocks: u16,
    prevouts: &Vec<TxOut>,
    leaf_hash: &Vec<u8>,
) -> (r: Result<(Transaction, Vec<u8>), VaultError>)
    requires
        txn.input@.len() >= 1,
    ensures
        r matches Ok(p) ==> {
            &&& p.1@.len() == 64
            &&& p.1@[63] == 0
            &&& grind_adjusted(txn, p.0, field, timelock_in_blocks)
        },
        r matches Err(e) ==> e == VaultError::GrindExhausted,
{
    let ghost skeleton = txn;
    let mut txn = txn;
    let mask = TxCommitmentSpec::all();
    let mut attempt: u32 = 0;
    while attempt < GRIND_LIMIT
        invariant
            txn.input@.len() == skeleton.input@.len() >= 1,
            txn.version == skeleton.version,
            txn.output == skeleton.output,
            txn.lock_time == skeleton.lock_time || field == GrindField::LockTime,
            forall|i: int|
                1 <= i < skeleton.input@.len() ==> txn.input@[i] == skeleton.input@[i],
            txn.input@[0].previous_output == skeleton.input@[0].previous_output,
            txn.input@[0].witness == skeleton.input@[0].witness,
            field == GrindField::LockTime ==> txn.input@[0].sequence == skeleton.input@[
                0].sequence,
        decreases GRIND_LIMIT - attempt,
    {
        match field {
            GrindField::LockTime => {
                txn.lock_time = attempt;
            },
            GrindField::Sequence => {
                let height: u32 = (timelock_in_blocks as u32) + attempt;
                if height > 0xffff {
                    return Err(VaultError::GrindExhausted);
                }
                txn.input[0].sequence = height;
            },
        }
        let components = get_sigmsg_components(&mask, &txn, 0, prevouts, leaf_hash,
            SIGHASH_DEFAULT);
        let sig = engine.reassemble(&components);
        if sig.len() == 64 && sig[63] == 0 {
            return Ok((txn, sig));
        }
        attempt = attempt + 1;
    }
    Err(VaultError::GrindExhausted)
}


/// The witness stack of a built trigger transaction, given the computed
/// covenant signature `cs` and the vault's own signature `ss`: the enabled
/// message components; the target output's script, the vault amount, the
/// vault output's script, the fee output's amount and script; the 63-byte
/// signature prefix and the zero and one bytes that let the script rebuild
/// its final byte; the vault's signature; the leaf script; the control
/// block.
pub open spec fn trigger_witness_ok(
    c: VaultCovenant,
    t: Transaction,
    fee_out: (u64, Seq<u8>),
    target_spk: Seq<u8>,
    cs: Seq<u8>,
    ss: Seq<u8>,
) -> bool {
    &&& cs.len() == 64
    &&& cs[63] == 0
    &&& vault_signature_ok(
        c, t, (c.amount, crate::covenant::vault_script(c)), fee_out, c.trigger_script@, ss)
    &&& bytes_views(t.input@[0].witness@) == trigger_witness_components(t, c.trigger_script@)
        + seq![
        encode_script(target_spk),
        le64(c.amount),
        encode_script(crate::covenant::vault_script(c)),
        le64(fee_out.0),
        encode_script(fee_out.1),
        cs.take(63),
        seq![0u8],
        seq![1u8],
        ss,
        c.trigger_script@,
        crate::taproot::taproot_control_block_of(
            c.nums_key@, crate::covenant::vault_leaves(c), c.trigger_script@)->0,
    ]
}

/// What a successful trigger build returns: a two-input, two-output
/// transaction moving the vault amount back to the vault address and marking
/// the withdrawal target with the dust value, its vault input carrying the
/// full covenant witness.
pub open spec fn built_trigger_tx(
    c: VaultCovenant,
    t: Transaction,
    fee_utxo: OutPoint,
    fee_out: TxOut,
    target_spk: Seq<u8>,
) -> bool {
    &&& t.version == 2
    &&& t.lock_time < GRIND_LIMIT
    &&& t.input@.len() == 2
    &&& outpoint_view(t.input@[0].previous_output) == outpoint_view(c.current_outpoint->0)
    &&& t.input@[0].sequence == SEQUENCE_FINAL
    &&& outpoint_view(t.input@[1].previous_output) == outpoint_view(fee_utxo)
    &&& t.input@[1].sequence == SEQUENCE_FINAL
    &&& t.input@[1].witness@.len() == 0
    &&& t.output@.len() == 2
    &&& txout_view(t.output@[0]) == (c.amount, crate::covenant::vault_script(c))
    &&& txout_view(t.output@[1]) == (DUST_MARKER_SATS, target_spk)
    &&& crate::covenant::vault_output_key(c) is Some
    &&& crate::taproot::taproot_control_block_of(
        c.nums_key@, crate::covenant::vault_leaves(c), c.trigger_script@) is Some
    &&& exists|cs: Seq<u8>, ss: Seq<u8>|
        trigger_witness_ok(c, t, (fee_out.value, fee_out.script_pubkey@), target_spk, cs, ss)
}

impl VaultCovenant {
    /// Builds the trigger transaction: the vault input and the fee input,
    /// one output paying the vault amount back to the vault address and one
    /// dust-valued output marking the withdrawal target, with the locktime
    /// ground until the covenant signature is encodable and the vault
    /// input's witness assembled bit-exactly for the trigger leaf.
    #[verifier::rlimit(100)]
    pub fn create_trigger_tx<E: SignatureEngine>(
        &self,
        engine: &E,
        fee_paying_utxo: &OutPoint,
        fee_paying_output: &TxOut,
        target_address: &Address,
    ) -> (r: Result<Transaction, VaultError>)
        ensures
            self.current_outpoint is None ==> r == Err::<Transaction, VaultError>(
                VaultError::MissingPrecondition),
            r == Err::<Transaction, VaultError>(VaultError::MissingPrecondition)
                ==> self.current_outpoint is None,
            self.current_outpoint is Some && crate::covenant::vault_output_key(*self) is None
                ==> r == Err::<Transaction, VaultError>(VaultError::CryptoInvariantViolation),
            r == Err::<Transaction, VaultError>(VaultError::CryptoInvariantViolation) ==> !(
            crate::covenant::vault_output_key(*self) is Some
                && crate::taproot::taproot_control_block_of(
                self.nums_key@, crate::covenant::vault_leaves(*self), self.trigger_script@)
                is Some && is_seckey(self.seckey@)),
            r matches Ok(t) ==> built_trigger_tx(
                *self, t, *fee_paying_utxo, *fee_paying_output,
                target_address.script_pubkey@),
    {
        let outpoint = match &self.current_outpoint {
            Some(o) => clone_outpoint(o),
            None => {
                return Err(VaultError::MissingPrecondition);
            },
        };
        let vault_tree = match self.vault_tree() {
            Ok(t) => t,
            Err(e) => {
                return Err(e);
            },
        };
        let vault_spk = vault_tree.script_pubkey();
        let mut input: Vec<TxIn> = Vec::new();
        input.push(TxIn::new(outpoint));
        input.push(TxIn::new(clone_outpoint(fee_paying_utxo)));
        let mut output: Vec<TxOut> = Vec::new();
        output.push(TxOut { value: self.amount, script_pubkey: clone_bytes(&vault_spk) });
        output.push(
            TxOut {
                value: DUST_MARKER_SATS,
                script_pubkey: clone_bytes(&target_address.script_pubkey),
            },
        );
        let txn = Transaction { version: 2, lock_time: 0, input, output };
        let leaf_hash = tapleaf_hash(&self.trigger_script);
        let mut prevouts: Vec<TxOut> = Vec::new();
        prevouts.push(TxOut { value: self.amount, script_pubkey: clone_bytes(&vault_spk) });
        prevouts.push(clone_txout(fee_paying_output));
        let (mut ground, cs_sig) = match grind_transaction(
            engine,
            txn,
            GrindField::LockTime,
            self.timelock_in_blocks,
            &prevouts,
            &leaf_hash,
        ) {
            Ok(p) => p,
            Err(e) => {
                return Err(e);
            },
        };
        let mask = trigger_commitment_mask();
        let mut w = get_sigmsg_components(&mask, &ground, 0, &prevouts, &leaf_hash,
            SIGHASH_DEFAULT);
        let ghost mut acc: Seq<Seq<u8>> = bytes_views(w@);
        proof {
            assert(acc =~= trigger_witness_components(ground, self.trigger_script@));
        }
        let v = script_encoding(&target_address.script_pubkey);
        proof { crate::sighash::lemma_views_push(w@, v); acc = acc.push(v@); }
        w.push(v);
        let v = u64_le_bytes(self.amount);
        proof { crate::sighash::lemma_views_push(w@, v); acc = acc.push(v@); }
        w.push(v);
        let v = script_encoding(&vault_spk);
        proof { crate::sighash::lemma_views_push(w@, v); acc = acc.push(v@); }
        w.push(v);
        let v = u64_le_bytes(fee_paying_output.value);
        proof { crate::sighash::lemma_views_push(w@, v); acc = acc.push(v@); }
        w.push(v);
        let v = script_encoding(&fee_paying_output.script_pubkey);
        proof { crate::sighash::lemma_views_push(w@, v); acc = acc.push(v@); }
        w.push(v);
        let v = subvec(&cs_sig, 0, 63);
        proof {
            crate::sighash::lemma_views_push(w@, v);
            assert(v@ =~= cs_sig@.take(63));
            acc = acc.push(cs_sig@.take(63));
        }
        w.push(v);
        let v: Vec<u8> = vec![cs_sig[63]];
        proof {
            crate::sighash::lemma_views_push(w@, v);
            assert(v@ =~= seq![0u8]);
            acc = acc.push(seq![0u8]);
        }
        w.push(v);
        let v: Vec<u8> = vec![cs_sig[63] + 1];
        proof {
            crate::sighash::lemma_views_push(w@, v);
            assert(v@ =~= seq![1u8]);
            acc = acc.push(seq![1u8]);
        }
        w.push(v);
        let ss = match self.sign_transaction(&ground, &prevouts, &leaf_hash) {
            Ok(s) => s,
            Err(e) => {
                return Err(e);
            },
        };
        let ghost ss_view = ss@;
        proof { crate::sighash::lemma_views_push(w@, ss); acc = acc.push(ss@); }
        w.push(ss);
        let v = clone_bytes(&self.trigger_script);
        proof { crate::sighash::lemma_views_push(w@, v); acc = acc.push(v@); }
        w.push(v);
        let cb = match vault_tree.control_block(&self.trigger_script) {
            Some(cb) => cb,
            None => {
                return Err(VaultError::CryptoInvariantViolation);
            },
        };
        proof { crate::sighash::lemma_views_push(w@, cb); acc = acc.push(cb@); }
        w.push(cb);
        let ghost pre = ground;
        ground.input[0].witness = w;
        proof {
            crate::sighash::lemma_blobs_ignore_witness(ground.input@, pre.input@);
            assert(trigger_witness_components(ground, self.trigger_script@)
                =~= trigger_witness_components(pre, self.trigger_script@));
            assert(bytes_views(ground.input@[0].witness@) =~= acc);
            assert(acc =~= trigger_witness_components(ground, self.trigger_script@) + seq![
                encode_script(target_address.script_pubkey@),
                le64(self.amount),
                encode_script(crate::covenant::vault_script(*self)),
                le64(fee_paying_output.value),
                encode_script(fee_paying_output.script_pubkey@),
                cs_sig@.take(63),
                seq![0u8],
                seq![1u8],
                ss_view,
                self.trigger_script@,
                crate::taproot::taproot_control_block_of(
                    self.nums_key@, crate::covenant::vault_leaves(*self),
                    self.trigger_script@)->0,
            ]);
            assert(crate::sighash::amounts_blob(prevouts@) =~= le64(self.amount) + le64(
                fee_paying_output.value)) by {
                reveal_with_fuel(crate::sighash::amounts_blob, 3);
                assert(prevouts@.drop_last().drop_last() =~= Seq::<TxOut>::empty());
                assert(prevouts@.drop_last().last() == prevouts@[0]);
            }
            assert(crate::sighash::scriptpubkeys_blob(prevouts@) =~= encode_script(
                crate::covenant::vault_script(*self)) + encode_script(
                fee_paying_output.script_pubkey@)) by {
                reveal_with_fuel(crate::sighash::scriptpubkeys_blob, 3);
                assert(prevouts@.drop_last().drop_last() =~= Seq::<TxOut>::empty());
                assert(prevouts@.drop_last().last() == prevouts@[0]);
            }
            assert(full_sigmsg(pre, 0, prevouts@, leaf_hash@, SIGHASH_ALL) =~= vault_input_sigmsg(
                ground,
                (self.amount, crate::covenant::vault_script(*self)),
                (fee_paying_output.value, fee_paying_output.script_pubkey@),
                self.trigger_script@,
            ));
            assert(trigger_witness_ok(
                *self,
                ground,
                (fee_paying_output.value, fee_paying_output.script_pubkey@),
                target_address.script_pubkey@,
                cs_sig@,
                ss_view,
            ));
            assert(built_trigger_tx(
                *self, ground, *fee_paying_utxo, *fee_paying_output,
                target_address.script_pubkey@));
        }
        Ok(ground)
    }
}



/// The witness stack of a built cancel transaction: the enabled message
/// components; the vault amount, the vault output's script, the fee output's
/// amount and script; the signature triple; the vault's signature; the leaf
/// script; the control block.
pub open spec fn cancel_witness_ok(
    c: VaultCovenant,
    t: Transaction,
    fee_out: (u64, Seq<u8>),
    cs: Seq<u8>,
    ss: Seq<u8>,
) -> bool {
    &&& cs.len() == 64
    &&& cs[63] == 0
    &&& vault_signature_ok(
        c, t, (c.amount, crate::covenant::vault_script(c)), fee_out, c.cancel_script@, ss)
    &&& bytes_views(t.input@[0].witness@) == trigger_witness_components(t, c.cancel_script@)
        + seq![
        le64(c.amount),
        encode_script(crate::covenant::vault_script(c)),
        le64(fee_out.0),
        encode_script(fee_out.1),
        cs.take(63),
        seq![0u8],
        seq![1u8],
        ss,
        c.cancel_script@,
        crate::taproot::taproot_control_block_of(
            c.nums_key@, crate::covenant::vault_leaves(c), c.cancel_script@)->0,
    ]
}

/// What a successful cancel build returns: a two-input transaction whose
/// single output pays the vault amount back to the vault's own
/// Inactive-phase address.
pub open spec fn built_cancel_tx(
    c: VaultCovenant,
    t: Transaction,
    fee_utxo: OutPoint,
    fee_out: TxOut,
) -> bool {
    &&& t.version == 2
    &&& t.lock_time < GRIND_LIMIT
    &&& t.input@.len() == 2
    &&& outpoint_view(t.input@[0].previous_output) == outpoint_view(c.current_outpoint->0)
    &&& t.input@[0].sequence == SEQUENCE_FINAL
    &&& outpoint_view(t.input@[1].previous_output) == outpoint_view(fee_utxo)
    &&& t.input@[1].sequence == SEQUENCE_FINAL
    &&& t.input@[1].witness@.len() == 0
    &&& t.output@.len() == 1
    &&& txout_view(t.output@[0]) == (c.amount, crate::covenant::vault_script(c))
    &&& crate::covenant::vault_output_key(c) is Some
    &&& crate::taproot::taproot_control_block_of(
        c.nums_key@, crate::covenant::vault_leaves(c), c.cancel_script@) is Some
    &&& exists|cs: Seq<u8>, ss: Seq<u8>|
        cancel_witness_ok(c, t, (fee_out.value, fee_out.script_pubkey@), cs, ss)
}

impl VaultCovenant {
    /// Builds the cancel transaction: the vault input and the fee input, one
    /// output paying the vault amount back to the vault's own address, with
    /// the locktime ground until the covenant signature is encodable and the
    /// witness assembled for the cancel leaf.
    #[verifier::rlimit(100)]
    pub fn create_cancel_tx<E: SignatureEngine>(
        &self,
        engine: &E,
        fee_paying_utxo: &OutPoint,
        fee_paying_output: &TxOut,
    ) -> (r: Result<Transaction, VaultError>)
        ensures
            self.current_outpoint is None ==> r == Err::<Transaction, VaultError>(
                VaultError::MissingPrecondition),
            r == Err::<Transaction, VaultError>(VaultError::MissingPrecondition)
                ==> self.current_outpoint is None,
            self.current_outpoint is Some && crate::covenant::vault_output_key(*self) is None
                ==> r == Err::<Transaction, VaultError>(VaultError::CryptoInvariantViolation),
            r == Err::<Transaction, VaultError>(VaultError::CryptoInvariantViolation) ==> !(
            crate::covenant::vault_output_key(*self) is Some
                && crate::taproot::taproot_control_block_of(
                self.nums_key@, crate::covenant::vault_leaves(*self), self.cancel_script@)
                is Some && is_seckey(self.seckey@)),
            r matches Ok(t) ==> built_cancel_tx(*self, t, *fee_paying_utxo, *fee_paying_output),
    {
        let outpoint = match &self.current_outpoint {
            Some(o) => clone_outpoint(o),
            None => {
                return Err(VaultError::MissingPrecondition);
            },
        };
        let vault_tree = match self.vault_tree() {
            Ok(t) => t,
            Err(e) => {
                return Err(e);
            },
        };
        let vault_spk = vault_tree.script_pubkey();
        let mut input: Vec<TxIn> = Vec::new();
        input.push(TxIn::new(outpoint));
        input.push(TxIn::new(clone_outpoint(fee_paying_utxo)));
        let mut output: Vec<TxOut> = Vec::new();
        output.push(TxOut { value: self.amount, script_pubkey: clone_bytes(&vault_spk) });
        let txn = Transaction { version: 2, lock_time: 0, input, output };
        let leaf_hash = tapleaf_hash(&self.cancel_script);
        let mut prevouts: Vec<TxOut> = Vec::new();
        prevouts.push(TxOut { value: self.amount, script_pubkey: clone_bytes(&vault_spk) });
        prevouts.push(clone_txout(fee_paying_output));
        let (mut ground, cs_sig) = match grind_transaction(
            engine,
            txn,
            GrindField::LockTime,
            self.timelock_in_blocks,
            &prevouts,
            &leaf_hash,
        ) {
            Ok(p) => p,
            Err(e) => {
                return Err(e);
            },
        };
        let mask = trigger_commitment_mask();
        let mut w = get_sigmsg_components(&mask, &ground, 0, &prevouts, &leaf_hash,
            SIGHASH_DEFAULT);
        let ghost mut acc: Seq<Seq<u8>> = bytes_views(w@);
        proof {
            assert(acc =~= trigger_witness_components(ground, self.cancel_script@));
        }
        let v = u64_le_bytes(self.amount);
        proof { crate::sighash::lemma_views_push(w@, v); acc = acc.push(v@); }
        w.push(v);
        let v = script_encoding(&vault_spk);
        proof { crate::sighash::lemma_views_push(w@, v); acc = acc.push(v@); }
        w.push(v);
        let v = u64_le_bytes(fee_paying_output.value);
        proof { crate::sighash::lemma_views_push(w@, v); acc = acc.push(v@); }
        w.push(v);
        let v = script_encoding(&fee_paying_output.script_pubkey);
        proof { crate::sighash::lemma_views_push(w@, v); acc = acc.push(v@); }
        w.push(v);
        let v = subvec(&cs_sig, 0, 63);
        proof {
            crate::sighash::lemma_views_push(w@, v);
            assert(v@ =~= cs_sig@.take(63));
            acc = acc.push(cs_sig@.take(63));
        }
        w.push(v);
        let v: Vec<u8> = vec![cs_sig[63]];
        proof {
            crate::sighash::lemma_views_push(w@, v);
            assert(v@ =~= seq![0u8]);
            acc = acc.push(seq![0u8]);
        }
        w.push(v);
        let v: Vec<u8> = vec![cs_sig[63] + 1];
        proof {
            crate::sighash::lemma_views_push(w@, v);
            assert(v@ =~= seq![1u8]);
            acc = acc.push(seq![1u8]);
        }
        w.push(v);
        let ss = match self.sign_transaction(&ground, &prevouts, &leaf_hash) {
            Ok(s) => s,
            Err(e) => {
                return Err(e);
            },
        };
        let ghost ss_view = ss@;
        proof { crate::sighash::lemma_views_push(w@, ss); acc = acc.push(ss@); }
        w.push(ss);
        let v = clone_bytes(&self.cancel_script);
        proof { crate::sighash::lemma_views_push(w@, v); acc = acc.push(v@); }
        w.push(v);
        let cb = match vault_tree.control_block(&self.cancel_script) {
            Some(cb) => cb,
            None => {
                return Err(VaultError::CryptoInvariantViolation);
            },
        };
        proof { crate::sighash::lemma_views_push(w@, cb); acc = acc.push(cb@); }
        w.push(cb);
        let ghost pre = ground;
        ground.input[0].witness = w;
        proof {
            crate::sighash::lemma_blobs_ignore_witness(ground.input@, pre.input@);
            assert(trigger_witness_components(ground, self.cancel_script@)
                =~= trigger_witness_components(pre, self.cancel_script@));
            assert(bytes_views(ground.input@[0].witness@) =~= acc);
            assert(acc =~= trigger_witness_components(ground, self.cancel_script@) + seq![
                le64(self.amount),
                encode_script(crate::covenant::vault_script(*self)),
                le64(fee_paying_output.value),
                encode_script(fee_paying_output.script_pubkey@),
                cs_sig@.take(63),
                seq![0u8],
                seq![1u8],
                ss_view,
                self.cancel_script@,
                crate::taproot::taproot_control_block_of(
                    self.nums_key@, crate::covenant::vault_leaves(*self),
                    self.cancel_script@)->0,
            ]);
            assert(crate::sighash::amounts_blob(prevouts@) =~= le64(self.amount) + le64(
                fee_paying_output.value)) by {
                reveal_with_fuel(crate::sighash::amounts_blob, 3);
                assert(prevouts@.drop_last().drop_last() =~= Seq::<TxOut>::empty());
                assert(prevouts@.drop_last().last() == prevouts@[0]);
            }
            assert(crate::sighash::scriptpubkeys_blob(prevouts@) =~= encode_script(
                crate::covenant::vault_script(*self)) + encode_script(
                fee_paying_output.script_pubkey@)) by {
                reveal_with_fuel(crate::sighash::scriptpubkeys_blob, 3);
                assert(prevouts@.drop_last().drop_last() =~= Seq::<TxOut>::empty());
                assert(prevouts@.drop_last().last() == prevouts@[0]);
            }
            assert(full_sigmsg(pre, 0, prevouts@, leaf_hash@, SIGHASH_ALL) =~= vault_input_sigmsg(
                ground,
                (self.amount, crate::covenant::vault_script(*self)),
                (fee_paying_output.value, fee_paying_output.script_pubkey@),
                self.cancel_script@,
            ));
            assert(cancel_witness_ok(
                *self,
                ground,
                (fee_paying_output.value, fee_paying_output.script_pubkey@),
                cs_sig@,
                ss_view,
            ));
            assert(built_cancel_tx(
                *self, ground, *fee_paying_utxo, *fee_paying_output));
        }
        Ok(ground)
    }
}



/// The witness stack of a built complete transaction: the enabled message
/// components; the recorded trigger transaction's version, its inputs'
/// consensus encoding in pushes of at most 80 bytes, and its locktime; the
/// vault output's script, the vault amount, the target output's script, and
/// the fee-paying outpoint; the signature triple; the vault's signature; the
/// leaf script; the control block.
pub open spec fn complete_witness_ok(
    c: VaultCovenant,
    t: Transaction,
    fee_utxo: OutPoint,
    fee_out: (u64, Seq<u8>),
    target_spk: Seq<u8>,
    trig: Transaction,
    cs: Seq<u8>,
    ss: Seq<u8>,
) -> bool {
    &&& cs.len() == 64
    &&& cs[63] == 0
    &&& vault_signature_ok(
        c, t, (c.amount, crate::covenant::vault_script(c)), fee_out, c.complete_script@, ss)
    &&& bytes_views(t.input@[0].witness@) == complete_witness_components(
        t,
        c.amount,
        crate::covenant::vault_script(c),
        fee_out,
        c.complete_script@,
    ) + seq![le32(trig.version)] + chunks80(encode_inputs(trig.input@)) + seq![
        le32(trig.lock_time),
        encode_script(crate::covenant::vault_script(c)),
        le64(c.amount),
        encode_script(target_spk),
        encode_outpoint(fee_utxo),
        cs.take(63),
        seq![0u8],
        seq![1u8],
        ss,
        c.complete_script@,
        crate::taproot::taproot_control_block_of(
            c.nums_key@, crate::covenant::vault_leaves(c), c.complete_script@)->0,
    ]
}

/// What a successful complete build returns: a two-input transaction whose
/// single output pays the vault amount to the withdrawal target, and whose
/// vault input's sequence encodes a relative block delay of at least the
/// vault's configured timelock.
pub open spec fn built_complete_tx(
    c: VaultCovenant,
    t: Transaction,
    fee_utxo: OutPoint,
    fee_out: TxOut,
    target_spk: Seq<u8>,
    trig: Transaction,
) -> bool {
    &&& t.version == 2
    &&& t.lock_time == 0
    &&& t.input@.len() == 2
    &&& outpoint_view(t.input@[0].previous_output) == outpoint_view(c.current_outpoint->0)
    &&& c.timelock_in_blocks <= t.input@[0].sequence <= 0xffff
    &&& outpoint_view(t.input@[1].previous_output) == outpoint_view(fee_utxo)
    &&& t.input@[1].sequence == SEQUENCE_FINAL
    &&& t.input@[1].witness@.len() == 0
    &&& t.output@.len() == 1
    &&& txout_view(t.output@[0]) == (c.amount, target_spk)
    &&& crate::covenant::vault_output_key(c) is Some
    &&& crate::taproot::taproot_control_block_of(
        c.nums_key@, crate::covenant::vault_leaves(c), c.complete_script@) is Some
    &&& exists|cs: Seq<u8>, ss: Seq<u8>|
        complete_witness_ok(
            c, t, fee_utxo, (fee_out.value, fee_out.script_pubkey@), target_spk, trig, cs, ss)
}

impl VaultCovenant {
    /// Builds the complete transaction: the vault input, carrying a
    /// relative-timelock sequence of at least the configured delay, and the
    /// fee input; one output paying the vault amount to the withdrawal
    /// target; the sequence ground until the covenant signature is
    /// encodable; the witness assembled for the complete leaf, carrying the
    /// recorded trigger transaction's fields the script needs to rebuild
    /// what the signature message omits.
    #[verifier::rlimit(100)]
    pub fn create_complete_tx<E: SignatureEngine>(
        &self,
        engine: &E,
        fee_paying_utxo: &OutPoint,
        fee_paying_output: &TxOut,
        target_address: &Address,
        trigger_tx: &Transaction,
    ) -> (r: Result<Transaction, VaultError>)
        ensures
            self.current_outpoint is None ==> r == Err::<Transaction, VaultError>(
                VaultError::MissingPrecondition),
            r == Err::<Transaction, VaultError>(VaultError::MissingPrecondition)
                ==> self.current_outpoint is None,
            self.current_outpoint is Some && crate::covenant::vault_output_key(*self) is None
                ==> r == Err::<Transaction, VaultError>(VaultError::CryptoInvariantViolation),
            r == Err::<Transaction, VaultError>(VaultError::CryptoInvariantViolation) ==> !(
            crate::covenant::vault_output_key(*self) is Some
                && crate::taproot::taproot_control_block_of(
                self.nums_key@, crate::covenant::vault_leaves(*self), self.complete_script@)
                is Some && is_seckey(self.seckey@)),
            r matches Ok(t) ==> built_complete_tx(
                *self, t, *fee_paying_utxo, *fee_paying_output,
                target_address.script_pubkey@, *trigger_tx),
    {
        let outpoint = match &self.current_outpoint {
            Some(o) => clone_outpoint(o),
            None => {
                return Err(VaultError::MissingPrecondition);
            },
        };
        let vault_tree = match self.vault_tree() {
            Ok(t) => t,
            Err(e) => {
                return Err(e);
            },
        };
        let vault_spk = vault_tree.script_pubkey();
        let mut input: Vec<TxIn> = Vec::new();
        input.push(
            TxIn {
                previous_output: outpoint,
                sequence: self.timelock_in_blocks as u32,
                witness: Vec::new(),
            },
        );
        input.push(TxIn::new(clone_outpoint(fee_paying_utxo)));
        let mut output: Vec<TxOut> = Vec::new();
        output.push(
            TxOut {
                value: self.amount,
                script_pubkey: clone_bytes(&target_address.script_pubkey),
            },
        );
        let txn = Transaction { version: 2, lock_time: 0, input, output };
        let leaf_hash = tapleaf_hash(&self.complete_script);
        let mut prevouts: Vec<TxOut> = Vec::new();
        prevouts.push(TxOut { value: self.amount, script_pubkey: clone_bytes(&vault_spk) });
        prevouts.push(clone_txout(fee_paying_output));
        let (mut ground, cs_sig) = match grind_transaction(
            engine,
            txn,
            GrindField::Sequence,
            self.timelock_in_blocks,
            &prevouts,
            &leaf_hash,
        ) {
            Ok(p) => p,
            Err(e) => {
                return Err(e);
            },
        };
        let mask = complete_commitment_mask();
        let mut w = get_sigmsg_components(&mask, &ground, 0, &prevouts, &leaf_hash,
            SIGHASH_DEFAULT);
        let ghost mut acc: Seq<Seq<u8>> = bytes_views(w@);
        proof {
            assert(crate::sighash::amounts_blob(prevouts@) =~= le64(self.amount) + le64(
                fee_paying_output.value)) by {
                reveal_with_fuel(crate::sighash::amounts_blob, 3);
                assert(prevouts@.drop_last().drop_last() =~= Seq::<TxOut>::empty());
                assert(prevouts@.drop_last().last() == prevouts@[0]);
            }
            assert(crate::sighash::scriptpubkeys_blob(prevouts@) =~= encode_script(
                crate::covenant::vault_script(*self)) + encode_script(
                fee_paying_output.script_pubkey@)) by {
                reveal_with_fuel(crate::sighash::scriptpubkeys_blob, 3);
                assert(prevouts@.drop_last().drop_last() =~= Seq::<TxOut>::empty());
                assert(prevouts@.drop_last().last() == prevouts@[0]);
            }
            assert(acc =~= complete_witness_components(
                ground,
                self.amount,
                crate::covenant::vault_script(*self),
                (fee_paying_output.value, fee_paying_output.script_pubkey@),
                self.complete_script@,
            ));
        }
        let v = u32_le_bytes(trigger_tx.version);
        proof { crate::sighash::lemma_views_push(w@, v); acc = acc.push(v@); }
        w.push(v);
        let input_buffer = inputs_encoding(&trigger_tx.input);
        proof {
            assert(input_buffer@.len() >= 1);
        }
        push_chunks(&mut w, &input_buffer);
        proof {
            acc = acc + chunks80(encode_inputs(trigger_tx.input@));
        }
        let v = u32_le_bytes(trigger_tx.lock_time);
        proof { crate::sighash::lemma_views_push(w@, v); acc = acc.push(v@); }
        w.push(v);
        let v = script_encoding(&vault_spk);
        proof { crate::sighash::lemma_views_push(w@, v); acc = acc.push(v@); }
        w.push(v);
        let v = u64_le_bytes(self.amount);
        proof { crate::sighash::lemma_views_push(w@, v); acc = acc.push(v@); }
        w.push(v);
        let v = script_encoding(&target_address.script_pubkey);
        proof { crate::sighash::lemma_views_push(w@, v); acc = acc.push(v@); }
        w.push(v);
        let v = outpoint_encoding(fee_paying_utxo);
        proof { crate::sighash::lemma_views_push(w@, v); acc = acc.push(v@); }
        w.push(v);
        let v = subvec(&cs_sig, 0, 63);
        proof {
            crate::sighash::lemma_views_push(w@, v);
            assert(v@ =~= cs_sig@.take(63));
            acc = acc.push(cs_sig@.take(63));
        }
        w.push(v);
        let v: Vec<u8> = vec![cs_sig[63]];
        proof {
            crate::sighash::lemma_views_push(w@, v);
            assert(v@ =~= seq![0u8]);
            acc = acc.push(seq![0u8]);
        }
        w.push(v);
        let v: Vec<u8> = vec![cs_sig[63] + 1];
        proof {
            crate::sighash::lemma_views_push(w@, v);
            assert(v@ =~= seq![1u8]);
            acc = acc.push(seq![1u8]);
        }
        w.push(v);
        let ss = match self.sign_transaction(&ground, &prevouts, &leaf_hash) {
            Ok(s) => s,
            Err(e) => {
                return Err(e);
            },
        };
        let ghost ss_view = ss@;
        proof { crate::sighash::lemma_views_push(w@, ss); acc = acc.push(ss@); }
        w.push(ss);
        let v = clone_bytes(&self.complete_script);
        proof { crate::sighash::lemma_views_push(w@, v); acc = acc.push(v@); }
        w.push(v);
        let cb = match vault_tree.control_block(&self.complete_script) {
            Some(cb) => cb,
            None => {
                return Err(VaultError::CryptoInvariantViolation);
            },
        };
        proof { crate::sighash::lemma_views_push(w@, cb); acc = acc.push(cb@); }
        w.push(cb);
        let ghost pre = ground;
        ground.input[0].witness = w;
        proof {
            crate::sighash::lemma_blobs_ignore_witness(ground.input@, pre.input@);
            assert(complete_witness_components(
                ground,
                self.amount,
                crate::covenant::vault_script(*self),
                (fee_paying_output.value, fee_paying_output.script_pubkey@),
                self.complete_script@,
            ) =~= complete_witness_components(
                pre,
                self.amount,
                crate::covenant::vault_script(*self),
                (fee_paying_output.value, fee_paying_output.script_pubkey@),
                self.complete_script@,
            ));
            assert(bytes_views(ground.input@[0].witness@) =~= acc);
            assert(acc =~= complete_witness_components(
                ground,
                self.amount,
                crate::covenant::vault_script(*self),
                (fee_paying_output.value, fee_paying_output.script_pubkey@),
                self.complete_script@,
            ) + seq![le32(trigger_tx.version)] + chunks80(encode_inputs(trigger_tx.input@))
                + seq![
                le32(trigger_tx.lock_time),
                encode_script(crate::covenant::vault_script(*self)),
                le64(self.amount),
                encode_script(target_address.script_pubkey@),
                encode_outpoint(*fee_paying_utxo),
                cs_sig@.take(63),
                seq![0u8],
                seq![1u8],
                ss_view,
                self.complete_script@,
                crate::taproot::taproot_control_block_of(
                    self.nums_key@, crate::covenant::vault_leaves(*self),
                    self.complete_script@)->0,
            ]);
            assert(full_sigmsg(pre, 0, prevouts@, leaf_hash@, SIGHASH_ALL) =~= vault_input_sigmsg(
                ground,
                (self.amount, crate::covenant::vault_script(*self)),
                (fee_paying_output.value, fee_paying_output.script_pubkey@),
                self.complete_script@,
            ));
            assert(complete_witness_ok(
                *self,
                ground,
                *fee_paying_utxo,
                (fee_paying_output.value, fee_paying_output.script_pubkey@),
                target_address.script_pubkey@,
                *trigger_tx,
                cs_sig@,
                ss_view,
            ));
            assert(built_complete_tx(
                *self, ground, *fee_paying_utxo, *fee_paying_output,
                target_address.script_pubkey@, *trigger_tx));
        }
        Ok(ground)
    }
}



/// What a successful CTV trigger build returns: the pre-committed template
/// shape with the real outpoints filled in, the vault input's witness being
/// just the deposit leaf script and its control block — the transaction's
/// shape itself is what the committed hash checks.
pub open spec fn built_ctv_trigger_tx(
    c: VaultCovenant,
    t: Transaction,
    fee_utxo: OutPoint,
) -> bool {
    &&& t.version == 2
    &&& t.lock_time == 0
    &&& t.input@.len() == 2
    &&& outpoint_view(t.input@[0].previous_output) == outpoint_view(c.current_outpoint->0)
    &&& t.input@[0].sequence == SEQUENCE_ENABLE_RBF_NO_LOCKTIME
    &&& outpoint_view(t.input@[1].previous_output) == outpoint_view(fee_utxo)
    &&& t.input@[1].sequence == SEQUENCE_ENABLE_RBF_NO_LOCKTIME
    &&& t.input@[1].witness@.len() == 0
    &&& t.output@.len() == 1
    &&& txout_view(t.output@[0]) == (c.amount, crate::covenant::ctv_trigger_script(c))
    &&& crate::covenant::ctv_trigger_key(c) is Some
    &&& crate::taproot::taproot_control_block_of(
        c.nums_key@, crate::covenant::vault_leaves(c), c.deposit_script@) is Some
    &&& bytes_views(t.input@[0].witness@) == seq![
        c.deposit_script@,
        crate::taproot::taproot_control_block_of(
            c.nums_key@, crate::covenant::vault_leaves(c), c.deposit_script@)->0,
    ]
}

/// The witness stack of a built CTV cancel transaction: the vault's
/// signature over the cancel leaf of the trigger tree, that leaf script, and
/// its control block.
pub open spec fn ctv_cancel_witness_ok(
    c: VaultCovenant,
    t: Transaction,
    fee_out: (u64, Seq<u8>),
    ss: Seq<u8>,
) -> bool {
    &&& vault_signature_ok(
        c, t, (c.amount, crate::covenant::ctv_trigger_script(c)), fee_out, c.cancel_script@, ss)
    &&& bytes_views(t.input@[0].witness@) == seq![
        ss,
        c.cancel_script@,
        crate::taproot::taproot_control_block_of(
            c.nums_key@, crate::covenant::ctv_trigger_leaves(c), c.cancel_script@)->0,
    ]
}

/// What a successful CTV cancel build returns: a two-input transaction whose
/// single output pays the vault amount back to the deposit address, its
/// witness being the vault's signature, the cancel leaf script and its
/// control block.
pub open spec fn built_ctv_cancel_tx(
    c: VaultCovenant,
    t: Transaction,
    fee_utxo: OutPoint,
    fee_out: (u64, Seq<u8>),
) -> bool {
    &&& t.version == 2
    &&& t.lock_time == 0
    &&& t.input@.len() == 2
    &&& outpoint_view(t.input@[0].previous_output) == outpoint_view(c.current_outpoint->0)
    &&& t.input@[0].sequence == SEQUENCE_FINAL
    &&& outpoint_view(t.input@[1].previous_output) == outpoint_view(fee_utxo)
    &&& t.input@[1].sequence == SEQUENCE_FINAL
    &&& t.input@[1].witness@.len() == 0
    &&& t.output@.len() == 1
    &&& txout_view(t.output@[0]) == (c.amount, crate::covenant::vault_script(c))
    &&& crate::covenant::vault_output_key(c) is Some
    &&& crate::covenant::ctv_trigger_key(c) is Some
    &&& crate::taproot::taproot_control_block_of(
        c.nums_key@, crate::covenant::ctv_trigger_leaves(c), c.cancel_script@) is Some
    &&& exists|ss: Seq<u8>| ctv_cancel_witness_ok(c, t, fee_out, ss)
}

impl VaultCovenant {
    /// Builds the deposit-spend trigger transaction of the CTV scheme: the
    /// pre-committed template with the vault and fee outpoints filled in.
    /// No grinding and no signature: the deposit leaf checks the
    /// transaction's shape against the committed hash, so the witness is
    /// just the leaf script and its control block.
    pub fn create_ctv_trigger_tx(&self, fee_paying_utxo: &OutPoint) -> (r: Result<
        Transaction,
        VaultError,
    >)
        ensures
            self.current_outpoint is None ==> r == Err::<Transaction, VaultError>(
                VaultError::MissingPrecondition),
            r == Err::<Transaction, VaultError>(VaultError::MissingPrecondition)
                ==> self.current_outpoint is None,
            (r is Ok) == (self.current_outpoint is Some
                && crate::covenant::ctv_trigger_key(*self) is Some
                && crate::covenant::vault_output_key(*self) is Some
                && crate::taproot::taproot_control_block_of(
                self.nums_key@, crate::covenant::vault_leaves(*self), self.deposit_script@)
                is Some),
            r matches Ok(t) ==> built_ctv_trigger_tx(*self, t, *fee_paying_utxo),
    {
        let outpoint = match &self.current_outpoint {
            Some(o) => clone_outpoint(o),
            None => {
                return Err(VaultError::MissingPrecondition);
            },
        };
        let mut txn = match self.ctv_trigger_tx_template() {
            Ok(t) => t,
            Err(e) => {
                return Err(e);
            },
        };
        let vault_tree = match self.vault_tree() {
            Ok(t) => t,
            Err(e) => {
                return Err(e);
            },
        };
        let cb = match vault_tree.control_block(&self.deposit_script) {
            Some(cb) => cb,
            None => {
                return Err(VaultError::CryptoInvariantViolation);
            },
        };
        let mut w: Vec<Vec<u8>> = Vec::new();
        let v = clone_bytes(&self.deposit_script);
        proof { crate::sighash::lemma_views_push(w@, v); }
        w.push(v);
        proof { crate::sighash::lemma_views_push(w@, cb); }
        let ghost cb_view = cb@;
        w.push(cb);
        let mut input: Vec<TxIn> = Vec::new();
        input.push(
            TxIn {
                previous_output: outpoint,
                sequence: SEQUENCE_ENABLE_RBF_NO_LOCKTIME,
                witness: w,
            },
        );
        input.push(
            TxIn {
                previous_output: clone_outpoint(fee_paying_utxo),
                sequence: SEQUENCE_ENABLE_RBF_NO_LOCKTIME,
                witness: Vec::new(),
            },
        );
        txn.input = input;
        proof {
            assert(bytes_views(txn.input@[0].witness@) =~= seq![
                self.deposit_script@, cb_view]);
            assert(built_ctv_trigger_tx(*self, txn, *fee_paying_utxo));
        }
        Ok(txn)
    }

    /// Builds the cancel transaction of the CTV scheme: one output paying
    /// the vault amount back to the deposit address, the witness being the
    /// vault's signature over the cancel leaf of the trigger tree, that leaf
    /// script, and its control block.
    pub fn create_ctv_cancel_tx(
        &self,
        fee_paying_utxo: &OutPoint,
        fee_paying_output: &TxOut,
    ) -> (r: Result<Transaction, VaultError>)
        ensures
            self.current_outpoint is None ==> r == Err::<Transaction, VaultError>(
                VaultError::MissingPrecondition),
            r == Err::<Transaction, VaultError>(VaultError::MissingPrecondition)
                ==> self.current_outpoint is None,
            (r is Ok) == (self.current_outpoint is Some
                && crate::covenant::vault_output_key(*self) is Some
                && crate::covenant::ctv_trigger_key(*self) is Some && is_seckey(self.seckey@)
                && crate::taproot::taproot_control_block_of(
                self.nums_key@, crate::covenant::ctv_trigger_leaves(*self),
                self.cancel_script@) is Some),
            r matches Ok(t) ==> built_ctv_cancel_tx(
                *self, t, *fee_paying_utxo,
                (fee_paying_output.value, fee_paying_output.script_pubkey@)),
    {
        let outpoint = match &self.current_outpoint {
            Some(o) => clone_outpoint(o),
            None => {
                return Err(VaultError::MissingPrecondition);
            },
        };
        let vault_tree = match self.vault_tree() {
            Ok(t) => t,
            Err(e) => {
                return Err(e);
            },
        };
        let trigger_tree = match self.ctv_trigger_tree() {
            Ok(t) => t,
            Err(e) => {
                return Err(e);
            },
        };
        let mut input: Vec<TxIn> = Vec::new();
        input.push(TxIn::new(outpoint));
        input.push(TxIn::new(clone_outpoint(fee_paying_utxo)));
        let mut output: Vec<TxOut> = Vec::new();
        output.push(
            TxOut { value: self.amount, script_pubkey: vault_tree.script_pubkey() },
        );
        let mut txn = Transaction { version: 2, lock_time: 0, input, output };
        let leaf_hash = tapleaf_hash(&self.cancel_script);
        let mut prevouts: Vec<TxOut> = Vec::new();
        prevouts.push(
            TxOut { value: self.amount, script_pubkey: trigger_tree.script_pubkey() },
        );
        prevouts.push(clone_txout(fee_paying_output));
        let ss = match self.sign_transaction(&txn, &prevouts, &leaf_hash) {
            Ok(s) => s,
            Err(e) => {
                return Err(e);
            },
        };
        let cb = match trigger_tree.control_block(&self.cancel_script) {
            Some(cb) => cb,
            None => {
                return Err(VaultError::CryptoInvariantViolation);
            },
        };
        let mut w: Vec<Vec<u8>> = Vec::new();
        let ghost ss_view = ss@;
        proof { crate::sighash::lemma_views_push(w@, ss); }
        w.push(ss);
        let v = clone_bytes(&self.cancel_script);
        proof { crate::sighash::lemma_views_push(w@, v); }
        w.push(v);
        let ghost cb_view = cb@;
        proof { crate::sighash::lemma_views_push(w@, cb); }
        w.push(cb);
        let ghost pre = txn;
        txn.input[0].witness = w;
        proof {
            crate::sighash::lemma_blobs_ignore_witness(txn.input@, pre.input@);
            assert(crate::sighash::amounts_blob(prevouts@) =~= le64(self.amount) + le64(
                fee_paying_output.value)) by {
                reveal_with_fuel(crate::sighash::amounts_blob, 3);
                assert(prevouts@.drop_last().drop_last() =~= Seq::<TxOut>::empty());
                assert(prevouts@.drop_last().last() == prevouts@[0]);
            }
            assert(crate::sighash::scriptpubkeys_blob(prevouts@) =~= encode_script(
                crate::covenant::ctv_trigger_script(*self)) + encode_script(
                fee_paying_output.script_pubkey@)) by {
                reveal_with_fuel(crate::sighash::scriptpubkeys_blob, 3);
                assert(prevouts@.drop_last().drop_last() =~= Seq::<TxOut>::empty());
                assert(prevouts@.drop_last().last() == prevouts@[0]);
            }
            assert(full_sigmsg(pre, 0, prevouts@, leaf_hash@, SIGHASH_ALL) =~= vault_input_sigmsg(
                txn,
                (self.amount, crate::covenant::ctv_trigger_script(*self)),
                (fee_paying_output.value, fee_paying_output.script_pubkey@),
                self.cancel_script@,
            ));
            assert(bytes_views(txn.input@[0].witness@) =~= seq![
                ss_view, self.cancel_script@, cb_view]);
            assert(ctv_cancel_witness_ok(
                *self, txn,
                (fee_paying_output.value, fee_paying_output.script_pubkey@), ss_view));
            assert(built_ctv_cancel_tx(
                *self, txn, *fee_paying_utxo,
                (fee_paying_output.value, fee_paying_output.script_pubkey@)));
        }
        Ok(txn)
    }
}


} // verus!
