//! Decomposition of a taproot signature message into its named components,
//! selectable by a commitment mask, and the script-spend signature hash built
//! from them. The component order is the message order: epoch, hash type,
//! version, locktime, prevouts hash, amounts hash, script-pubkeys hash,
//! sequences hash, outputs hash, spend type, input index, script-path
//! extension.

use vstd::prelude::*;
use crate::tx::{Transaction, TxIn, TxOut};
use crate::encode::{
    le32, le64, encode_script, encode_outpoint, encode_txout, push_bytes, push_u32_le,
    push_u64_le, push_script, push_outpoint, push_txout, u32_le_bytes,
};
use crate::crypto::{sha256_of, sha256, tagged_hash, tagged_hash_of, tapsighash_tag};

verus! {

/// The sighash-type byte of a taproot key or script spend signing all inputs
/// and outputs implicitly.
pub const SIGHASH_DEFAULT: u8 = 0;

/// The sighash-type byte signing all inputs and outputs explicitly.
pub const SIGHASH_ALL: u8 = 1;

/// The spend-type byte of a script-path spend without an annex.
pub const SPEND_TYPE_SCRIPT_PATH: u8 = 2;

/// The key-version byte of a tapscript leaf.
pub const KEY_VERSION_TAPSCRIPT: u8 = 0;

/// The code-separator position when no code separator was executed.
pub const CODESEP_NONE: u32 = 0xffff_ffff;

/// Named toggles selecting which signature-message components a
/// decomposition call must produce; all are included unless a caller disables
/// the subset it will instead supply as explicit witness pushes or hard-coded
/// script constants. No protocol in this crate attaches an annex or uses a
/// single-output sighash, so the `annex` and `single_output` toggles select
/// components that are always empty and add no bytes.
pub struct TxCommitmentSpec {
    pub epoch: bool,
    pub control: bool,
    pub version: bool,
    pub locktime: bool,
    pub prevouts: bool,
    pub prev_amounts: bool,
    pub prev_scriptpubkeys: bool,
    pub sequences: bool,
    pub outputs: bool,
    pub spend_type: bool,
    pub annex: bool,
    pub single_output: bool,
    pub scriptpath: bool,
    pub input_index: bool,
}

/// The spec with every component included.
pub open spec fn spec_all() -> TxCommitmentSpec {
    TxCommitmentSpec {
        epoch: true,
        control: true,
        version: true,
        locktime: true,
        prevouts: true,
        prev_amounts: true,
        prev_scriptpubkeys: true,
        sequences: true,
        outputs: true,
        spend_type: true,
        annex: true,
        single_output: true,
        scriptpath: true,
        input_index: true,
    }
}

impl TxCommitmentSpec {
    /// The mask with every component included.
    pub fn all() -> (r: TxCommitmentSpec)
        ensures
            r == spec_all(),
    {
        TxCommitmentSpec {
            epoch: true,
            control: true,
            version: true,
            locktime: true,
            prevouts: true,
            prev_amounts: true,
            prev_scriptpubkeys: true,
            sequences: true,
            outputs: true,
            spend_type: true,
            annex: true,
            single_output: true,
            scriptpath: true,
            input_index: true,
        }
    }
}

impl Default for TxCommitmentSpec {
    /// The default mask includes every component.
    fn default() -> (r: TxCommitmentSpec)
        ensures
            r == spec_all(),
    {
        TxCommitmentSpec::all()
    }
}

/// The serialized outpoints of the inputs, one after the other.
pub open spec fn outpoints_blob(s: Seq<TxIn>) -> Seq<u8>
    decreases s.len(),
{
    if s.len() == 0 {
        Seq::empty()
    } else {
        outpoints_blob(s.drop_last()) + encode_outpoint(s.last().previous_output)
    }
}

/// The little-endian sequence numbers of the inputs, one after the other.
pub open spec fn sequences_blob(s: Seq<TxIn>) -> Seq<u8>
    decreases s.len(),
{
    if s.len() == 0 {
        Seq::empty()
    } else {
        sequences_blob(s.drop_last()) + le32(s.last().sequence)
    }
}

/// The little-endian values of the spent outputs, one after the other.
pub open spec fn amounts_blob(s: Seq<TxOut>) -> Seq<u8>
    decreases s.len(),
{
    if s.len() == 0 {
        Seq::empty()
    } else {
        amounts_blob(s.drop_last()) + le64(s.last().value)
    }
}

/// The length-prefixed scripts of the spent outputs, one after the other.
pub open spec fn scriptpubkeys_blob(s: Seq<TxOut>) -> Seq<u8>
    decreases s.len(),
{
    if s.len() == 0 {
        Seq::empty()
    } else {
        scriptpubkeys_blob(s.drop_last()) + encode_script(s.last().script_pubkey@)
    }
}

/// The serialized outputs, one after the other.
pub open spec fn outputs_blob(s: Seq<TxOut>) -> Seq<u8>
    decreases s.len(),
{
    if s.len() == 0 {
        Seq::empty()
    } else {
        outputs_blob(s.drop_last()) + encode_txout(s.last())
    }
}

/// The script-path extension: the leaf hash, the key version, and the
/// code-separator position.
pub open spec fn scriptpath_component(leaf_hash: Seq<u8>) -> Seq<u8> {
    leaf_hash + seq![KEY_VERSION_TAPSCRIPT] + le32(CODESEP_NONE)
}

/// The ordered component list that a commitment mask selects from a
/// transaction, the outputs it spends, a tapscript leaf hash and a sighash
/// type.
pub open spec fn sigmsg_components_spec(
    cs: TxCommitmentSpec,
    tx: Transaction,
    input_index: u32,
    prevouts: Seq<TxOut>,
    leaf_hash: Seq<u8>,
    sighash_type: u8,
) -> Seq<Seq<u8>> {
    let s = Seq::<Seq<u8>>::empty();
    let s = if cs.epoch { s.push(seq![0u8]) } else { s };
    let s = if cs.control { s.push(seq![sighash_type]) } else { s };
    let s = if cs.version { s.push(le32(tx.version)) } else { s };
    let s = if cs.locktime { s.push(le32(tx.lock_time)) } else { s };
    let s = if cs.prevouts { s.push(sha256_of(outpoints_blob(tx.input@))) } else { s };
    let s = if cs.prev_amounts { s.push(sha256_of(amounts_blob(prevouts))) } else { s };
    let s = if cs.prev_scriptpubkeys { s.push(sha256_of(scriptpubkeys_blob(prevouts))) } else { s };
    let s = if cs.sequences { s.push(sha256_of(sequences_blob(tx.input@))) } else { s };
    let s = if cs.outputs { s.push(sha256_of(outputs_blob(tx.output@))) } else { s };
    let s = if cs.spend_type { s.push(seq![SPEND_TYPE_SCRIPT_PATH]) } else { s };
    let s = if cs.input_index { s.push(le32(input_index)) } else { s };
    let s = if cs.scriptpath { s.push(scriptpath_component(leaf_hash)) } else { s };
    s
}

/// The views of a vector of byte vectors.
pub open spec fn bytes_views(s: Seq<Vec<u8>>) -> Seq<Seq<u8>> {
    s.map_values(|v: Vec<u8>| v@)
}

pub proof fn lemma_views_push(s: Seq<Vec<u8>>, v: Vec<u8>)
    ensures
        bytes_views(s.push(v)) == bytes_views(s).push(v@),
{
    assert(bytes_views(s.push(v)) =~= bytes_views(s).push(v@));
}

/// The outpoint and sequence blobs read nothing but each input's outpoint
/// and sequence, so attaching a witness leaves them unchanged.
pub proof fn lemma_blobs_ignore_witness(a: Seq<TxIn>, b: Seq<TxIn>)
    requires
        a.len() == b.len(),
        forall|i: int|
            0 <= i < a.len() ==> a[i].previous_output == b[i].previous_output && a[i].sequence
                == b[i].sequence,
    ensures
        outpoints_blob(a) == outpoints_blob(b),
        sequences_blob(a) == sequences_blob(b),
    decreases a.len(),
{
    if a.len() == 0 {
    } else {
        lemma_blobs_ignore_witness(a.drop_last(), b.drop_last());
        assert(a[a.len() - 1].previous_output == b[b.len() - 1].previous_output);
        assert(a[a.len() - 1].sequence == b[b.len() - 1].sequence);
    }
}

/// The serialized outpoints of `inputs`, as a fresh vector.
fn outpoints_blob_exec(inputs: &Vec<TxIn>) -> (r: Vec<u8>)
    ensures
        r@ == outpoints_blob(inputs@),
{
    let mut r: Vec<u8> = Vec::new();
    let mut i: usize = 0;
    while i < inputs.len()
        invariant
            i <= inputs@.len(),
            r@ == outpoints_blob(inputs@.take(i as int)),
        decreases inputs@.len() - i,
    {
        push_outpoint(&mut r, &inputs[i].previous_output);
        proof {
            let post = inputs@.take(i + 1 as int);
            assert(post.drop_last() =~= inputs@.take(i as int));
            assert(post.last() == inputs@[i as int]);
        }
        i = i + 1;
    }
    proof {
        assert(inputs@.take(inputs@.len() as int) =~= inputs@);
    }
    r
}

/// The little-endian sequence numbers of `inputs`, as a fresh vector.
fn sequences_blob_exec(inputs: &Vec<TxIn>) -> (r: Vec<u8>)
    ensures
        r@ == sequences_blob(inputs@),
{
    let mut r: Vec<u8> = Vec::new();
    let mut i: usize = 0;
    while i < inputs.len()
        invariant
            i <= inputs@.len(),
            r@ == sequences_blob(inputs@.take(i as int)),
        decreases inputs@.len() - i,
    {
        push_u32_le(&mut r, inputs[i].sequence);
        proof {
            let post = inputs@.take(i + 1 as int);
            assert(post.drop_last() =~= inputs@.take(i as int));
            assert(post.last() == inputs@[i as int]);
        }
        i = i + 1;
    }
    proof {
        assert(inputs@.take(inputs@.len() as int) =~= inputs@);
    }
    r
}

/// The little-endian values of `prevouts`, as a fresh vector.
fn amounts_blob_exec(prevouts: &Vec<TxOut>) -> (r: Vec<u8>)
    ensures
        r@ == amounts_blob(prevouts@),
{
    let mut r: Vec<u8> = Vec::new();
    let mut i: usize = 0;
    while i < prevouts.len()
        invariant
            i <= prevouts@.len(),
            r@ == amounts_blob(prevouts@.take(i as int)),
        decreases prevouts@.len() - i,
    {
        push_u64_le(&mut r, prevouts[i].value);
        proof {
            let post = prevouts@.take(i + 1 as int);
            assert(post.drop_last() =~= prevouts@.take(i as int));
            assert(post.last() == prevouts@[i as int]);
        }
        i = i + 1;
    }
    proof {
        assert(prevouts@.take(prevouts@.len() as int) =~= prevouts@);
    }
    r
}

/// The length-prefixed scripts of `prevouts`, as a fresh vector.
fn scriptpubkeys_blob_exec(prevouts: &Vec<TxOut>) -> (r: Vec<u8>)
    ensures
        r@ == scriptpubkeys_blob(prevouts@),
{
    let mut r: Vec<u8> = Vec::new();
    let mut i: usize = 0;
    while i < prevouts.len()
        invariant
            i <= prevouts@.len(),
            r@ == scriptpubkeys_blob(prevouts@.take(i as int)),
        decreases prevouts@.len() - i,
    {
        push_script(&mut r, &prevouts[i].script_pubkey);
        proof {
            let post = prevouts@.take(i + 1 as int);
            assert(post.drop_last() =~= prevouts@.take(i as int));
            assert(post.last() == prevouts@[i as int]);
        }
        i = i + 1;
    }
    proof {
        assert(prevouts@.take(prevouts@.len() as int) =~= prevouts@);
    }
    r
}

/// The serialized outputs of `outputs`, as a fresh vector.
pub fn outputs_blob_exec(outputs: &Vec<TxOut>) -> (r: Vec<u8>)
    ensures
        r@ == outputs_blob(outputs@),
{
    let mut r: Vec<u8> = Vec::new();
    let mut i: usize = 0;
    while i < outputs.len()
        invariant
            i <= outputs@.len(),
            r@ == outputs_blob(outputs@.take(i as int)),
        decreases outputs@.len() - i,
    {
        push_txout(&mut r, &outputs[i]);
        proof {
            let post = outputs@.take(i + 1 as int);
            assert(post.drop_last() =~= outputs@.take(i as int));
            assert(post.last() == outputs@[i as int]);
        }
        i = i + 1;
    }
    proof {
        assert(outputs@.take(outputs@.len() as int) =~= outputs@);
    }
    r
}

/// The script-path extension bytes, as a fresh vector.
fn scriptpath_component_exec(leaf_hash: &Vec<u8>) -> (r: Vec<u8>)
    ensures
        r@ == scriptpath_component(leaf_hash@),
{
    let mut r: Vec<u8> = Vec::new();
    push_bytes(&mut r, leaf_hash);
    r.push(KEY_VERSION_TAPSCRIPT);
    push_u32_le(&mut r, CODESEP_NONE);
    proof {
        assert(r@ =~= scriptpath_component(leaf_hash@));
    }
    r
}

/// Decomposes the signature message of a script-path spend of
/// `tx.input[input_index]` into the components that `cs` enables, in message
/// order. `prevouts` are the outputs all inputs spend; `leaf_hash` is the
/// 32-byte hash of the leaf being spent.
#[verifier::rlimit(100)]
#[verifier::spinoff_prover]
pub fn get_sigmsg_components(
    cs: &TxCommitmentSpec,
    tx: &Transaction,
    input_index: u32,
    prevouts: &Vec<TxOut>,
    leaf_hash: &Vec<u8>,
    sighash_type: u8,
) -> (r: Vec<Vec<u8>>)
    ensures
        bytes_views(r@) == sigmsg_components_spec(
            *cs, *tx, input_index, prevouts@, leaf_hash@, sighash_type),
{
    let mut r: Vec<Vec<u8>> = Vec::new();
    let ghost mut acc: Seq<Seq<u8>> = Seq::empty();
    proof {
        assert(bytes_views(r@) == acc);
    }
    if cs.epoch {
        let v: Vec<u8> = vec![0u8];
        proof { lemma_views_push(r@, v); assert(v@ =~= seq![0u8]); }
        r.push(v);
        proof {
            acc = acc.push(seq![0u8]);
            assert(bytes_views(r@) == acc);
        }
    }
    if cs.control {
        let v: Vec<u8> = vec![sighash_type];
        proof { lemma_views_push(r@, v); assert(v@ =~= seq![sighash_type]); }
        r.push(v);
        proof {
            acc = acc.push(seq![sighash_type]);
            assert(bytes_views(r@) == acc);
        }
    }
    if cs.version {
        let v = u32_le_bytes(tx.version);
        proof { lemma_views_push(r@, v); }
        r.push(v);
        proof {
            acc = acc.push(le32(tx.version));
            assert(bytes_views(r@) == acc);
        }
    }
    if cs.locktime {
        let v = u32_le_bytes(tx.lock_time);
        proof { lemma_views_push(r@, v); }
        r.push(v);
        proof {
            acc = acc.push(le32(tx.lock_time));
            assert(bytes_views(r@) == acc);
        }
    }
    if cs.prevouts {
        let blob = outpoints_blob_exec(&tx.input);
        let v = sha256(&blob);
        proof { lemma_views_push(r@, v); }
        r.push(v);
        proof {
            acc = acc.push(sha256_of(outpoints_blob(tx.input@)));
            assert(bytes_views(r@) == acc);
        }
    }
    if cs.prev_amounts {
        let blob = amounts_blob_exec(prevouts);
        let v = sha256(&blob);
        proof { lemma_views_push(r@, v); }
        r.push(v);
        proof {
            acc = acc.push(sha256_of(amounts_blob(prevouts@)));
            assert(bytes_views(r@) == acc);
        }
    }
    if cs.prev_scriptpubkeys {
        let blob = scriptpubkeys_blob_exec(prevouts);
        let v = sha256(&blob);
        proof { lemma_views_push(r@, v); }
        r.push(v);
        proof {
            acc = acc.push(sha256_of(scriptpubkeys_blob(prevouts@)));
            assert(bytes_views(r@) == acc);
        }
    }
    if cs.sequences {
        let blob = sequences_blob_exec(&tx.input);
        let v = sha256(&blob);
        proof { lemma_views_push(r@, v); }
        r.push(v);
        proof {
            acc = acc.push(sha256_of(sequences_blob(tx.input@)));
            assert(bytes_views(r@) == acc);
        }
    }
    if cs.outputs {
        let blob = outputs_blob_exec(&tx.output);
        let v = sha256(&blob);
        proof { lemma_views_push(r@, v); }
        r.push(v);
        proof {
            acc = acc.push(sha256_of(outputs_blob(tx.output@)));
            assert(bytes_views(r@) == acc);
        }
    }
    if cs.spend_type {
        let v: Vec<u8> = vec![SPEND_TYPE_SCRIPT_PATH];
        proof { lemma_views_push(r@, v); assert(v@ =~= seq![SPEND_TYPE_SCRIPT_PATH]); }
        r.push(v);
        proof {
            acc = acc.push(seq![SPEND_TYPE_SCRIPT_PATH]);
            assert(bytes_views(r@) == acc);
        }
    }
    if cs.input_index {
        let v = u32_le_bytes(input_index);
        proof { lemma_views_push(r@, v); }
        r.push(v);
        proof {
            acc = acc.push(le32(input_index));
            assert(bytes_views(r@) == acc);
        }
    }
    if cs.scriptpath {
        let v = scriptpath_component_exec(leaf_hash);
        proof { lemma_views_push(r@, v); }
        r.push(v);
        proof {
            acc = acc.push(scriptpath_component(leaf_hash@));
            assert(bytes_views(r@) == acc);
        }
    }
    proof {
        assert(acc == sigmsg_components_spec(
            *cs, *tx, input_index, prevouts@, leaf_hash@, sighash_type));
    }
    r
}

/// The full signature message of a script-path spend: every component, one
/// after the other.
pub open spec fn full_sigmsg(
    tx: Transaction,
    input_index: u32,
    prevouts: Seq<TxOut>,
    leaf_hash: Seq<u8>,
    sighash_type: u8,
) -> Seq<u8> {
    seq![0u8] + seq![sighash_type] + le32(tx.version) + le32(tx.lock_time)
    + sha256_of(outpoints_blob(tx.input@))
    + sha256_of(amounts_blob(prevouts))
    + sha256_of(scriptpubkeys_blob(prevouts))
    + sha256_of(sequences_blob(tx.input@))
    + sha256_of(outputs_blob(tx.output@))
    + seq![SPEND_TYPE_SCRIPT_PATH] + le32(input_index)
    + scriptpath_component(leaf_hash)
}

/// The taproot script-spend signature hash: the tagged hash of the full
/// signature message.
pub open spec fn tap_sighash_of(
    tx: Transaction,
    input_index: u32,
    prevouts: Seq<TxOut>,
    leaf_hash: Seq<u8>,
    sighash_type: u8,
) -> Seq<u8> {
    tagged_hash_of(tapsighash_tag(), full_sigmsg(tx, input_index, prevouts, leaf_hash, sighash_type))
}

/// Computes the taproot script-spend signature hash of
/// `tx.input[input_index]`.
pub fn tap_sighash(
    tx: &Transaction,
    input_index: u32,
    prevouts: &Vec<TxOut>,
    leaf_hash: &Vec<u8>,
    sighash_type: u8,
) -> (r: Vec<u8>)
    ensures
        r@ == tap_sighash_of(*tx, input_index, prevouts@, leaf_hash@, sighash_type),
        r@.len() == 32,
{
    let mut msg: Vec<u8> = Vec::new();
    msg.push(0u8);
    msg.push(sighash_type);
    push_u32_le(&mut msg, tx.version);
    push_u32_le(&mut msg, tx.lock_time);
    let outpoints = outpoints_blob_exec(&tx.input);
    let h = sha256(&outpoints);
    push_bytes(&mut msg, &h);
    let amounts = amounts_blob_exec(prevouts);
    let h = sha256(&amounts);
    push_bytes(&mut msg, &h);
    let scripts = scriptpubkeys_blob_exec(prevouts);
    let h = sha256(&scripts);
    push_bytes(&mut msg, &h);
    let sequences = sequences_blob_exec(&tx.input);
    let h = sha256(&sequences);
    push_bytes(&mut msg, &h);
    let outs = outputs_blob_exec(&tx.output);
    let h = sha256(&outs);
    push_bytes(&mut msg, &h);
    msg.push(SPEND_TYPE_SCRIPT_PATH);
    push_u32_le(&mut msg, input_index);
    let ext = scriptpath_component_exec(leaf_hash);
    push_bytes(&mut msg, &ext);
    proof {
        assert(msg@ =~= full_sigmsg(*tx, input_index, prevouts@, leaf_hash@, sighash_type));
    }
    let tag = crate::crypto::tapsighash_tag_bytes();
    tagged_hash(&tag, &msg)
}

} // verus!
