//! Taproot address derivation: the nothing-up-my-sleeve internal key, the
//! tree commitment of weighted leaf scripts to an x-only output key, the
//! control block of one leaf, and the pay-to-taproot script. The Merkle
//! hashing rules of the commitment are a fixed external contract, consumed
//! through trusted wrappers; everything around them is verified.

use vstd::prelude::*;
use crate::crypto::{
    generator_uncompressed, generator_uncompressed_bytes, is_xonly_key, sha256, sha256_of,
    tagged_hash, tagged_hash_of, xonly_point_check,
};
use crate::encode::{encode_script, push_script};
use crate::tx::clone_bytes;

verus! {

/// The version byte of a pay-to-taproot script: the small-integer push of 1.
pub const OP_PUSHNUM_1: u8 = 0x51;

/// The byte that pushes the next 32 bytes of a script.
pub const OP_PUSHBYTES_32: u8 = 0x20;

/// The depth-and-script content of a leaf list.
pub open spec fn leaves_view(s: Seq<(u8, Vec<u8>)>) -> Seq<(u8, Seq<u8>)> {
    s.map_values(|l: (u8, Vec<u8>)| (l.0, l.1@))
}

/// The x-only output key that the taproot commitment derives from an internal
/// key and an ordered list of (depth, leaf script) pairs; None when the key
/// bytes or the leaf layout are refused.
pub uninterp spec fn taproot_output_key_of(internal: Seq<u8>, leaves: Seq<(u8, Seq<u8>)>) -> Option<
    Seq<u8>,
>;

/// The serialized control block that proves one leaf script of the list
/// belongs to the committed tree; None when the derivation or the leaf lookup
/// is refused.
pub uninterp spec fn taproot_control_block_of(
    internal: Seq<u8>,
    leaves: Seq<(u8, Seq<u8>)>,
    script: Seq<u8>,
) -> Option<Seq<u8>>;

/// The consensus byte of the tapscript leaf version.
pub const TAPSCRIPT_LEAF_VERSION: u8 = 0xc0;

/// The ASCII bytes of the tag under which leaf hashes are computed.
pub open spec fn tapleaf_tag() -> Seq<u8> {
    seq![0x54u8, 0x61, 0x70, 0x4c, 0x65, 0x61, 0x66]
}

/// The 32-byte BIP-341 leaf hash of a tapscript: the tagged hash of the leaf
/// version byte and the length-prefixed script.
pub open spec fn tapleaf_hash_of(script: Seq<u8>) -> Seq<u8> {
    tagged_hash_of(tapleaf_tag(), seq![TAPSCRIPT_LEAF_VERSION] + encode_script(script))
}

/// Relies on bitcoin's taproot commitment (TaprootBuilder::new, add_leaf and
/// finalize, then TaprootSpendInfo::output_key): the x-only output key that
/// commits `internal` to the given (depth, script) leaves. All of it is pure
/// key-and-hash arithmetic, a function of the arguments alone; None when the
/// internal key does not parse or the depths do not describe a full binary
/// tree in depth-first order.
#[verifier::external_body]
fn taproot_output_key(internal: &Vec<u8>, leaves: &Vec<(u8, Vec<u8>)>) -> (r: Option<Vec<u8>>)
    ensures
        (r is Some) == (taproot_output_key_of(internal@, leaves_view(leaves@)) is Some),
        r matches Some(k) ==> Some(k@) == taproot_output_key_of(internal@, leaves_view(leaves@)),
{
    let key = bitcoin::XOnlyPublicKey::from_slice(internal.as_slice()).ok()?;
    let mut builder = bitcoin::taproot::TaprootBuilder::new();
    for (depth, script) in leaves.iter() {
        builder = builder.add_leaf(*depth, bitcoin::ScriptBuf::from_bytes(script.clone())).ok()?;
    }
    let secp = bitcoin::secp256k1::Secp256k1::verification_only();
    let info = builder.finalize(&secp, key).ok()?;
    Some(info.output_key().serialize().to_vec())
}

/// Relies on bitcoin's taproot commitment (TaprootBuilder as above, then
/// TaprootSpendInfo::control_block and ControlBlock::serialize): the
/// serialized control block of the `script` leaf under the tree that commits
/// `internal` to `leaves`. A function of the arguments alone; None when the
/// derivation fails or the leaf is not in the tree.
#[verifier::external_body]
fn taproot_control_block(
    internal: &Vec<u8>,
    leaves: &Vec<(u8, Vec<u8>)>,
    script: &Vec<u8>,
) -> (r: Option<Vec<u8>>)
    ensures
        (r is Some) == (taproot_control_block_of(internal@, leaves_view(leaves@), script@)
            is Some),
        r matches Some(cb) ==> Some(cb@) == taproot_control_block_of(
            internal@, leaves_view(leaves@), script@),
{
    let key = bitcoin::XOnlyPublicKey::from_slice(internal.as_slice()).ok()?;
    let mut builder = bitcoin::taproot::TaprootBuilder::new();
    for (d, s) in leaves.iter() {
        builder = builder.add_leaf(*d, bitcoin::ScriptBuf::from_bytes(s.clone())).ok()?;
    }
    let secp = bitcoin::secp256k1::Secp256k1::verification_only();
    let info = builder.finalize(&secp, key).ok()?;
    let leaf = bitcoin::ScriptBuf::from_bytes(script.clone());
    info.control_block(&(leaf, bitcoin::taproot::LeafVersion::TapScript)).map(|cb| cb.serialize())
}

/// Computes the BIP-341 leaf hash of a tapscript.
pub(crate) fn tapleaf_hash(script: &Vec<u8>) -> (r: Vec<u8>)
    ensures
        r@ == tapleaf_hash_of(script@),
        r@.len() == 32,
{
    let tag: Vec<u8> = vec![0x54, 0x61, 0x70, 0x4c, 0x65, 0x61, 0x66];
    let mut msg: Vec<u8> = Vec::new();
    msg.push(TAPSCRIPT_LEAF_VERSION);
    push_script(&mut msg, script);
    proof {
        assert(tag@ =~= tapleaf_tag());
        assert(msg@ =~= seq![TAPSCRIPT_LEAF_VERSION] + encode_script(script@));
    }
    tagged_hash(&tag, &msg)
}

/// The pay-to-taproot script of an output key: OP_1, then the 32 key bytes
/// as one push.
pub open spec fn p2tr_script_of(key: Seq<u8>) -> Seq<u8> {
    seq![OP_PUSHNUM_1, OP_PUSHBYTES_32] + key
}

/// Builds the pay-to-taproot script of `key`.
pub fn p2tr_script(key: &Vec<u8>) -> (r: Vec<u8>)
    ensures
        r@ == p2tr_script_of(key@),
{
    let mut r: Vec<u8> = Vec::new();
    r.push(OP_PUSHNUM_1);
    r.push(OP_PUSHBYTES_32);
    crate::encode::push_bytes(&mut r, key);
    proof {
        assert(r@ =~= p2tr_script_of(key@));
    }
    r
}

/// Derives the nothing-up-my-sleeve internal key: the SHA-256 digest of the
/// generator point's uncompressed encoding, read as an x-only key. None when
/// that digest is not a valid x-coordinate, which a correct build never
/// observes.
pub fn nums_internal_key() -> (r: Option<Vec<u8>>)
    ensures
        (r is Some) == is_xonly_key(sha256_of(generator_uncompressed())),
        r matches Some(k) ==> k@ == sha256_of(generator_uncompressed()) && k@.len() == 32,
{
    let g = generator_uncompressed_bytes();
    let digest = sha256(&g);
    match xonly_point_check(&digest) {
        Some(k) => {
            proof {
                assert(k@.len() == 32);
            }
            Some(k)
        },
        None => None,
    }
}

/// A taproot output-key derivation together with the leaf list it committed,
/// kept so control blocks can be asked for the same tree.
pub struct TaprootTree {
    pub internal: Vec<u8>,
    pub leaves: Vec<(u8, Vec<u8>)>,
    pub output_key: Vec<u8>,
}

impl TaprootTree {
    /// Whether the stored output key is the one the commitment derives.
    pub open spec fn wf(self) -> bool {
        Some(self.output_key@) == taproot_output_key_of(self.internal@, leaves_view(self.leaves@))
    }

    /// Commits `internal` to `leaves`; None exactly when the commitment
    /// itself refuses them.
    pub fn build(internal: Vec<u8>, leaves: Vec<(u8, Vec<u8>)>) -> (r: Option<TaprootTree>)
        ensures
            r matches Some(t) ==> t.wf() && t.internal@ == internal@
                && leaves_view(t.leaves@) == leaves_view(leaves@),
            (r is Some) == (taproot_output_key_of(internal@, leaves_view(leaves@)) is Some),
    {
        match taproot_output_key(&internal, &leaves) {
            Some(k) => Some(TaprootTree { internal, leaves, output_key: k }),
            None => None,
        }
    }

    /// The pay-to-taproot script of this tree's output key.
    pub fn script_pubkey(&self) -> (r: Vec<u8>)
        ensures
            r@ == p2tr_script_of(self.output_key@),
    {
        p2tr_script(&self.output_key)
    }

    /// The control block of the `script` leaf of this tree.
    pub fn control_block(&self, script: &Vec<u8>) -> (r: Option<Vec<u8>>)
        ensures
            (r is Some) == (taproot_control_block_of(
                self.internal@, leaves_view(self.leaves@), script@) is Some),
            r matches Some(cb) ==> Some(cb@) == taproot_control_block_of(
                self.internal@, leaves_view(self.leaves@), script@),
    {
        taproot_control_block(&self.internal, &self.leaves, script)
    }
}

/// A leaf list with one entry.
pub fn leaves1(d0: u8, s0: &Vec<u8>) -> (r: Vec<(u8, Vec<u8>)>)
    ensures
        leaves_view(r@) =~= seq![(d0, s0@)],
{
    let mut r: Vec<(u8, Vec<u8>)> = Vec::new();
    r.push((d0, clone_bytes(s0)));
    proof {
        assert(leaves_view(r@) =~= seq![(d0, s0@)]);
    }
    r
}

/// A leaf list with two entries.
pub fn leaves2(d0: u8, s0: &Vec<u8>, d1: u8, s1: &Vec<u8>) -> (r: Vec<(u8, Vec<u8>)>)
    ensures
        leaves_view(r@) =~= seq![(d0, s0@), (d1, s1@)],
{
    let mut r: Vec<(u8, Vec<u8>)> = Vec::new();
    r.push((d0, clone_bytes(s0)));
    r.push((d1, clone_bytes(s1)));
    proof {
        assert(leaves_view(r@) =~= seq![(d0, s0@), (d1, s1@)]);
    }
    r
}

/// A leaf list with three entries.
pub fn leaves3(d0: u8, s0: &Vec<u8>, d1: u8, s1: &Vec<u8>, d2: u8, s2: &Vec<u8>) -> (r: Vec<
    (u8, Vec<u8>),
>)
    ensures
        leaves_view(r@) =~= seq![(d0, s0@), (d1, s1@), (d2, s2@)],
{
    let mut r: Vec<(u8, Vec<u8>)> = Vec::new();
    r.push((d0, clone_bytes(s0)));
    r.push((d1, clone_bytes(s1)));
    r.push((d2, clone_bytes(s2)));
    proof {
        assert(leaves_view(r@) =~= seq![(d0, s0@), (d1, s1@), (d2, s2@)]);
    }
    r
}

} // verus!
