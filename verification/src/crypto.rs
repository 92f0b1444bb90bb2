//! The cryptographic primitives the covenant consumes, behind trusted
//! wrappers: SHA-256, the secp256k1 generator encoding, x-only point decoding,
//! keypair generation and Schnorr signing. Tagged hashing is assembled here in
//! verified code on top of the SHA-256 wrapper.

use vstd::prelude::*;
use secp256kfun::marker::{EvenY, NonZero, Public};
use crate::encode::push_bytes;

verus! {

/// The 32-byte SHA-256 digest of a byte string.
pub uninterp spec fn sha256_of(data: Seq<u8>) -> Seq<u8>;

/// Whether 32 bytes are the big-endian x-coordinate of a secp256k1 curve
/// point (with even y), i.e. decode to a valid x-only public key.
pub uninterp spec fn is_xonly_key(b: Seq<u8>) -> bool;

/// The x-only public key derived from 32 secret-key bytes.
pub uninterp spec fn pubkey_of(sk: Seq<u8>) -> Seq<u8>;

/// Whether the bytes are a valid secp256k1 secret key: 32 bytes holding a
/// scalar in the curve order's range.
pub uninterp spec fn is_seckey(sk: Seq<u8>) -> bool;

/// Whether `sig` is a BIP-340 Schnorr signature that verifies under the
/// x-only public key `pubkey` over the 32-byte message `msg`.
pub uninterp spec fn schnorr_verifies(sig: Seq<u8>, pubkey: Seq<u8>, msg: Seq<u8>) -> bool;

/// The SEC1 uncompressed encoding of the secp256k1 generator point: 0x04,
/// then the 32 big-endian bytes of its x-coordinate, then of its
/// y-coordinate, as the curve's standard fixes them.
pub open spec fn generator_uncompressed() -> Seq<u8> {
    seq![
        0x04u8, 0x79, 0xbe, 0x66, 0x7e, 0xf9, 0xdc, 0xbb, 0xac, 0x55, 0xa0, 0x62, 0x95, 0xce,
        0x87, 0x0b, 0x07, 0x02, 0x9b, 0xfc, 0xdb, 0x2d, 0xce, 0x28, 0xd9, 0x59, 0xf2, 0x81,
        0x5b, 0x16, 0xf8, 0x17, 0x98, 0x48, 0x3a, 0xda, 0x77, 0x26, 0xa3, 0xc4, 0x65, 0x5d,
        0xa4, 0xfb, 0xfc, 0x0e, 0x11, 0x08, 0xa8, 0xfd, 0x17, 0xb4, 0x48, 0xa6, 0x85, 0x54,
        0x19, 0x9c, 0x47, 0xd0, 0x8f, 0xfb, 0x10, 0xd4, 0xb8,
    ]
}

/// Relies on bitcoin::hashes::sha256::Hash::hash: the 32-byte SHA-256 digest
/// of the input bytes.
#[verifier::external_body]
pub(crate) fn sha256(data: &Vec<u8>) -> (r: Vec<u8>)
    ensures
        r@ == sha256_of(data@),
        r@.len() == 32,
{
    let h = <bitcoin::hashes::sha256::Hash as bitcoin::hashes::Hash>::hash(data.as_slice());
    <bitcoin::hashes::sha256::Hash as bitcoin::hashes::Hash>::to_byte_array(h).to_vec()
}

/// Relies on secp256kfun::G::to_bytes_uncompressed: the 65-byte SEC1
/// uncompressed encoding (0x04 then x then y, big-endian) of the secp256k1
/// generator, whose coordinates are the standard curve constants that
/// `generator_uncompressed` lists.
#[verifier::external_body]
pub(crate) fn generator_uncompressed_bytes() -> (r: Vec<u8>)
    ensures
        r@ == generator_uncompressed(),
{
    secp256kfun::G.normalize().to_bytes_uncompressed().to_vec()
}

/// Relies on secp256kfun::Point::<EvenY, _, _>::from_xonly_bytes, which is
/// Some exactly when the 32 bytes decode to a curve point with even y, and on
/// to_xonly_bytes, which re-serializes that point to the same x-coordinate
/// bytes.
#[verifier::external_body]
pub(crate) fn xonly_point_check(b: &Vec<u8>) -> (r: Option<Vec<u8>>)
    ensures
        r matches Some(k) ==> k@ == b@,
        (r is Some) <==> (b@.len() == 32 && is_xonly_key(b@)),
{
    let arr: [u8; 32] = match b.as_slice().try_into() {
        Ok(a) => a,
        Err(_) => return None,
    };
    secp256kfun::Point::<EvenY, Public, NonZero>::from_xonly_bytes(arr)
        .map(|p| p.to_xonly_bytes().to_vec())
}

/// Relies on bitcoin::key::Keypair::new with the thread RNG: a fresh random
/// keypair, returned as (secret key bytes, x-only public key bytes). Every
/// outcome is a valid secret key, and the public key is the one secp256k1
/// derives from it.
#[verifier::external_body]
pub(crate) fn generate_keypair() -> (r: (Vec<u8>, Vec<u8>))
    ensures
        r.0@.len() == 32,
        r.1@.len() == 32,
        r.1@ == pubkey_of(r.0@),
        is_seckey(r.0@),
{
    let secp = bitcoin::key::Secp256k1::new();
    let kp = bitcoin::key::Keypair::new(&secp, &mut bitcoin::secp256k1::rand::thread_rng());
    (kp.secret_bytes().to_vec(), kp.x_only_public_key().0.serialize().to_vec())
}

/// Relies on secp256k1's Schnorr signing (bitcoin::key::Keypair and
/// Secp256k1::sign_schnorr): a 64-byte BIP-340 signature over the 32-byte
/// digest that verifies under the public key derived from the secret key, or
/// None when the bytes are not a valid secret key or digest. The auxiliary
/// data is random, so which signature comes back is not pinned — only that
/// it verifies.
#[verifier::external_body]
pub(crate) fn schnorr_sign(seckey: &Vec<u8>, digest: &Vec<u8>) -> (r: Option<Vec<u8>>)
    ensures
        (r is Some) == (is_seckey(seckey@) && digest@.len() == 32),
        r matches Some(s) ==> s@.len() == 64 && schnorr_verifies(
            s@, pubkey_of(seckey@), digest@),
{
    let secp = bitcoin::key::Secp256k1::new();
    let kp = match bitcoin::key::Keypair::from_seckey_slice(&secp, seckey.as_slice()) {
        Ok(k) => k,
        Err(_) => return None,
    };
    let arr: [u8; 32] = match digest.as_slice().try_into() {
        Ok(a) => a,
        Err(_) => return None,
    };
    let msg = bitcoin::secp256k1::Message::from_digest(arr);
    Some(secp.sign_schnorr(&msg, &kp).serialize().to_vec())
}

/// The ASCII bytes of the BIP-340 tag under which taproot signature messages
/// are hashed.
pub open spec fn tapsighash_tag() -> Seq<u8> {
    seq![0x54u8, 0x61, 0x70, 0x53, 0x69, 0x67, 0x68, 0x61, 0x73, 0x68]
}

/// A BIP-340 tagged hash: sha256(sha256(tag) || sha256(tag) || msg).
pub open spec fn tagged_hash_of(tag: Seq<u8>, msg: Seq<u8>) -> Seq<u8> {
    sha256_of(sha256_of(tag) + sha256_of(tag) + msg)
}

/// The ASCII bytes "TapSighash", as a fresh vector.
pub fn tapsighash_tag_bytes() -> (r: Vec<u8>)
    ensures
        r@ == tapsighash_tag(),
{
    let r: Vec<u8> = vec![0x54, 0x61, 0x70, 0x53, 0x69, 0x67, 0x68, 0x61, 0x73, 0x68];
    proof {
        assert(r@ =~= tapsighash_tag());
    }
    r
}

/// The tagged hash of `msg` under `tag`.
pub fn tagged_hash(tag: &Vec<u8>, msg: &Vec<u8>) -> (r: Vec<u8>)
    ensures
        r@ == tagged_hash_of(tag@, msg@),
        r@.len() == 32,
{
    let tag_hash = sha256(tag);
    let mut buf: Vec<u8> = Vec::new();
    push_bytes(&mut buf, &tag_hash);
    push_bytes(&mut buf, &tag_hash);
    push_bytes(&mut buf, msg);
    proof {
        assert(buf@ =~= sha256_of(tag@) + sha256_of(tag@) + msg@);
    }
    sha256(&buf)
}

} // verus!
