//! Consensus encoding of the transaction fields that the vault commits to:
//! little-endian integers, compact sizes, scripts, outpoints, outputs and
//! inputs, exactly as Bitcoin serializes them.

use vstd::prelude::*;
use crate::tx::{OutPoint, TxIn, TxOut};

verus! {

/// The two bytes of `n` in little-endian order.
pub open spec fn le16(n: u16) -> Seq<u8> {
    seq![(n & 0xff) as u8, ((n >> 8) & 0xff) as u8]
}

/// The four bytes of `n` in little-endian order.
pub open spec fn le32(n: u32) -> Seq<u8> {
    seq![
        (n & 0xff) as u8,
        ((n >> 8) & 0xff) as u8,
        ((n >> 16) & 0xff) as u8,
        ((n >> 24) & 0xff) as u8,
    ]
}

/// The eight bytes of `n` in little-endian order.
pub open spec fn le64(n: u64) -> Seq<u8> {
    seq![
        (n & 0xff) as u8,
        ((n >> 8) & 0xff) as u8,
        ((n >> 16) & 0xff) as u8,
        ((n >> 24) & 0xff) as u8,
        ((n >> 32) & 0xff) as u8,
        ((n >> 40) & 0xff) as u8,
        ((n >> 48) & 0xff) as u8,
        ((n >> 56) & 0xff) as u8,
    ]
}

/// Bitcoin's variable-length count encoding.
pub open spec fn compact_size(n: u64) -> Seq<u8> {
    if n < 0xfd {
        seq![n as u8]
    } else if n <= 0xffff {
        seq![0xfdu8] + le16(n as u16)
    } else if n <= 0xffff_ffff {
        seq![0xfeu8] + le32(n as u32)
    } else {
        seq![0xffu8] + le64(n)
    }
}

/// A script as it stands inside a transaction: its length as a compact size,
/// then its bytes.
pub open spec fn encode_script(s: Seq<u8>) -> Seq<u8> {
    compact_size(s.len() as u64) + s
}

/// An outpoint: the 32 transaction-id bytes, then the output index.
pub open spec fn encode_outpoint(o: OutPoint) -> Seq<u8> {
    o.txid@ + le32(o.vout)
}

/// An output: its value, then its locking script.
pub open spec fn encode_txout(o: TxOut) -> Seq<u8> {
    le64(o.value) + encode_script(o.script_pubkey@)
}

/// An input without its witness: outpoint, empty script sig, sequence.
pub open spec fn encode_txin(i: TxIn) -> Seq<u8> {
    encode_outpoint(i.previous_output) + seq![0u8] + le32(i.sequence)
}

/// The inputs' encodings, one after the other, without a count.
pub open spec fn inputs_blob(s: Seq<TxIn>) -> Seq<u8>
    decreases s.len(),
{
    if s.len() == 0 {
        Seq::empty()
    } else {
        inputs_blob(s.drop_last()) + encode_txin(s.last())
    }
}

/// A vector of inputs: the count, then each input in order.
pub open spec fn encode_inputs(s: Seq<TxIn>) -> Seq<u8> {
    compact_size(s.len() as u64) + inputs_blob(s)
}

/// Appends the two little-endian bytes of `n`.
pub fn push_u16_le(buf: &mut Vec<u8>, n: u16)
    ensures
        final(buf)@ == old(buf)@ + le16(n),
{
    buf.push((n & 0xff) as u8);
    buf.push(((n >> 8) & 0xff) as u8);
    proof {
        assert(buf@ =~= old(buf)@ + le16(n));
    }
}

/// Appends the four little-endian bytes of `n`.
pub fn push_u32_le(buf: &mut Vec<u8>, n: u32)
    ensures
        final(buf)@ == old(buf)@ + le32(n),
{
    buf.push((n & 0xff) as u8);
    buf.push(((n >> 8) & 0xff) as u8);
    buf.push(((n >> 16) & 0xff) as u8);
    buf.push(((n >> 24) & 0xff) as u8);
    proof {
        assert(buf@ =~= old(buf)@ + le32(n));
    }
}

/// Appends the eight little-endian bytes of `n`.
pub fn push_u64_le(buf: &mut Vec<u8>, n: u64)
    ensures
        final(buf)@ == old(buf)@ + le64(n),
{
    buf.push((n & 0xff) as u8);
    buf.push(((n >> 8) & 0xff) as u8);
    buf.push(((n >> 16) & 0xff) as u8);
    buf.push(((n >> 24) & 0xff) as u8);
    buf.push(((n >> 32) & 0xff) as u8);
    buf.push(((n >> 40) & 0xff) as u8);
    buf.push(((n >> 48) & 0xff) as u8);
    buf.push(((n >> 56) & 0xff) as u8);
    proof {
        assert(buf@ =~= old(buf)@ + le64(n));
    }
}

/// Appends all bytes of `src`.
pub fn push_bytes(buf: &mut Vec<u8>, src: &Vec<u8>)
    ensures
        final(buf)@ == old(buf)@ + src@,
{
    let mut i: usize = 0;
    while i < src.len()
        invariant
            i <= src@.len(),
            buf@ == old(buf)@ + src@.take(i as int),
        decreases src@.len() - i,
    {
        buf.push(src[i]);
        proof {
            assert(old(buf)@ + src@.take(i + 1 as int)
                =~= (old(buf)@ + src@.take(i as int)).push(src@[i as int]));
        }
        i = i + 1;
    }
    proof {
        assert(src@.take(src@.len() as int) =~= src@);
    }
}

/// Appends the compact-size encoding of `n`.
pub fn push_compact_size(buf: &mut Vec<u8>, n: u64)
    ensures
        final(buf)@ == old(buf)@ + compact_size(n),
{
    if n < 0xfd {
        buf.push(n as u8);
        proof {
            assert(buf@ =~= old(buf)@ + compact_size(n));
        }
    } else if n <= 0xffff {
        buf.push(0xfd);
        push_u16_le(buf, n as u16);
        proof {
            assert(buf@ =~= old(buf)@ + compact_size(n));
        }
    } else if n <= 0xffff_ffff {
        buf.push(0xfe);
        push_u32_le(buf, n as u32);
        proof {
            assert(buf@ =~= old(buf)@ + compact_size(n));
        }
    } else {
        buf.push(0xff);
        push_u64_le(buf, n);
        proof {
            assert(buf@ =~= old(buf)@ + compact_size(n));
        }
    }
}

/// Appends a script with its compact-size length prefix.
pub fn push_script(buf: &mut Vec<u8>, s: &Vec<u8>)
    ensures
        final(buf)@ == old(buf)@ + encode_script(s@),
{
    push_compact_size(buf, s.len() as u64);
    push_bytes(buf, s);
    proof {
        assert(buf@ =~= old(buf)@ + encode_script(s@));
    }
}

/// Appends an outpoint's encoding.
pub fn push_outpoint(buf: &mut Vec<u8>, o: &OutPoint)
    ensures
        final(buf)@ == old(buf)@ + encode_outpoint(*o),
{
    push_bytes(buf, &o.txid);
    push_u32_le(buf, o.vout);
    proof {
        assert(buf@ =~= old(buf)@ + encode_outpoint(*o));
    }
}

/// Appends an output's encoding.
pub fn push_txout(buf: &mut Vec<u8>, o: &TxOut)
    ensures
        final(buf)@ == old(buf)@ + encode_txout(*o),
{
    push_u64_le(buf, o.value);
    push_script(buf, &o.script_pubkey);
    proof {
        assert(buf@ =~= old(buf)@ + encode_txout(*o));
    }
}

/// The four little-endian bytes of `n`, as a fresh vector.
pub fn u32_le_bytes(n: u32) -> (r: Vec<u8>)
    ensures
        r@ == le32(n),
{
    let mut r: Vec<u8> = Vec::new();
    push_u32_le(&mut r, n);
    proof {
        assert(r@ =~= le32(n));
    }
    r
}

/// The eight little-endian bytes of `n`, as a fresh vector.
pub fn u64_le_bytes(n: u64) -> (r: Vec<u8>)
    ensures
        r@ == le64(n),
{
    let mut r: Vec<u8> = Vec::new();
    push_u64_le(&mut r, n);
    proof {
        assert(r@ =~= le64(n));
    }
    r
}

/// A script's encoding, as a fresh vector.
pub fn script_encoding(s: &Vec<u8>) -> (r: Vec<u8>)
    ensures
        r@ == encode_script(s@),
{
    let mut r: Vec<u8> = Vec::new();
    push_script(&mut r, s);
    proof {
        assert(r@ =~= encode_script(s@));
    }
    r
}

/// An outpoint's encoding, as a fresh vector.
pub fn outpoint_encoding(o: &OutPoint) -> (r: Vec<u8>)
    ensures
        r@ == encode_outpoint(*o),
{
    let mut r: Vec<u8> = Vec::new();
    push_outpoint(&mut r, o);
    proof {
        assert(r@ =~= encode_outpoint(*o));
    }
    r
}

/// The consensus encoding of a vector of inputs, as a fresh vector.
pub fn inputs_encoding(inputs: &Vec<TxIn>) -> (r: Vec<u8>)
    ensures
        r@ == encode_inputs(inputs@),
{
    let mut r: Vec<u8> = Vec::new();
    push_compact_size(&mut r, inputs.len() as u64);
    let ghost prefix = compact_size(inputs@.len() as u64);
    let mut i: usize = 0;
    while i < inputs.len()
        invariant
            i <= inputs@.len(),
            prefix == compact_size(inputs@.len() as u64),
            r@ == prefix + inputs_blob(inputs@.take(i as int)),
        decreases inputs@.len() - i,
    {
        let inp = &inputs[i];
        push_outpoint(&mut r, &inp.previous_output);
        r.push(0u8);
        push_u32_le(&mut r, inp.sequence);
        proof {
            let pre = inputs@.take(i as int);
            let post = inputs@.take(i + 1 as int);
            assert(post.drop_last() =~= pre);
            assert(post.last() == inputs@[i as int]);
            assert(r@ =~= prefix + inputs_blob(post));
        }
        i = i + 1;
    }
    proof {
        assert(inputs@.take(inputs@.len() as int) =~= inputs@);
    }
    r
}

} // verus!
