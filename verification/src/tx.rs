//! Plain transaction model: the fields of a Bitcoin transaction that the
//! vault's logic reads and writes. Scripts, transaction ids and witness items
//! are raw byte vectors; amounts are satoshis.

use vstd::prelude::*;

verus! {

/// A reference to one output of an earlier transaction.
pub struct OutPoint {
    /// Transaction id, as the 32 raw bytes that consensus encoding uses.
    pub txid: Vec<u8>,
    /// Index of the output within that transaction.
    pub vout: u32,
}

/// One transaction output: a value in satoshis and the script that locks it.
pub struct TxOut {
    pub value: u64,
    pub script_pubkey: Vec<u8>,
}

/// One transaction input. The script sig is always empty here (every spend in
/// this crate is a segwit spend), so only the witness carries data.
pub struct TxIn {
    pub previous_output: OutPoint,
    pub sequence: u32,
    pub witness: Vec<Vec<u8>>,
}

/// A transaction, with the witness of each input attached in place.
pub struct Transaction {
    pub version: u32,
    pub lock_time: u32,
    pub input: Vec<TxIn>,
    pub output: Vec<TxOut>,
}

/// An address, reduced to the script it pays to. String encodings (bech32m)
/// are outside the covenant's logic.
pub struct Address {
    pub script_pubkey: Vec<u8>,
}

/// The sequence value that every input carries unless a relative timelock or
/// replace-by-fee signalling asks for another.
pub const SEQUENCE_FINAL: u32 = 0xffff_ffff;

/// The sequence value that signals replace-by-fee and disables the locktime.
pub const SEQUENCE_ENABLE_RBF_NO_LOCKTIME: u32 = 0xffff_fffd;

/// The minimal non-dust output value, in satoshis. The trigger transaction
/// marks its withdrawal-target output with exactly this value, and the state
/// classifier reads it back as the mark of a triggered vault.
pub const DUST_MARKER_SATS: u64 = 546;

impl OutPoint {
    /// A fresh outpoint from its two fields.
    pub fn new(txid: Vec<u8>, vout: u32) -> (r: OutPoint)
        ensures
            r.txid == txid,
            r.vout == vout,
    {
        OutPoint { txid, vout }
    }
}

impl TxIn {
    /// An input spending `previous_output` with the final sequence and an
    /// empty witness.
    pub fn new(previous_output: OutPoint) -> (r: TxIn)
        ensures
            r.previous_output == previous_output,
            r.sequence == SEQUENCE_FINAL,
            r.witness@.len() == 0,
    {
        TxIn { previous_output, sequence: SEQUENCE_FINAL, witness: Vec::new() }
    }
}

/// Byte-for-byte copy of a byte vector.
pub fn clone_bytes(v: &Vec<u8>) -> (r: Vec<u8>)
    ensures
        r@ == v@,
{
    let mut r: Vec<u8> = Vec::new();
    let mut i: usize = 0;
    while i < v.len()
        invariant
            i <= v@.len(),
            r@ == v@.take(i as int),
        decreases v@.len() - i,
    {
        r.push(v[i]);
        proof {
            assert(v@.take(i + 1 as int) =~= v@.take(i as int).push(v@[i as int]));
        }
        i = i + 1;
    }
    proof {
        assert(v@.take(v@.len() as int) =~= v@);
    }
    r
}

/// The spec-level content of an outpoint: its id bytes and output index.
pub open spec fn outpoint_view(o: OutPoint) -> (Seq<u8>, u32) {
    (o.txid@, o.vout)
}

/// The spec-level content of an output: its value and script bytes.
pub open spec fn txout_view(o: TxOut) -> (u64, Seq<u8>) {
    (o.value, o.script_pubkey@)
}

/// Copy of an outpoint.
pub fn clone_outpoint(o: &OutPoint) -> (r: OutPoint)
    ensures
        outpoint_view(r) == outpoint_view(*o),
{
    OutPoint { txid: clone_bytes(&o.txid), vout: o.vout }
}

/// Copy of an output.
pub fn clone_txout(o: &TxOut) -> (r: TxOut)
    ensures
        txout_view(r) == txout_view(*o),
{
    TxOut { value: o.value, script_pubkey: clone_bytes(&o.script_pubkey) }
}

/// True exactly when the two byte vectors hold the same bytes.
pub fn bytes_eq(a: &Vec<u8>, b: &Vec<u8>) -> (r: bool)
    ensures
        r == (a@ == b@),
{
    if a.len() != b.len() {
        proof {
            assert(a@.len() != b@.len());
        }
        return false;
    }
    let mut i: usize = 0;
    while i < a.len()
        invariant
            i <= a@.len(),
            a@.len() == b@.len(),
            forall|j: int| 0 <= j < i ==> a@[j] == b@[j],
        decreases a@.len() - i,
    {
        if a[i] != b[i] {
            return false;
        }
        i = i + 1;
    }
    proof {
        assert(a@ =~= b@);
    }
    true
}

} // verus!
