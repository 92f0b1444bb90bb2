//! The vault covenant entity: its configuration and lifecycle data, the
//! taproot addresses it derives per vault type and phase, the template
//! commitment hash of the CTV scheme, and the signing helper that the
//! transaction builders share.

use vstd::prelude::*;
use crate::tx::{
    clone_bytes, clone_outpoint, outpoint_view, Address, OutPoint, Transaction, TxIn, TxOut,
    SEQUENCE_ENABLE_RBF_NO_LOCKTIME,
};
use crate::encode::{le32, le64, encode_script, push_bytes, push_u32_le};
use crate::crypto::{
    generator_uncompressed, is_seckey, is_xonly_key, pubkey_of, schnorr_verifies, sha256,
    sha256_of,
};
use crate::sighash::{
    get_sigmsg_components, tap_sighash, tap_sighash_of, sequences_blob, outputs_blob,
    bytes_views, TxCommitmentSpec, SIGHASH_ALL, SIGHASH_DEFAULT,
};
use crate::taproot::{
    leaves1, leaves2, leaves3, leaves_view, nums_internal_key, p2tr_script_of,
    taproot_output_key_of, TaprootTree,
};
use crate::state::{Network, VaultState, VaultType};
use crate::engine::ScriptFactory;
use crate::crypto::generate_keypair;

verus! {

/// Why a covenant operation failed.
#[derive(Clone, Copy, PartialEq, Eq, Structural, Debug)]
pub enum VaultError {
    /// A caller-ordering mistake: no current outpoint, no trigger
    /// transaction or no withdrawal address was recorded yet. Recoverable by
    /// supplying the missing state first.
    MissingPrecondition,
    /// The nothing-up-my-sleeve key or a taproot derivation was refused:
    /// a fixed constant or library defect, unrecoverable.
    CryptoInvariantViolation,
    /// The malleable-field search exceeded its bound. Recoverable by
    /// retrying with a different fee input or output.
    GrindExhausted,
}

/// How many candidate values of the malleable field the grinding search
/// tries before giving up.
pub const GRIND_LIMIT: u32 = 65536;

/// The long-lived record tracking one vault across its lifecycle.
pub struct VaultCovenant {
    pub current_outpoint: Option<OutPoint>,
    pub amount: u64,
    pub network: Network,
    pub timelock_in_blocks: u16,
    pub withdrawal_address: Option<Address>,
    pub trigger_transaction: Option<Transaction>,
    pub state: VaultState,
    pub seckey: Vec<u8>,
    pub pubkey: Vec<u8>,
    pub vault_type: VaultType,
    pub nums_key: Vec<u8>,
    pub trigger_script: Vec<u8>,
    pub complete_script: Vec<u8>,
    pub cancel_script: Vec<u8>,
    pub deposit_script: Vec<u8>,
}

/// The weighted leaves of the CAT main vault tree: the trigger leaf at depth
/// one, the complete and cancel leaves at depth two.
pub open spec fn cat_vault_leaves(c: VaultCovenant) -> Seq<(u8, Seq<u8>)> {
    seq![(1u8, c.trigger_script@), (2u8, c.complete_script@), (2u8, c.cancel_script@)]
}

/// The single depth-zero leaf of the CTV deposit tree.
pub open spec fn ctv_deposit_leaves(c: VaultCovenant) -> Seq<(u8, Seq<u8>)> {
    seq![(0u8, c.deposit_script@)]
}

/// The two depth-one leaves of the CTV trigger tree.
pub open spec fn ctv_trigger_leaves(c: VaultCovenant) -> Seq<(u8, Seq<u8>)> {
    seq![(1u8, c.complete_script@), (1u8, c.cancel_script@)]
}

/// The leaves of the tree behind the vault's own (Inactive-phase) address.
pub open spec fn vault_leaves(c: VaultCovenant) -> Seq<(u8, Seq<u8>)> {
    if c.vault_type == VaultType::CAT {
        cat_vault_leaves(c)
    } else {
        ctv_deposit_leaves(c)
    }
}

/// The output key of the vault's own address, if the commitment accepts it.
pub open spec fn vault_output_key(c: VaultCovenant) -> Option<Seq<u8>> {
    taproot_output_key_of(c.nums_key@, vault_leaves(c))
}

/// The script of the vault's own address, defined when the key is.
pub open spec fn vault_script(c: VaultCovenant) -> Seq<u8> {
    p2tr_script_of(vault_output_key(c)->0)
}

/// The output key of the CTV trigger address, if the commitment accepts it.
pub open spec fn ctv_trigger_key(c: VaultCovenant) -> Option<Seq<u8>> {
    taproot_output_key_of(c.nums_key@, ctv_trigger_leaves(c))
}

/// The script of the CTV trigger address, defined when the key is.
pub open spec fn ctv_trigger_script(c: VaultCovenant) -> Seq<u8> {
    p2tr_script_of(ctv_trigger_key(c)->0)
}

/// The transaction id of the null outpoint: 32 zero bytes, the placeholder
/// an input carries while it spends no transaction.
pub open spec fn null_txid() -> Seq<u8> {
    Seq::new(32, |i: int| 0u8)
}

/// The output index of the null outpoint.
pub const NULL_OUTPOINT_VOUT: u32 = 0xffff_ffff;

/// The sequence-number blob of the fixed CTV template: two inputs, both
/// signalling replace-by-fee with no locktime.
pub open spec fn ctv_template_sequences() -> Seq<u8> {
    le32(SEQUENCE_ENABLE_RBF_NO_LOCKTIME) + le32(SEQUENCE_ENABLE_RBF_NO_LOCKTIME)
}

/// The serialized single output of the CTV template: the vault's amount paid
/// to the CTV trigger address.
pub open spec fn ctv_template_outputs(trigger_spk: Seq<u8>, amount: u64) -> Seq<u8> {
    le64(amount) + encode_script(trigger_spk)
}

/// The bytes whose SHA-256 digest is the CTV commitment: version, locktime,
/// input count, sequences hash, output count, outputs hash, input index.
pub open spec fn ctv_commitment_bytes(trigger_spk: Seq<u8>, amount: u64) -> Seq<u8> {
    le32(2) + le32(0) + le32(2) + sha256_of(ctv_template_sequences()) + le32(1)
        + sha256_of(ctv_template_outputs(trigger_spk, amount)) + le32(0)
}

/// The CTV commitment hash of a covenant's template, defined when the CTV
/// trigger key is.
pub open spec fn ctv_hash_spec(c: VaultCovenant) -> Seq<u8> {
    sha256_of(ctv_commitment_bytes(ctv_trigger_script(c), c.amount))
}

/// The committed fields of an arbitrary transaction, assembled the way the
/// template hasher assembles them: what a deposit leaf's hash check reads
/// from a spend.
pub open spec fn ctv_tx_commitment_bytes(t: Transaction) -> Seq<u8> {
    le32(t.version) + le32(t.lock_time) + le32(t.input@.len() as u32)
        + sha256_of(sequences_blob(t.input@)) + le32(t.output@.len() as u32)
        + sha256_of(outputs_blob(t.output@)) + le32(0)
}

/// The configuration and key material that no setter touches.
pub open spec fn same_identity(a: VaultCovenant, b: VaultCovenant) -> bool {
    &&& a.network == b.network
    &&& a.timelock_in_blocks == b.timelock_in_blocks
    &&& a.seckey == b.seckey
    &&& a.pubkey == b.pubkey
    &&& a.vault_type == b.vault_type
    &&& a.nums_key == b.nums_key
    &&& a.trigger_script == b.trigger_script
    &&& a.complete_script == b.complete_script
    &&& a.cancel_script == b.cancel_script
    &&& a.deposit_script == b.deposit_script
}

/// The invariant of the optional lifecycle fields: a withdrawal address and
/// a trigger transaction are recorded exactly while the vault is triggered.
pub open spec fn lifecycle_consistent(c: VaultCovenant) -> bool {
    &&& (c.withdrawal_address is Some) == (c.state == VaultState::Triggered)
    &&& (c.trigger_transaction is Some) == (c.state == VaultState::Triggered)
}

impl VaultCovenant {
    /// A fresh CAT vault: inactive, unfunded, with a new keypair and the
    /// three CAT leaves asked of the script factory.
    pub fn new<F: ScriptFactory>(
        timelock_in_blocks: u16,
        network: Network,
        factory: &F,
    ) -> (r: Result<VaultCovenant, VaultError>)
        ensures
            r matches Ok(c) ==> {
                &&& c.state == VaultState::Inactive
                &&& c.current_outpoint is None
                &&& c.withdrawal_address is None
                &&& c.trigger_transaction is None
                &&& c.amount == 0
                &&& c.timelock_in_blocks == timelock_in_blocks
                &&& c.network == network
                &&& c.vault_type == VaultType::CAT
                &&& c.nums_key@ == sha256_of(generator_uncompressed())
                &&& c.nums_key@.len() == 32
                &&& c.pubkey@ == pubkey_of(c.seckey@)
                &&& is_seckey(c.seckey@)
                &&& lifecycle_consistent(c)
            },
            (r is Ok) == is_xonly_key(sha256_of(generator_uncompressed())),
            r matches Err(e) ==> e == VaultError::CryptoInvariantViolation,
    {
        let (seckey, pubkey) = generate_keypair();
        let nums_key = match nums_internal_key() {
            Some(k) => k,
            None => {
                return Err(VaultError::CryptoInvariantViolation);
            },
        };
        let trigger_script = factory.trigger_leaf(&pubkey);
        let complete_script = factory.complete_leaf(&pubkey, timelock_in_blocks);
        let cancel_script = factory.cancel_leaf(&pubkey);
        Ok(VaultCovenant {
            current_outpoint: None,
            amount: 0,
            network,
            timelock_in_blocks,
            withdrawal_address: None,
            trigger_transaction: None,
            state: VaultState::Inactive,
            seckey,
            pubkey,
            vault_type: VaultType::CAT,
            nums_key,
            trigger_script,
            complete_script,
            cancel_script,
            deposit_script: Vec::new(),
        })
    }

    /// A fresh CTV vault: inactive, holding `amount`, with a new keypair,
    /// the two CTV spending leaves, and the deposit leaf embedding the
    /// template commitment hash computed from them.
    pub fn new_ctv<F: ScriptFactory>(
        timelock_in_blocks: u16,
        amount: u64,
        network: Network,
        factory: &F,
    ) -> (r: Result<VaultCovenant, VaultError>)
        ensures
            r matches Ok(c) ==> {
                &&& c.state == VaultState::Inactive
                &&& c.current_outpoint is None
                &&& c.withdrawal_address is None
                &&& c.trigger_transaction is None
                &&& c.amount == amount
                &&& c.timelock_in_blocks == timelock_in_blocks
                &&& c.network == network
                &&& c.vault_type == VaultType::CTV
                &&& c.nums_key@ == sha256_of(generator_uncompressed())
                &&& c.nums_key@.len() == 32
                &&& c.pubkey@ == pubkey_of(c.seckey@)
                &&& is_seckey(c.seckey@)
                &&& ctv_trigger_key(c) is Some
                &&& lifecycle_consistent(c)
            },
            !is_xonly_key(sha256_of(generator_uncompressed())) ==> r is Err,
            r matches Err(e) ==> e == VaultError::CryptoInvariantViolation,
    {
        let (seckey, pubkey) = generate_keypair();
        let nums_key = match nums_internal_key() {
            Some(k) => k,
            None => {
                return Err(VaultError::CryptoInvariantViolation);
            },
        };
        let complete_script = factory.ctv_complete_leaf(&pubkey, timelock_in_blocks);
        let cancel_script = factory.ctv_cancel_leaf(&pubkey);
        let mut covenant = VaultCovenant {
            current_outpoint: None,
            amount,
            network,
            timelock_in_blocks,
            withdrawal_address: None,
            trigger_transaction: None,
            state: VaultState::Inactive,
            seckey,
            pubkey,
            vault_type: VaultType::CTV,
            nums_key,
            trigger_script: Vec::new(),
            complete_script,
            cancel_script,
            deposit_script: Vec::new(),
        };
        let template_hash = match covenant.ctv_hash() {
            Ok(h) => h,
            Err(e) => {
                return Err(e);
            },
        };
        let ghost before = covenant;
        covenant.deposit_script = factory.ctv_deposit_leaf(&template_hash);
        proof {
            assert(ctv_trigger_leaves(covenant) =~= ctv_trigger_leaves(before));
        }
        Ok(covenant)
    }

    /// Recomputes the CTV deposit leaf from the current template commitment
    /// and stores it, asking the factory for the fresh script. A CTV vault
    /// whose amount changed after creation calls this, so that the deposit
    /// address embeds the current commitment again.
    pub fn refresh_ctv_deposit<F: ScriptFactory>(&mut self, factory: &F) -> (r: Result<
        (),
        VaultError,
    >)
        ensures
            (r is Ok) == (ctv_trigger_key(*old(self)) is Some),
            r matches Err(e) ==> e == VaultError::CryptoInvariantViolation
                && final(self).deposit_script == old(self).deposit_script,
            final(self).current_outpoint == old(self).current_outpoint,
            final(self).amount == old(self).amount,
            final(self).network == old(self).network,
            final(self).timelock_in_blocks == old(self).timelock_in_blocks,
            final(self).withdrawal_address == old(self).withdrawal_address,
            final(self).trigger_transaction == old(self).trigger_transaction,
            final(self).state == old(self).state,
            final(self).seckey == old(self).seckey,
            final(self).pubkey == old(self).pubkey,
            final(self).vault_type == old(self).vault_type,
            final(self).nums_key == old(self).nums_key,
            final(self).trigger_script == old(self).trigger_script,
            final(self).complete_script == old(self).complete_script,
            final(self).cancel_script == old(self).cancel_script,
    {
        let template_hash = match self.ctv_hash() {
            Ok(h) => h,
            Err(e) => {
                return Err(e);
            },
        };
        self.deposit_script = factory.ctv_deposit_leaf(&template_hash);
        Ok(())
    }

    /// Records the outpoint that now holds the vault's funds.
    pub fn set_current_outpoint(&mut self, outpoint: OutPoint)
        ensures
            final(self).current_outpoint == Some(outpoint),
            same_identity(*old(self), *final(self)),
            final(self).amount == old(self).amount,
            final(self).state == old(self).state,
            final(self).withdrawal_address == old(self).withdrawal_address,
            final(self).trigger_transaction == old(self).trigger_transaction,
    {
        self.current_outpoint = Some(outpoint);
    }

    /// The outpoint currently holding the vault's funds; an error while none
    /// is recorded.
    pub fn get_current_outpoint(&self) -> (r: Result<OutPoint, VaultError>)
        ensures
            (r is Ok) == (self.current_outpoint is Some),
            r matches Ok(o) ==> outpoint_view(o) == outpoint_view(self.current_outpoint->0),
            r matches Err(e) ==> e == VaultError::MissingPrecondition,
    {
        match &self.current_outpoint {
            Some(o) => Ok(clone_outpoint(o)),
            None => Err(VaultError::MissingPrecondition),
        }
    }

    /// Sets the value the vault holds. The stored leaf scripts do not move:
    /// on a CTV vault the deposit leaf keeps the commitment computed when it
    /// was last derived, so after an amount change `ctv_hash` follows the
    /// new amount while the deposit address does not until
    /// `refresh_ctv_deposit` re-embeds it.
    pub fn set_amount(&mut self, amount: u64)
        ensures
            final(self).amount == amount,
            same_identity(*old(self), *final(self)),
            final(self).current_outpoint == old(self).current_outpoint,
            final(self).state == old(self).state,
            final(self).withdrawal_address == old(self).withdrawal_address,
            final(self).trigger_transaction == old(self).trigger_transaction,
    {
        self.amount = amount;
    }

    /// Records, or clears, the withdrawal destination chosen at trigger
    /// time.
    pub fn set_withdrawal_address(&mut self, address: Option<Address>)
        ensures
            final(self).withdrawal_address == address,
            same_identity(*old(self), *final(self)),
            final(self).current_outpoint == old(self).current_outpoint,
            final(self).amount == old(self).amount,
            final(self).state == old(self).state,
            final(self).trigger_transaction == old(self).trigger_transaction,
    {
        self.withdrawal_address = address;
    }

    /// The recorded withdrawal destination; an error while none is recorded.
    pub fn get_withdrawal_address(&self) -> (r: Result<Address, VaultError>)
        ensures
            (r is Ok) == (self.withdrawal_address is Some),
            r matches Ok(a) ==> a.script_pubkey@ == self.withdrawal_address->0.script_pubkey@,
            r matches Err(e) ==> e == VaultError::MissingPrecondition,
    {
        match &self.withdrawal_address {
            Some(a) => Ok(Address { script_pubkey: clone_bytes(&a.script_pubkey) }),
            None => Err(VaultError::MissingPrecondition),
        }
    }

    /// Records, or clears, the transaction that triggered the withdrawal.
    pub fn set_trigger_transaction(&mut self, txn: Option<Transaction>)
        ensures
            final(self).trigger_transaction == txn,
            same_identity(*old(self), *final(self)),
            final(self).current_outpoint == old(self).current_outpoint,
            final(self).amount == old(self).amount,
            final(self).state == old(self).state,
            final(self).withdrawal_address == old(self).withdrawal_address,
    {
        self.trigger_transaction = txn;
    }

    /// The recorded trigger transaction; an error while none is recorded.
    pub fn get_trigger_transaction(&self) -> (r: Result<&Transaction, VaultError>)
        ensures
            (r is Ok) == (self.trigger_transaction is Some),
            r matches Ok(t) ==> *t == self.trigger_transaction->0,
            r matches Err(e) ==> e == VaultError::MissingPrecondition,
    {
        match &self.trigger_transaction {
            Some(t) => Ok(t),
            None => Err(VaultError::MissingPrecondition),
        }
    }

    /// Moves the vault to `state`. Moving to Completed clears the withdrawal
    /// address and the trigger transaction as part of the transition, so the
    /// lifecycle invariant holds again without a separate step.
    pub fn set_state(&mut self, state: VaultState)
        ensures
            final(self).state == state,
            same_identity(*old(self), *final(self)),
            final(self).current_outpoint == old(self).current_outpoint,
            final(self).amount == old(self).amount,
            state == VaultState::Completed ==> final(self).withdrawal_address is None
                && final(self).trigger_transaction is None,
            state != VaultState::Completed ==> final(self).withdrawal_address == old(
                self,
            ).withdrawal_address && final(self).trigger_transaction == old(
                self,
            ).trigger_transaction,
            state == VaultState::Completed ==> lifecycle_consistent(*final(self)),
    {
        if state == VaultState::Completed {
            self.set_trigger_transaction(None);
            self.set_withdrawal_address(None);
        }
        self.state = state;
    }

    /// The vault's lifecycle state.
    pub fn get_state(&self) -> (r: VaultState)
        ensures
            r == self.state,
    {
        self.state
    }

    /// The vault's emulation scheme.
    pub fn get_type(&self) -> (r: VaultType)
        ensures
            r == self.vault_type,
    {
        self.vault_type
    }

    /// The vault's x-only public key bytes.
    pub fn x_only_public_key(&self) -> (r: Vec<u8>)
        ensures
            r@ == self.pubkey@,
    {
        clone_bytes(&self.pubkey)
    }

    /// The vault's timelock, in blocks.
    pub fn get_timelock_in_blocks(&self) -> (r: u16)
        ensures
            r == self.timelock_in_blocks,
    {
        self.timelock_in_blocks
    }

    /// The vault's chain.
    pub fn get_network(&self) -> (r: Network)
        ensures
            r == self.network,
    {
        self.network
    }

    /// The taproot tree behind the vault's own (Inactive-phase) address.
    pub(crate) fn vault_tree(&self) -> (r: Result<TaprootTree, VaultError>)
        ensures
            (r is Ok) == (vault_output_key(*self) is Some),
            r matches Ok(t) ==> t.wf() && t.internal@ == self.nums_key@
                && leaves_view(t.leaves@) == vault_leaves(*self)
                && Some(t.output_key@) == vault_output_key(*self),
            r matches Err(e) ==> e == VaultError::CryptoInvariantViolation,
    {
        let leaves = if self.vault_type == VaultType::CAT {
            leaves3(1, &self.trigger_script, 2, &self.complete_script, 2, &self.cancel_script)
        } else {
            leaves1(0, &self.deposit_script)
        };
        proof {
            assert(leaves_view(leaves@) =~= vault_leaves(*self));
        }
        match TaprootTree::build(clone_bytes(&self.nums_key), leaves) {
            Some(t) => Ok(t),
            None => Err(VaultError::CryptoInvariantViolation),
        }
    }

    /// The taproot tree behind the CTV trigger address.
    pub(crate) fn ctv_trigger_tree(&self) -> (r: Result<TaprootTree, VaultError>)
        ensures
            (r is Ok) == (ctv_trigger_key(*self) is Some),
            r matches Ok(t) ==> t.wf() && t.internal@ == self.nums_key@
                && leaves_view(t.leaves@) == ctv_trigger_leaves(*self)
                && Some(t.output_key@) == ctv_trigger_key(*self),
            r matches Err(e) ==> e == VaultError::CryptoInvariantViolation,
    {
        let leaves = leaves2(1, &self.complete_script, 1, &self.cancel_script);
        proof {
            assert(leaves_view(leaves@) =~= ctv_trigger_leaves(*self));
        }
        match TaprootTree::build(clone_bytes(&self.nums_key), leaves) {
            Some(t) => Ok(t),
            None => Err(VaultError::CryptoInvariantViolation),
        }
    }

    /// The vault's own address for the Inactive phase: the CAT main vault
    /// address, or the CTV deposit address.
    pub fn address(&self) -> (r: Result<Address, VaultError>)
        ensures
            (r is Ok) == (vault_output_key(*self) is Some),
            r matches Ok(a) ==> a.script_pubkey@ == vault_script(*self),
            r matches Err(e) ==> e == VaultError::CryptoInvariantViolation,
    {
        let tree = match self.vault_tree() {
            Ok(t) => t,
            Err(e) => {
                return Err(e);
            },
        };
        Ok(Address { script_pubkey: tree.script_pubkey() })
    }

    /// The CTV trigger address, where a deposit-spend moves the funds.
    pub fn ctv_trigger_address(&self) -> (r: Result<Address, VaultError>)
        ensures
            (r is Ok) == (ctv_trigger_key(*self) is Some),
            r matches Ok(a) ==> a.script_pubkey@ == ctv_trigger_script(*self),
            r matches Err(e) ==> e == VaultError::CryptoInvariantViolation,
    {
        let tree = match self.ctv_trigger_tree() {
            Ok(t) => t,
            Err(e) => {
                return Err(e);
            },
        };
        Ok(Address { script_pubkey: tree.script_pubkey() })
    }

    /// The fixed transaction template the CTV scheme pre-commits to: two
    /// inputs signalling replace-by-fee (outpoints null until the spend is
    /// built), and one output paying the vault's amount to the CTV trigger
    /// address.
    pub fn ctv_trigger_tx_template(&self) -> (r: Result<Transaction, VaultError>)
        ensures
            (r is Ok) == (ctv_trigger_key(*self) is Some),
            r matches Ok(t) ==> {
                &&& t.version == 2
                &&& t.lock_time == 0
                &&& t.input@.len() == 2
                &&& t.input@[0].sequence == SEQUENCE_ENABLE_RBF_NO_LOCKTIME
                &&& t.input@[1].sequence == SEQUENCE_ENABLE_RBF_NO_LOCKTIME
                &&& t.input@[0].witness@.len() == 0
                &&& t.input@[1].witness@.len() == 0
                &&& outpoint_view(t.input@[0].previous_output) == (null_txid(),
                NULL_OUTPOINT_VOUT)
                &&& outpoint_view(t.input@[1].previous_output) == (null_txid(),
                NULL_OUTPOINT_VOUT)
                &&& t.output@.len() == 1
                &&& t.output@[0].value == self.amount
                &&& t.output@[0].script_pubkey@ == ctv_trigger_script(*self)
            },
            r matches Err(e) ==> e == VaultError::CryptoInvariantViolation,
    {
        let tree = match self.ctv_trigger_tree() {
            Ok(t) => t,
            Err(e) => {
                return Err(e);
            },
        };
        let output = TxOut { value: self.amount, script_pubkey: tree.script_pubkey() };
        let mut input: Vec<TxIn> = Vec::new();
        input.push(null_rbf_input());
        input.push(null_rbf_input());
        let mut output_v: Vec<TxOut> = Vec::new();
        output_v.push(output);
        Ok(Transaction { version: 2, lock_time: 0, input, output: output_v })
    }

    /// The CTV commitment hash: the SHA-256 digest of the template's
    /// committed fields (version, locktime, input count, sequences hash,
    /// output count, outputs hash, input index), assembled from the signature
    /// message components the commitment mask selects.
    pub fn ctv_hash(&self) -> (r: Result<Vec<u8>, VaultError>)
        ensures
            (r is Ok) == (ctv_trigger_key(*self) is Some),
            r matches Ok(h) ==> h@ == ctv_hash_spec(*self) && h@.len() == 32,
            r matches Err(e) ==> e == VaultError::CryptoInvariantViolation,
    {
        let templ = match self.ctv_trigger_tx_template() {
            Ok(t) => t,
            Err(e) => {
                return Err(e);
            },
        };
        let cs = TxCommitmentSpec {
            epoch: false,
            control: false,
            version: true,
            locktime: true,
            prevouts: false,
            prev_amounts: false,
            prev_scriptpubkeys: false,
            sequences: true,
            outputs: true,
            spend_type: false,
            annex: false,
            single_output: false,
            scriptpath: false,
            input_index: true,
        };
        let no_prevouts: Vec<TxOut> = Vec::new();
        let zero_leaf: Vec<u8> = Vec::new();
        let components = get_sigmsg_components(
            &cs,
            &templ,
            0,
            &no_prevouts,
            &zero_leaf,
            SIGHASH_DEFAULT,
        );
        proof {
            assert(bytes_views(components@) =~= seq![
                le32(templ.version),
                le32(templ.lock_time),
                sha256_of(sequences_blob(templ.input@)),
                sha256_of(outputs_blob(templ.output@)),
                le32(0u32),
            ]);
        }
        let mut buffer: Vec<u8> = Vec::new();
        push_bytes(&mut buffer, &components[0]);  // version
        push_bytes(&mut buffer, &components[1]);  // locktime
        push_u32_le(&mut buffer, 2);  // input count
        push_bytes(&mut buffer, &components[2]);  // sequences hash
        push_u32_le(&mut buffer, 1);  // output count
        push_bytes(&mut buffer, &components[3]);  // outputs hash
        push_bytes(&mut buffer, &components[4]);  // input index
        proof {
            assert(sequences_blob(templ.input@) =~= ctv_template_sequences()) by {
                reveal_with_fuel(sequences_blob, 3);
                assert(templ.input@.drop_last().drop_last() =~= Seq::<TxIn>::empty());
                assert(templ.input@.drop_last().last() == templ.input@[0]);
            }
            assert(outputs_blob(templ.output@) =~= ctv_template_outputs(
                ctv_trigger_script(*self), self.amount)) by {
                reveal_with_fuel(outputs_blob, 2);
                assert(templ.output@.drop_last() =~= Seq::<TxOut>::empty());
            }
            assert(buffer@ =~= ctv_commitment_bytes(ctv_trigger_script(*self), self.amount));
        }
        Ok(sha256(&buffer))
    }

    /// Signs `txn`'s vault input (index zero) for the given leaf with the
    /// explicit all-inputs-all-outputs sighash type, and appends that type's
    /// byte, as a taproot script-spend witness signature carries it. The 64
    /// signature bytes verify under the vault's public key over that exact
    /// signature hash; signing fails only when the stored secret key is
    /// invalid.
    pub(crate) fn sign_transaction(
        &self,
        txn: &Transaction,
        prevouts: &Vec<TxOut>,
        leaf_hash: &Vec<u8>,
    ) -> (r: Result<Vec<u8>, VaultError>)
        ensures
            (r is Ok) == is_seckey(self.seckey@),
            r matches Ok(s) ==> s@.len() == 65 && s@[64] == SIGHASH_ALL && schnorr_verifies(
                s@.take(64),
                pubkey_of(self.seckey@),
                tap_sighash_of(*txn, 0, prevouts@, leaf_hash@, SIGHASH_ALL),
            ),
            r matches Err(e) ==> e == VaultError::CryptoInvariantViolation,
    {
        let digest = tap_sighash(txn, 0, prevouts, leaf_hash, SIGHASH_ALL);
        let mut sig = match crate::crypto::schnorr_sign(&self.seckey, &digest) {
            Some(s) => s,
            None => {
                return Err(VaultError::CryptoInvariantViolation);
            },
        };
        let ghost sig64 = sig@;
        sig.push(SIGHASH_ALL);
        proof {
            assert(sig@.take(64) =~= sig64);
        }
        Ok(sig)
    }
}

/// An input spending the null outpoint (no transaction), signalling
/// replace-by-fee: the placeholder the CTV template uses before the real
/// outpoints are known.
fn null_rbf_input() -> (r: TxIn)
    ensures
        r.previous_output.txid@ == null_txid(),
        r.previous_output.vout == NULL_OUTPOINT_VOUT,
        r.sequence == SEQUENCE_ENABLE_RBF_NO_LOCKTIME,
        r.witness@.len() == 0,
{
    let mut txid: Vec<u8> = Vec::new();
    let mut i: usize = 0;
    while i < 32
        invariant
            i <= 32,
            txid@.len() == i,
            forall|j: int| 0 <= j < i ==> txid@[j] == 0u8,
        decreases 32 - i,
    {
        txid.push(0u8);
        i = i + 1;
    }
    proof {
        assert(txid@ =~= null_txid());
    }
    TxIn {
        previous_output: OutPoint { txid, vout: NULL_OUTPOINT_VOUT },
        sequence: SEQUENCE_ENABLE_RBF_NO_LOCKTIME,
        witness: Vec::new(),
    }
}

} // verus!
