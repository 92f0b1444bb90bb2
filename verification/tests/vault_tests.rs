//! End-to-end exercises of the vault covenant: lifecycle round trips, the
//! classifier, the CTV commitment, and cross-checks of every trusted
//! primitive against an independent reconstruction with the bitcoin crate.

use vault_covenant::builders::subvec;
use vault_covenant::covenant::{VaultCovenant, VaultError};
use vault_covenant::encode::{outpoint_encoding, script_encoding, u32_le_bytes, u64_le_bytes};
use vault_covenant::engine::{ScriptFactory, SignatureEngine};
use vault_covenant::state::{classify_transaction, Network, VaultState, VaultType};
use vault_covenant::tx::{Address, OutPoint, TxIn, TxOut, Transaction};

/// SHA-256 digest, via the bitcoin crate, with the hash trait named in
/// full.
fn sha(data: &[u8]) -> [u8; 32] {
    let h = <bitcoin::hashes::sha256::Hash as bitcoin::hashes::Hash>::hash(data);
    <bitcoin::hashes::sha256::Hash as bitcoin::hashes::Hash>::to_byte_array(h)
}

/// A deterministic toy script factory: each leaf is a distinct tag byte
/// followed by the key, timelock or hash it embeds.
struct TestFactory;

impl ScriptFactory for TestFactory {
    fn trigger_leaf(&self, pubkey: &Vec<u8>) -> Vec<u8> {
        let mut s = vec![0xa1];
        s.extend_from_slice(pubkey);
        s
    }
    fn complete_leaf(&self, pubkey: &Vec<u8>, timelock_in_blocks: u16) -> Vec<u8> {
        let mut s = vec![0xa2];
        s.extend_from_slice(pubkey);
        s.extend_from_slice(&timelock_in_blocks.to_le_bytes());
        s
    }
    fn cancel_leaf(&self, pubkey: &Vec<u8>) -> Vec<u8> {
        let mut s = vec![0xa3];
        s.extend_from_slice(pubkey);
        s
    }
    fn ctv_deposit_leaf(&self, template_hash: &Vec<u8>) -> Vec<u8> {
        let mut s = vec![0xb1];
        s.extend_from_slice(template_hash);
        s
    }
    fn ctv_complete_leaf(&self, pubkey: &Vec<u8>, timelock_in_blocks: u16) -> Vec<u8> {
        let mut s = vec![0xb2];
        s.extend_from_slice(pubkey);
        s.extend_from_slice(&timelock_in_blocks.to_le_bytes());
        s
    }
    fn ctv_cancel_leaf(&self, pubkey: &Vec<u8>) -> Vec<u8> {
        let mut s = vec![0xb3];
        s.extend_from_slice(pubkey);
        s
    }
}

/// An engine whose reassembled signature always ends in the zero byte the
/// covenant constraint asks for: grinding succeeds on the first attempt.
struct ZeroEngine;

impl SignatureEngine for ZeroEngine {
    fn reassemble(&self, _components: &Vec<Vec<u8>>) -> Vec<u8> {
        vec![0u8; 64]
    }
}

/// An engine whose signature never satisfies the constraint: grinding must
/// give up with the distinct exhaustion error.
struct StubbornEngine;

impl SignatureEngine for StubbornEngine {
    fn reassemble(&self, _components: &Vec<Vec<u8>>) -> Vec<u8> {
        vec![0x7fu8; 64]
    }
}

fn outpoint(tag: u8, vout: u32) -> OutPoint {
    OutPoint { txid: vec![tag; 32], vout }
}

fn fee_output() -> TxOut {
    TxOut { value: 50_000, script_pubkey: vec![0x51, 0x20, 7, 7, 7] }
}

fn target() -> Address {
    Address { script_pubkey: vec![0x00, 0x14, 9, 9, 9, 9] }
}

fn funded_cat_vault() -> VaultCovenant {
    let mut v = VaultCovenant::new(20, Network::Regtest, &TestFactory).unwrap();
    v.set_amount(100_000);
    v.set_current_outpoint(outpoint(0x11, 0));
    v
}

fn tx_with_outputs(outputs: Vec<TxOut>) -> Transaction {
    Transaction {
        version: 2,
        lock_time: 0,
        input: vec![TxIn::new(outpoint(0x22, 1))],
        output: outputs,
    }
}

#[test]
fn classifier_two_outputs_dust_is_triggered() {
    let vault_addr = Address { script_pubkey: vec![0x51, 0x20, 1] };
    let t = tx_with_outputs(vec![
        TxOut { value: 100_000, script_pubkey: vec![0x51, 0x20, 1] },
        TxOut { value: 546, script_pubkey: vec![0x00, 0x14, 2] },
    ]);
    assert_eq!(classify_transaction(&t, &vault_addr), VaultState::Triggered);
}

#[test]
fn classifier_two_outputs_other_value_is_not_triggered() {
    let vault_addr = Address { script_pubkey: vec![0x51, 0x20, 1] };
    let t = tx_with_outputs(vec![
        TxOut { value: 100_000, script_pubkey: vec![0x51, 0x20, 1] },
        TxOut { value: 547, script_pubkey: vec![0x00, 0x14, 2] },
    ]);
    assert_ne!(classify_transaction(&t, &vault_addr), VaultState::Triggered);
    assert_eq!(classify_transaction(&t, &vault_addr), VaultState::Inactive);
}

#[test]
fn classifier_one_output_foreign_script_is_completed() {
    let vault_addr = Address { script_pubkey: vec![0x51, 0x20, 1] };
    let t = tx_with_outputs(vec![TxOut { value: 9_000, script_pubkey: vec![0x00, 0x14, 2] }]);
    assert_eq!(classify_transaction(&t, &vault_addr), VaultState::Completed);
}

#[test]
fn classifier_one_output_own_script_is_inactive() {
    let vault_addr = Address { script_pubkey: vec![0x51, 0x20, 1] };
    let t = tx_with_outputs(vec![TxOut { value: 9_000, script_pubkey: vec![0x51, 0x20, 1] }]);
    assert_eq!(classify_transaction(&t, &vault_addr), VaultState::Inactive);
}

#[test]
fn trigger_roundtrip_classifies_triggered() {
    let vault = funded_cat_vault();
    let addr = vault.address().unwrap();
    let t = vault
        .create_trigger_tx(&ZeroEngine, &outpoint(0x33, 0), &fee_output(), &target())
        .unwrap();
    assert_eq!(t.output.len(), 2);
    assert_eq!(t.output[1].value, 546);
    assert_eq!(t.output[1].script_pubkey, target().script_pubkey);
    assert_eq!(t.output[0].value, 100_000);
    assert_eq!(t.output[0].script_pubkey, addr.script_pubkey);
    assert_eq!(classify_transaction(&t, &addr), VaultState::Triggered);
}

#[test]
fn complete_roundtrip_classifies_completed_with_timelock() {
    let mut vault = funded_cat_vault();
    let addr = vault.address().unwrap();
    let trigger = vault
        .create_trigger_tx(&ZeroEngine, &outpoint(0x33, 0), &fee_output(), &target())
        .unwrap();
    vault.set_withdrawal_address(Some(target()));
    vault.set_trigger_transaction(Some(trigger));
    vault.set_state(VaultState::Triggered);
    let trigger_ref = vault.get_trigger_transaction().unwrap();
    let trigger_copy = Transaction {
        version: trigger_ref.version,
        lock_time: trigger_ref.lock_time,
        input: trigger_ref
            .input
            .iter()
            .map(|i| TxIn {
                previous_output: OutPoint {
                    txid: i.previous_output.txid.clone(),
                    vout: i.previous_output.vout,
                },
                sequence: i.sequence,
                witness: i.witness.clone(),
            })
            .collect(),
        output: trigger_ref
            .output
            .iter()
            .map(|o| TxOut { value: o.value, script_pubkey: o.script_pubkey.clone() })
            .collect(),
    };
    let t = vault
        .create_complete_tx(&ZeroEngine, &outpoint(0x44, 1), &fee_output(), &target(),
            &trigger_copy)
        .unwrap();
    assert_eq!(t.output.len(), 1);
    assert_eq!(t.output[0].value, 100_000);
    assert_eq!(t.output[0].script_pubkey, target().script_pubkey);
    assert!(t.input[0].sequence >= 20);
    assert!(t.input[0].sequence <= 0xffff);
    assert_eq!(classify_transaction(&t, &addr), VaultState::Completed);
}

#[test]
fn cancel_pays_back_to_vault_address() {
    let vault = funded_cat_vault();
    let addr = vault.address().unwrap();
    let t = vault.create_cancel_tx(&ZeroEngine, &outpoint(0x55, 0), &fee_output()).unwrap();
    assert_eq!(t.output.len(), 1);
    assert_eq!(t.output[0].value, 100_000);
    assert_eq!(t.output[0].script_pubkey, addr.script_pubkey);
    assert_eq!(classify_transaction(&t, &addr), VaultState::Inactive);
}

#[test]
fn missing_outpoint_is_reported() {
    let vault = VaultCovenant::new(20, Network::Regtest, &TestFactory).unwrap();
    assert!(matches!(
        vault.create_trigger_tx(&ZeroEngine, &outpoint(1, 0), &fee_output(), &target()),
        Err(VaultError::MissingPrecondition)
    ));
    assert!(matches!(
        vault.create_cancel_tx(&ZeroEngine, &outpoint(1, 0), &fee_output()),
        Err(VaultError::MissingPrecondition)
    ));
    assert!(matches!(vault.get_current_outpoint(), Err(VaultError::MissingPrecondition)));
    assert!(vault.get_withdrawal_address().is_err());
    assert!(vault.get_trigger_transaction().is_err());
}

#[test]
fn stubborn_engine_exhausts_the_grind() {
    let vault = funded_cat_vault();
    let r = vault.create_complete_tx(
        &StubbornEngine,
        &outpoint(0x44, 1),
        &fee_output(),
        &target(),
        &tx_with_outputs(vec![fee_output()]),
    );
    assert!(matches!(r, Err(VaultError::GrindExhausted)));
}

#[test]
fn completing_clears_triggered_fields() {
    let mut vault = funded_cat_vault();
    vault.set_withdrawal_address(Some(target()));
    vault.set_trigger_transaction(Some(tx_with_outputs(vec![fee_output()])));
    vault.set_state(VaultState::Triggered);
    assert!(vault.get_withdrawal_address().is_ok());
    vault.set_state(VaultState::Completed);
    assert_eq!(vault.get_state(), VaultState::Completed);
    assert!(matches!(vault.get_withdrawal_address(), Err(VaultError::MissingPrecondition)));
    assert!(vault.get_trigger_transaction().is_err());
}

#[test]
fn ctv_hash_is_deterministic_and_amount_sensitive() {
    let mut vault =
        VaultCovenant::new_ctv(20, 100_000, Network::Regtest, &TestFactory).unwrap();
    assert_eq!(vault.get_type(), VaultType::CTV);
    let h1 = vault.ctv_hash().unwrap();
    let h2 = vault.ctv_hash().unwrap();
    assert_eq!(h1, h2);
    assert_eq!(h1.len(), 32);
    vault.set_amount(100_001);
    let h3 = vault.ctv_hash().unwrap();
    assert_ne!(h1, h3);
}

#[test]
fn ctv_hash_matches_manual_assembly() {
    let vault = VaultCovenant::new_ctv(20, 100_000, Network::Regtest, &TestFactory).unwrap();
    let trigger_spk = vault.ctv_trigger_address().unwrap().script_pubkey;
    let mut sequences = Vec::new();
    sequences.extend_from_slice(&0xfffffffdu32.to_le_bytes());
    sequences.extend_from_slice(&0xfffffffdu32.to_le_bytes());
    let mut outputs = Vec::new();
    outputs.extend_from_slice(&100_000u64.to_le_bytes());
    outputs.push(trigger_spk.len() as u8);
    outputs.extend_from_slice(&trigger_spk);
    let mut buffer = Vec::new();
    buffer.extend_from_slice(&2u32.to_le_bytes());
    buffer.extend_from_slice(&0u32.to_le_bytes());
    buffer.extend_from_slice(&2u32.to_le_bytes());
    buffer.extend_from_slice(&sha(&sequences));
    buffer.extend_from_slice(&1u32.to_le_bytes());
    buffer.extend_from_slice(&sha(&outputs));
    buffer.extend_from_slice(&0u32.to_le_bytes());
    let expected = sha(&buffer).to_vec();
    assert_eq!(vault.ctv_hash().unwrap(), expected);
}

#[test]
fn ctv_trigger_matches_template_and_carries_deposit_witness() {
    let mut vault =
        VaultCovenant::new_ctv(20, 100_000, Network::Regtest, &TestFactory).unwrap();
    vault.set_current_outpoint(outpoint(0x66, 2));
    let t = vault.create_ctv_trigger_tx(&outpoint(0x77, 0)).unwrap();
    assert_eq!(t.output.len(), 1);
    assert_eq!(t.output[0].value, 100_000);
    assert_eq!(
        t.output[0].script_pubkey,
        vault.ctv_trigger_address().unwrap().script_pubkey
    );
    assert_eq!(t.input.len(), 2);
    assert_eq!(t.input[0].sequence, 0xfffffffd);
    assert_eq!(t.input[1].sequence, 0xfffffffd);
    assert_eq!(t.input[0].witness.len(), 2);
    assert_eq!(t.input[0].witness[0], vault.deposit_script);
    assert!(t.input[1].witness.is_empty());
}

#[test]
fn built_ctv_trigger_reassembles_to_the_committed_hash() {
    let mut vault =
        VaultCovenant::new_ctv(20, 100_000, Network::Regtest, &TestFactory).unwrap();
    vault.set_current_outpoint(outpoint(0x66, 2));
    let t = vault.create_ctv_trigger_tx(&outpoint(0x77, 0)).unwrap();
    let mut sequences = Vec::new();
    for i in &t.input {
        sequences.extend_from_slice(&i.sequence.to_le_bytes());
    }
    let mut outputs = Vec::new();
    for o in &t.output {
        outputs.extend_from_slice(&o.value.to_le_bytes());
        outputs.push(o.script_pubkey.len() as u8);
        outputs.extend_from_slice(&o.script_pubkey);
    }
    let mut buffer = Vec::new();
    buffer.extend_from_slice(&t.version.to_le_bytes());
    buffer.extend_from_slice(&t.lock_time.to_le_bytes());
    buffer.extend_from_slice(&(t.input.len() as u32).to_le_bytes());
    buffer.extend_from_slice(&sha(&sequences));
    buffer.extend_from_slice(&(t.output.len() as u32).to_le_bytes());
    buffer.extend_from_slice(&sha(&outputs));
    buffer.extend_from_slice(&0u32.to_le_bytes());
    assert_eq!(vault.ctv_hash().unwrap(), sha(&buffer).to_vec());
}

#[test]
fn ctv_cancel_pays_back_to_deposit_address() {
    let mut vault =
        VaultCovenant::new_ctv(20, 100_000, Network::Regtest, &TestFactory).unwrap();
    vault.set_current_outpoint(outpoint(0x88, 0));
    let t = vault.create_ctv_cancel_tx(&outpoint(0x99, 1), &fee_output()).unwrap();
    assert_eq!(t.output.len(), 1);
    assert_eq!(t.output[0].script_pubkey, vault.address().unwrap().script_pubkey);
    assert_eq!(t.input[0].witness.len(), 3);
    assert_eq!(t.input[0].witness[1], vault.cancel_script);
}

#[test]
fn generator_encoding_matches_the_pinned_constant() {
    let g = secp256kfun::G.normalize().to_bytes_uncompressed();
    let mut expected = vec![0x04u8];
    expected.extend_from_slice(&[
        0x79, 0xbe, 0x66, 0x7e, 0xf9, 0xdc, 0xbb, 0xac, 0x55, 0xa0, 0x62, 0x95, 0xce, 0x87,
        0x0b, 0x07, 0x02, 0x9b, 0xfc, 0xdb, 0x2d, 0xce, 0x28, 0xd9, 0x59, 0xf2, 0x81, 0x5b,
        0x16, 0xf8, 0x17, 0x98,
    ]);
    expected.extend_from_slice(&[
        0x48, 0x3a, 0xda, 0x77, 0x26, 0xa3, 0xc4, 0x65, 0x5d, 0xa4, 0xfb, 0xfc, 0x0e, 0x11,
        0x08, 0xa8, 0xfd, 0x17, 0xb4, 0x48, 0xa6, 0x85, 0x54, 0x19, 0x9c, 0x47, 0xd0, 0x8f,
        0xfb, 0x10, 0xd4, 0xb8,
    ]);
    assert_eq!(g.to_vec(), expected);
}

#[test]
fn refresh_ctv_deposit_re_embeds_the_current_hash() {
    let mut vault =
        VaultCovenant::new_ctv(20, 100_000, Network::Regtest, &TestFactory).unwrap();
    let old_deposit = vault.deposit_script.clone();
    vault.set_amount(200_000);
    // The stored leaf still embeds the creation-time commitment.
    assert_eq!(vault.deposit_script, old_deposit);
    vault.refresh_ctv_deposit(&TestFactory).unwrap();
    let mut expected = vec![0xb1];
    expected.extend_from_slice(&vault.ctv_hash().unwrap());
    assert_eq!(vault.deposit_script, expected);
    assert_ne!(vault.deposit_script, old_deposit);
}

#[test]
fn nums_key_is_the_hashed_generator() {
    let vault = VaultCovenant::new(20, Network::Regtest, &TestFactory).unwrap();
    let g = secp256kfun::G.normalize().to_bytes_uncompressed();
    let expected = sha(&g).to_vec();
    assert_eq!(vault.nums_key, expected);
}

#[test]
fn vault_address_matches_independent_taproot_derivation() {
    let vault = funded_cat_vault();
    let internal = bitcoin::XOnlyPublicKey::from_slice(&vault.nums_key).unwrap();
    let secp = bitcoin::secp256k1::Secp256k1::verification_only();
    let info = bitcoin::taproot::TaprootBuilder::new()
        .add_leaf(1, bitcoin::ScriptBuf::from_bytes(vault.trigger_script.clone()))
        .unwrap()
        .add_leaf(2, bitcoin::ScriptBuf::from_bytes(vault.complete_script.clone()))
        .unwrap()
        .add_leaf(2, bitcoin::ScriptBuf::from_bytes(vault.cancel_script.clone()))
        .unwrap()
        .finalize(&secp, internal)
        .unwrap();
    let mut expected = vec![0x51, 0x20];
    expected.extend_from_slice(&info.output_key().serialize());
    assert_eq!(vault.address().unwrap().script_pubkey, expected);
}

#[test]
fn trigger_witness_ends_with_script_and_control_block() {
    let vault = funded_cat_vault();
    let t = vault
        .create_trigger_tx(&ZeroEngine, &outpoint(0x33, 0), &fee_output(), &target())
        .unwrap();
    let w = &t.input[0].witness;
    assert_eq!(w[w.len() - 2], vault.trigger_script);
    let internal = bitcoin::XOnlyPublicKey::from_slice(&vault.nums_key).unwrap();
    let secp = bitcoin::secp256k1::Secp256k1::verification_only();
    let info = bitcoin::taproot::TaprootBuilder::new()
        .add_leaf(1, bitcoin::ScriptBuf::from_bytes(vault.trigger_script.clone()))
        .unwrap()
        .add_leaf(2, bitcoin::ScriptBuf::from_bytes(vault.complete_script.clone()))
        .unwrap()
        .add_leaf(2, bitcoin::ScriptBuf::from_bytes(vault.cancel_script.clone()))
        .unwrap()
        .finalize(&secp, internal)
        .unwrap();
    let cb = info
        .control_block(&(
            bitcoin::ScriptBuf::from_bytes(vault.trigger_script.clone()),
            bitcoin::taproot::LeafVersion::TapScript,
        ))
        .unwrap()
        .serialize();
    assert_eq!(w[w.len() - 1], cb);
}

#[test]
fn ctv_cancel_signature_verifies_under_bitcoin_sighash() {
    let mut vault =
        VaultCovenant::new_ctv(20, 100_000, Network::Regtest, &TestFactory).unwrap();
    vault.set_current_outpoint(outpoint(0x88, 0));
    let fee_out = fee_output();
    let t = vault.create_ctv_cancel_tx(&outpoint(0x99, 1), &fee_out).unwrap();
    let btx = bitcoin::Transaction {
        version: bitcoin::transaction::Version(2),
        lock_time: bitcoin::absolute::LockTime::from_consensus(t.lock_time),
        input: t
            .input
            .iter()
            .map(|i| bitcoin::TxIn {
                previous_output: bitcoin::OutPoint {
                    txid: <bitcoin::Txid as bitcoin::hashes::Hash>::from_byte_array(
                        i.previous_output.txid.clone().try_into().unwrap(),
                    ),
                    vout: i.previous_output.vout,
                },
                script_sig: bitcoin::ScriptBuf::new(),
                sequence: bitcoin::Sequence(i.sequence),
                witness: bitcoin::Witness::from_slice(&i.witness),
            })
            .collect(),
        output: t
            .output
            .iter()
            .map(|o| bitcoin::TxOut {
                value: bitcoin::Amount::from_sat(o.value),
                script_pubkey: bitcoin::ScriptBuf::from_bytes(o.script_pubkey.clone()),
            })
            .collect(),
    };
    let prevouts = vec![
        bitcoin::TxOut {
            value: bitcoin::Amount::from_sat(100_000),
            script_pubkey: bitcoin::ScriptBuf::from_bytes(
                vault.ctv_trigger_address().unwrap().script_pubkey,
            ),
        },
        bitcoin::TxOut {
            value: bitcoin::Amount::from_sat(fee_out.value),
            script_pubkey: bitcoin::ScriptBuf::from_bytes(fee_out.script_pubkey.clone()),
        },
    ];
    let leaf_hash = bitcoin::taproot::TapLeafHash::from_script(
        &bitcoin::ScriptBuf::from_bytes(vault.cancel_script.clone()),
        bitcoin::taproot::LeafVersion::TapScript,
    );
    let mut cache = bitcoin::sighash::SighashCache::new(&btx);
    let sighash = cache
        .taproot_script_spend_signature_hash(
            0,
            &bitcoin::sighash::Prevouts::All(&prevouts),
            leaf_hash,
            bitcoin::TapSighashType::All,
        )
        .unwrap();
    let wit_sig = &t.input[0].witness[0];
    assert_eq!(wit_sig.len(), 65);
    assert_eq!(wit_sig[64], 1);
    let sig = bitcoin::secp256k1::schnorr::Signature::from_slice(&wit_sig[0..64]).unwrap();
    let msg = bitcoin::secp256k1::Message::from_digest(
        <bitcoin::TapSighash as bitcoin::hashes::Hash>::to_byte_array(sighash),
    );
    let pk = bitcoin::XOnlyPublicKey::from_slice(&vault.pubkey).unwrap();
    let secp = bitcoin::secp256k1::Secp256k1::verification_only();
    secp.verify_schnorr(&sig, &msg, &pk).unwrap();
}

#[test]
fn trigger_witness_has_the_documented_item_count() {
    let vault = funded_cat_vault();
    let t = vault
        .create_trigger_tx(&ZeroEngine, &outpoint(0x33, 0), &fee_output(), &target())
        .unwrap();
    // Eight message components, five auxiliary pushes, the three-part
    // covenant signature, the vault signature, the leaf script and the
    // control block.
    assert_eq!(t.input[0].witness.len(), 8 + 5 + 3 + 1 + 1 + 1);
    assert!(t.input[1].witness.is_empty());
}

#[test]
fn cancel_witness_has_the_documented_item_count() {
    let vault = funded_cat_vault();
    let t = vault.create_cancel_tx(&ZeroEngine, &outpoint(0x55, 0), &fee_output()).unwrap();
    // Eight message components, four auxiliary pushes, the three-part
    // covenant signature, the vault signature, the leaf script and the
    // control block.
    assert_eq!(t.input[0].witness.len(), 8 + 4 + 3 + 1 + 1 + 1);
}

#[test]
fn trigger_signature_verifies_under_bitcoin_sighash() {
    let vault = funded_cat_vault();
    let fee_out = fee_output();
    let t = vault
        .create_trigger_tx(&ZeroEngine, &outpoint(0x33, 0), &fee_out, &target())
        .unwrap();
    let btx = bitcoin::Transaction {
        version: bitcoin::transaction::Version(2),
        lock_time: bitcoin::absolute::LockTime::from_consensus(t.lock_time),
        input: t
            .input
            .iter()
            .map(|i| bitcoin::TxIn {
                previous_output: bitcoin::OutPoint {
                    txid: <bitcoin::Txid as bitcoin::hashes::Hash>::from_byte_array(
                        i.previous_output.txid.clone().try_into().unwrap(),
                    ),
                    vout: i.previous_output.vout,
                },
                script_sig: bitcoin::ScriptBuf::new(),
                sequence: bitcoin::Sequence(i.sequence),
                witness: bitcoin::Witness::from_slice(&i.witness),
            })
            .collect(),
        output: t
            .output
            .iter()
            .map(|o| bitcoin::TxOut {
                value: bitcoin::Amount::from_sat(o.value),
                script_pubkey: bitcoin::ScriptBuf::from_bytes(o.script_pubkey.clone()),
            })
            .collect(),
    };
    let prevouts = vec![
        bitcoin::TxOut {
            value: bitcoin::Amount::from_sat(100_000),
            script_pubkey: bitcoin::ScriptBuf::from_bytes(
                vault.address().unwrap().script_pubkey,
            ),
        },
        bitcoin::TxOut {
            value: bitcoin::Amount::from_sat(fee_out.value),
            script_pubkey: bitcoin::ScriptBuf::from_bytes(fee_out.script_pubkey.clone()),
        },
    ];
    let leaf_hash = bitcoin::taproot::TapLeafHash::from_script(
        &bitcoin::ScriptBuf::from_bytes(vault.trigger_script.clone()),
        bitcoin::taproot::LeafVersion::TapScript,
    );
    let mut cache = bitcoin::sighash::SighashCache::new(&btx);
    let sighash = cache
        .taproot_script_spend_signature_hash(
            0,
            &bitcoin::sighash::Prevouts::All(&prevouts),
            leaf_hash,
            bitcoin::TapSighashType::All,
        )
        .unwrap();
    let w = &t.input[0].witness;
    let wit_sig = &w[w.len() - 3];
    assert_eq!(wit_sig.len(), 65);
    assert_eq!(wit_sig[64], 1);
    let sig = bitcoin::secp256k1::schnorr::Signature::from_slice(&wit_sig[0..64]).unwrap();
    let msg = bitcoin::secp256k1::Message::from_digest(
        <bitcoin::TapSighash as bitcoin::hashes::Hash>::to_byte_array(sighash),
    );
    let pk = bitcoin::XOnlyPublicKey::from_slice(&vault.pubkey).unwrap();
    let secp = bitcoin::secp256k1::Secp256k1::verification_only();
    secp.verify_schnorr(&sig, &msg, &pk).unwrap();
}

#[test]
fn invalid_internal_key_is_a_crypto_invariant_violation() {
    let mut vault = funded_cat_vault();
    // Zero is not the x-coordinate of a curve point, so every derivation
    // that needs the internal key must refuse it.
    vault.nums_key = vec![0u8; 32];
    assert!(matches!(vault.address(), Err(VaultError::CryptoInvariantViolation)));
    assert!(matches!(
        vault.create_cancel_tx(&ZeroEngine, &outpoint(1, 0), &fee_output()),
        Err(VaultError::CryptoInvariantViolation)
    ));
}

#[test]
fn little_endian_and_compact_size_encodings_are_exact() {
    assert_eq!(u32_le_bytes(0x01020304), vec![0x04, 0x03, 0x02, 0x01]);
    assert_eq!(u64_le_bytes(546), vec![0x22, 0x02, 0, 0, 0, 0, 0, 0]);
    assert_eq!(script_encoding(&vec![]), vec![0x00]);
    assert_eq!(script_encoding(&vec![0xab, 0xcd]), vec![0x02, 0xab, 0xcd]);
    let long = vec![0x11u8; 253];
    let enc = script_encoding(&long);
    assert_eq!(&enc[0..3], &[0xfd, 0xfd, 0x00]);
    assert_eq!(enc.len(), 3 + 253);
    let op = OutPoint { txid: vec![5; 32], vout: 7 };
    let mut expected = vec![5u8; 32];
    expected.extend_from_slice(&7u32.to_le_bytes());
    assert_eq!(outpoint_encoding(&op), expected);
    assert_eq!(subvec(&vec![1, 2, 3, 4], 1, 3), vec![2, 3]);
}
