//! A Bitcoin vault covenant built without a native covenant opcode.
//!
//! The vault is a programmable spending policy — deposit, time-delayed
//! withdrawal trigger, completion, and cancellation — emulated either by a
//! signature-grinding scheme (`CAT`) or by a transaction-template-hash
//! pre-commitment (`CTV`). The crate owns the bit-exact surfaces that the
//! on-chain scripts check: the template commitment hash layout and the
//! witness-stack ordering of every spending transaction.

pub mod tx;
pub mod encode;
pub mod crypto;
pub mod sighash;
pub mod taproot;
pub mod state;
pub mod engine;
pub mod covenant;
pub mod builders;
pub mod laws;
