//! Extraction of flat, string-valued row records from decoded blockchain
//! blocks: value encoding, key derivation, status classification, and the
//! per-entity extractors that assemble the change set of one invocation.

pub mod antelope;
pub mod clock;
pub mod codes;
pub mod dates;
pub mod encode;
pub mod evm;
pub mod keys;
pub mod numbers;
pub mod rows;
