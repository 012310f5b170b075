//! Byte buffers kept in program-derived ledger accounts, written under three
//! access policies: unrestricted, authority-gated and payment-gated.

pub mod error;
pub mod slot;
pub mod address;
pub mod instruction;
pub mod processor;
pub mod lifecycle;
