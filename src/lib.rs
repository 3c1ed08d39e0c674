//! Validation and encoding pipeline for building unsigned ledger instructions
//! and handling ed25519 key-pairs, signatures and messages.

pub mod codec;
pub mod error;
pub mod response;
pub mod instruction;
pub mod identity;
pub mod handler;
pub mod guarantees;
