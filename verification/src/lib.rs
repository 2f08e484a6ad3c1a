//! Construction of ed25519 keypairs, message signatures and unsigned ledger
//! instructions from textual requests, with every outcome represented as data.

pub mod codec;
pub mod error;
pub mod handlers;
pub mod instruction;
pub mod keys;
pub mod models;
pub mod utils;
