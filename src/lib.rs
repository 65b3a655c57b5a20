//! Request validation and response shaping for a small Solana HTTP service:
//! keypair generation, message signing and verification, and construction of
//! token and SOL transfer instructions.

pub mod backend;
pub mod models;
pub mod helpers;
pub mod handlers;
pub mod laws;
