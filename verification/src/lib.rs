//! Core of a small messaging backend: identity provisioning with per-user RSA
//! keypairs, message encryption and decryption, an invite-gated account
//! registry, a pairwise chat ledger, and the contact list derived from it.
//!
//! All state lives in an in-memory relational store; transport and disk I/O
//! stay outside this crate.

pub mod cipher;
pub mod creds;
pub mod err;
pub mod models;
pub mod payloads;
pub mod responses;
pub mod services;
pub mod store;
pub mod units;
pub mod utils;
