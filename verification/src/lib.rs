//! Library for preparing Solana transactions that administer an
//! interchain-governance program: configuration of the target network,
//! planning of the instructions each subcommand asks for, maintenance of
//! the on-disk chain-metadata document, and assembly of unsigned
//! transaction descriptors.

pub mod text;
pub mod errors;
pub mod network;
pub mod config;
pub mod metadata;
pub mod solana;
pub mod accounts;
pub mod calldata;
pub mod commands;
pub mod transactions;
