//! Core of a command-line tool that scaffolds, builds and deploys
//! WebAssembly smart contracts: artifact checks, network selection, key
//! handling, transaction construction and the confirmation state machine.

pub mod artifact;
pub mod config;
pub mod deploy;
pub mod error;
pub mod network;
pub mod project;
pub mod report;
pub mod template;
pub mod text;
pub mod tools;
pub mod tracker;
pub mod wallet;
