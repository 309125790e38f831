//! Commands for an account-based blockchain network, resolved and signed.
//!
//! A command is a tree of records. Each level has two forms: the record as
//! far as the command line says it, with every field optional, and the
//! resolved record, with every field in place. Resolution turns the first
//! into the second and names the field to ask the operator for where a value
//! is missing; the resolved record can be turned back into the words of a
//! command line.
//!
//! A resolved call is appended to a transaction, and the transaction is
//! signed and sent by a [`signing::Signing`], which works with a network or
//! without one. Nothing in this library reads a file, asks the operator or
//! talks to the network: it says what is to be done next and takes what came
//! of it.

pub mod account;
pub mod answer;
pub mod call_function_type;
pub mod common;
pub mod errors;
pub mod field;
pub mod keychain;
pub mod resolution;
pub mod server;
pub mod sign_transaction;
pub mod sign_with_keychain;
pub mod sign_with_private_key;
pub mod signer;
pub mod signing;
pub mod text;
pub mod transaction;
