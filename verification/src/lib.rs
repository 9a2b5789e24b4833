//! Merchant payment processing on an account-based ledger.
//!
//! Merchants register; buyers pay for an order in one step, and what they
//! pay is held in escrow under the program's own authority; a fee goes to the
//! program owner and the merchant's sponsor; buyers hold subscriptions to the
//! packages of a merchant; a merchant withdraws what an order paid.
//!
//! Every operation is decided here as a function of what came with the
//! instruction: the accounts, each with its flags and bytes, the bytes of the
//! instruction, and the time. It answers with the ordered list of effects
//! (account creations, transfers, record writes) that the host then applies
//! as one unit, or with the one error that rejects the invocation. Nothing is
//! done before everything was checked.

pub mod account;
pub mod address;
pub mod catalog;
pub mod config;
pub mod documents;
pub mod engine;
pub mod error;
pub mod fees;
pub mod instruction;
pub mod json;
pub mod order;
pub mod registry;
pub mod state;
pub mod subscription;
pub mod validator;
pub mod wire;
