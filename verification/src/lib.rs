//! A single native-currency transfer instruction for a hosted ledger.
//!
//! The instruction moves an amount, in the smallest currency unit, from a
//! signer-controlled source account to a recipient account. The handler
//! validates the account list against its declared constraints and then
//! delegates the balance mutation to the platform's system-transfer
//! primitive; this crate states and proves what that validated transition
//! does to the two balances.

pub mod account;
pub mod instruction;
