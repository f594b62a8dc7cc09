//! On-ledger media access service.
//!
//! A content author registers a piece of media with a per-minute price and a
//! distributor revenue share; a buyer purchases a block of access minutes,
//! paying in a fungible token split between author and distributor; a payer
//! reports consumed access time, and the access record is reclaimed once it
//! is exhausted.
//!
//! The crate covers the instruction-processing state machine: decoding the
//! wire-format command buffer ([`instruction`]), packing and unpacking the two
//! persisted binary records ([`state`]), and validating accounts, splitting
//! payments and updating records ([`processor`]). The hosting ledger (account
//! storage, signer verification, rent policy, atomic commit) and the token
//! transfer service are external collaborators: the processor works on plain
//! account snapshots and hands the transfer requests back to its caller.

pub mod error;
pub mod instruction;
pub mod processor;
pub mod state;
pub mod token;
