//! A convenience layer over a blockchain RPC transport and two on-chain
//! program interfaces: a fungible-token program and a token-swap program.
//!
//! The library plans each operation as a transaction: the exact instruction
//! list, the fee payer, and the minimal deduplicated signer set. Contracts
//! pin down every plan. A ledger model states what the planned instructions
//! do on chain, so the intended effects of minting, transferring and closing
//! accounts are proved, not just assembled. Submitting a plan over the
//! network is left to a thin unverified shell around this crate.

pub mod addr;
pub mod client;
pub mod error;
pub mod instruction;
pub mod laws;
pub mod ledger;
pub mod pda;
pub mod realize;
pub mod table;

