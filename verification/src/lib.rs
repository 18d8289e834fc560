//! Custody of a liquidity-pool position.
//!
//! Depositors lock the pool token for good and receive a receipt token, minted in
//! proportion. Whatever else the contract holds can be swept to one evacuation
//! address, which only its current holder may reassign.
//!
//! Every operation is a function from the custody state, the request and what the
//! host read from the ledger to the instructions that the host dispatches.

pub mod coin;
pub mod contract;
pub mod error;
pub mod exec;
pub mod execute;
pub mod mock_querier;
pub mod msg;
pub mod payload;
pub mod query;
pub mod response;
pub mod state;
pub mod tokenfactory;
pub mod wire;
