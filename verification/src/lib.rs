//! Contracts of an escrow platform on the Stellar network.
//!
//! Each contract is a module of its own: dynamic fees (`fees`), subscriptions (`subscription`),
//! cross-chain settlement (`crosschain`), arbitrator penalties (`penalties`), staking and gas
//! rebates (`staking`), and a multi-signature vault (`vault`).
//!
//! A contract function works on an environment (`host`) that holds the ledger position, the stored
//! entries (`table`) and the list of effects that the ledger must perform: authorizations to be
//! checked, tokens to be moved, entries to be written, lifetimes to be extended, events to be
//! published. What every function returns, stores and asks for is stated in its contract, and what
//! holds of a contract as a whole is stated at the end of its module.

pub mod arith;
pub mod crosschain;
pub mod ed25519;
pub mod fees;
pub mod host;
pub mod penalties;
pub mod staking;
pub mod subscription;
pub mod table;
pub mod vault;
