//! Decision logic of a MANY node: the ABCI bridge and the ledger server's start-up.

pub mod abci;
pub mod amount;
pub mod balance;
pub mod block;
pub mod bridge;
pub mod commit;
pub mod create;
pub mod deliver_tx;
pub mod info;
pub mod log;
pub mod modules;
pub mod numbers;
pub mod omni;
pub mod outcome;
pub mod query;
pub mod store;
pub mod url;
