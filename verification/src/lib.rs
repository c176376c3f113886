//! Settlement core of a blockchain runtime: the balance and lock state machine
//! of the native coin, the ledger of contract-defined assets, and the engine
//! that splits a block's coinbase among its miner and burn supporters.

pub mod accounts;
pub mod assets;
pub mod balance;
pub mod database;
pub mod decimal;
pub mod environment;
pub mod errors;
pub mod payments;
pub mod rewards;
pub mod table;
pub mod types;
pub mod values;
