//! Staking pools.
//!
//! A pool takes tokens of one mint and gives tokens of its own for them. Rewards that
//! are dropped on a pool are shared among its stakers by the pool tokens that they hold.
//!
//! Each request has a type for the accounts that it is given and a function that decides
//! on it. The function checks the accounts, changes the records in them, and returns the
//! calls into other programs that go with the change.

pub mod acceptance;
pub mod account;
pub mod address;
pub mod calls;
pub mod effects;
pub mod error;
pub mod key;
pub mod laws;
pub mod manager;
pub mod pool;
pub mod queue;
pub mod rewards;
pub mod staker;
pub mod staking;
pub mod token;
