//! A verified model of two token contracts and a vault built on the token.
//!
//! Each contract keeps its state in per-contract storage; here that storage is
//! a plain value held in an `Env`, together with the running contract's
//! address and the addresses whose authorization the call carries. Every
//! operation is proved against an abstract specification of the ledger it
//! maintains (`ledger`, `vault_ledger`), and `laws` states what holds across
//! operations.
pub mod address;
pub mod storage_map;
pub mod totals;
pub mod env;
pub mod ledger;
pub mod demo_token;
pub mod manual_token;
pub mod vault_ledger;
pub mod demo_vault;
pub mod laws;
pub mod history;
