//! Policy-driven evaluation of marketplace sell/buy orders.
//!
//! The library models tradeable items and the orders placed on them,
//! enriches raw orders with the item they belong to, filters them through
//! a replaceable acceptance predicate, scores them through a replaceable
//! profitability scorer, and renders them through a replaceable message
//! formatter. Fetching the raw records over HTTP is left to the
//! surrounding program; the pipeline takes the fetch result as a value.

pub mod market;
pub mod order;
pub mod policy;
pub mod prime_trash_buyer;
pub mod render;
