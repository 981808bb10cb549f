//! Paper-trading arbitrage between trading venues.
//!
//! Each venue's adapter mirrors the venue's order book from its messages and
//! gives the best bid and the best ask after every message. The engine keeps
//! the latest such pair and a paper wallet for every venue and, on each
//! update, buys where the ask is lowest and sells where the bid is highest,
//! if that pays after fees.
//!
//! - [`decimal`]: decimal amounts, computed by `rust_decimal`.
//! - [`book`]: the order book and its updates; [`book_laws`]: what every
//!   update keeps.
//! - [`wallet`]: the paper wallet; [`wallet_laws`]: what a paired buy and
//!   sell does to two wallets.
//! - [`strategy`]: one pass of the strategy between an ask and a bid.
//! - [`engine`]: the engine's state and its step; [`engine_laws`]: when it
//!   trades and when it leaves the wallets alone.
//! - [`exchange`]: what the venues have in common, and the adapters of the
//!   two venues.
//! - [`feed`]: the life of a venue's connection.

pub mod book;
pub mod book_laws;
pub mod decimal;
pub mod engine;
pub mod engine_laws;
pub mod exchange;
pub mod feed;
pub mod strategy;
pub mod wallet;
pub mod wallet_laws;
