//! Liquidity-pool lookup across three providers: request validation,
//! decoding of each provider's answer, and selection of the pool with the
//! highest total value locked.

pub mod aggregate;
pub mod amount;
pub mod config;
pub mod json;
pub mod meteora;
pub mod mint;
pub mod orca;
pub mod pool;
pub mod raydium;
pub mod record;
pub mod reply;
pub mod request;
pub mod response;
