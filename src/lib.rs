//! Verified core of a small URL-shortening platform: short-code minting,
//! the bus protocol that warms the redirector's cache, the redirector's
//! resolution order, the gateway's token cache and token validation, and
//! the replies the gateway owes for each outcome of a backing service.

pub mod base62;
pub mod mint;
pub mod clock;
pub mod token_cache;
pub mod auth;
pub mod gateway;
pub mod bus;
pub mod shortener;
pub mod redirector;
pub mod retry;
pub mod accounts;
pub mod views;
