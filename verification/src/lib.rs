//! A credential broker: lets applications exercise authenticated
//! capabilities (SSH signing, GitHub API calls, TOTP codes) without ever
//! receiving the credential behind them.
mod keyed;
pub mod policy;
pub mod storage;
pub mod identity;
pub mod json;
pub mod manager;
pub mod adapters;
pub mod wire;
pub mod audit;
pub mod transport;
pub mod relay;
