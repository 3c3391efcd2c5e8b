//! The operations on a vault.

pub mod create_yi_token;
pub mod stake;
pub mod unstake;
