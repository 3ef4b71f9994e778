//! Account-maintenance primitives for a token-staking program.
//!
//! Two independent pieces: keeping an account rent-exempt while its data
//! buffer changes size, and moving token balances under a delegated
//! authority. Decisions and arithmetic are verified; the host runtime is
//! reached through the small trusted boundary in [`runtime`] and [`rent`].

pub mod account;
pub mod error;
pub mod laws;
pub mod rebalance;
pub mod rent;
pub mod resize;
pub mod runtime;
pub mod token;

pub use account::Account;
pub use error::MaintenanceError;
pub use rebalance::{credit, rebalance, Rebalance};
pub use rent::minimum_balance_for;
pub use resize::{resize_account, resize_account_to, resize_account_under};
pub use token::{token_transfer_user, token_transfer_with_signer};
