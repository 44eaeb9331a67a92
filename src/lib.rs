//! Validation of fungible-token transitions on a cell-model ledger.
//!
//! A transition is accepted when the invocation is privileged (one of the
//! transaction's inputs is guarded by the configured owner lock) or when the
//! token amounts held by this type's input cells cover those of its output
//! cells. Everything here is a pure function of values that the host has
//! already loaded.
pub mod amount;
pub mod auth;
pub mod error;
pub mod validator;

pub use amount::{decode_amount, sum_amounts, UDT_LEN};
pub use auth::check_owner_mode;
pub use error::Error;
pub use validator::{validate, CellGroup};
