//! Sale-admission and pricing engine for a fixed-supply token sale.
//!
//! A caller sends a payment and (optionally) a desired quantity; the engine
//! decides, deterministically, whether the purchase is admissible — time-gated
//! access tier, inventory availability, exact price match, per-wallet cap —
//! and, if so, how many units to release and how to update the per-wallet
//! ledger.  The engine itself performs no transfers and keeps no clock: the
//! current time, the caller, the contract owner and the external balances are
//! handed in as plain values, and the unit count to release is handed back.

pub mod errors;
pub mod ledger;
pub mod pricing;
pub mod sale;
pub mod token;
pub mod whitelist;

pub use errors::SaleError;
pub use sale::{PublicSaleMint, SaleContract};
pub use token::TokenId;
pub use whitelist::{AccessControl, WhitelistModule};
