//! Escrow-and-billing ledger of a hosting platform.
//!
//! Developers register, deploy apps and pay for resources out of an escrow
//! held at an external value-transfer ledger. This library is the accounting
//! and settlement core: it keeps developers and apps in durable maps, decides
//! what to ask of the ledger, the price oracle and the minting service, and
//! says what their replies mean. Making the calls is left to its user.

pub mod app;
pub mod developer;
pub mod error;
pub mod ledger;
pub mod memory;
pub mod principal;
pub mod record;
pub mod settings;
pub mod store;
pub mod utils;
pub mod wasm;
