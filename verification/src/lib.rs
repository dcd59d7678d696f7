//! A payment-routing module: it accepts incoming token-transfer
//! notifications, resolves a human-chosen alias to an account address,
//! deducts a percentage fee for the administrator, and forwards the
//! remainder to the resolved recipient.  It also maintains a registry of
//! token contracts it trusts to deliver notifications, and lets the
//! administrator change the fee rate and the admin identity.

pub mod contract;
pub mod crypto;
pub mod encoding;
pub mod fee;
pub mod laws;
pub mod msg;
pub mod response;
pub mod state;
pub mod store;
