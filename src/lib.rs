//! A dead-man's-switch vault: each owner keeps one vault with a balance, a
//! backup destination and an inactivity timeout. An owner who stops checking
//! in for longer than the timeout has the balance moved to the backup
//! destination by the expiry sweep.
//!
//! The library holds the vault records and every decision about them. The
//! clock, the caller's identity and the signing/broadcast service are supplied
//! by the host: timestamps and identities come in as plain values, and each
//! outgoing transfer is handed out as a [`store::PendingTransfer`] whose outcome
//! the host reports back.

pub mod error;
pub mod validate;
pub mod vault;
pub mod store;
pub mod sweep;
pub mod ledger;

pub use error::VaultError;
pub use vault::{TransferState, Vault};
pub use store::{PendingTransfer, VaultStore};
pub use sweep::Sweep;
