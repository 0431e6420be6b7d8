//! A notarization record store: for each 32-byte content digest it keeps the
//! owner that notarized it last and the time of that notarization.

pub mod details;
pub mod laws;
pub mod ledger;
pub mod notarization;
pub mod store;
pub mod types;

pub use details::{Details, Field};
pub use notarization::Notarization;
pub use store::RecordStore;
pub use types::{Digest, Owner};
