//! A verified registry of network-addressable lighting devices.
//!
//! The library keeps a table of device records (address, name) in an
//! embedded SQLite database and dispatches state-toggle requests over HTTP
//! to the devices a command selects. The persistence and dispatch logic is
//! verified; the database and HTTP calls themselves are trusted wrappers
//! around `rusqlite` and `reqwest`.

pub mod device;
pub mod dispatch;
pub mod laws;
pub mod store;

pub use device::Record;
pub use device::StoreError;
pub use dispatch::Command;
pub use dispatch::Outcome;
pub use store::Store;
