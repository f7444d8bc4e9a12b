//! Cryptid sighting reports: the rules for reading them from CSV text, for
//! naming and storing them as documents, and for reading a stored document
//! back. Everything here works on plain values; reading files, talking to the
//! store and serving HTTP are left to the program that uses this library.

pub mod command;
pub mod fault;
pub mod greeting;
pub mod key;
pub mod layout;
pub mod loader;
pub mod numeral;
pub mod record;
pub mod reply;
pub mod schema;
pub mod sighting;
pub mod startup;
pub mod store;
pub mod write;
