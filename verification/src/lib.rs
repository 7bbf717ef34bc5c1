//! Records of kiln firing programs and of the projects fired with them, kept
//! in a SQLite store.
//!
//! [`database`] holds the entity model, the rules that guard every write and
//! the store handle itself. [`db`] holds the generic keyed row: a record
//! together with the primary key that it is stored under.

pub mod database;
pub mod db;
