//! A store for API key records.
//!
//! Each record holds a credential's name, vendor and secret value together
//! with a masked form of the secret that is safe to display. Records live in
//! one table of an embedded SQLite database; the store creates, lists,
//! replaces and deletes them, and derives the masked value and the
//! timestamps of every record it writes.

pub mod codec;
pub mod database;
pub mod error;
pub mod laws;
pub mod masking;
pub mod models;
pub mod rows;
pub mod stamping;
pub mod statements;
