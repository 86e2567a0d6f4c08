//! What the content review keeps in the database.

pub mod config;
pub mod discussions;
pub mod forums;
pub mod ledger;
