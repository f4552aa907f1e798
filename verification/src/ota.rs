//! Over-the-air updates.

pub mod download;
pub mod handler;
pub mod handling;
pub mod laws;
pub mod outcomes;
pub mod reports;
pub mod run;
pub mod status;
pub mod transfers;
