//! A personal library of serialized stories synchronised from a fan-fiction
//! archive: field extraction from work pages, a bounded retry policy for
//! fetching, and reconciliation of fetched records with stored ones.

pub mod command;
pub mod config;
pub mod dates;
pub mod extract;
pub mod format;
pub mod ids;
pub mod ingest;
pub mod model;
pub mod page;
pub mod reading;
pub mod reconcile;
pub mod store;
pub mod text;
pub mod vocab;
