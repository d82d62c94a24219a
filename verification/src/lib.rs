//! A minimalist application launcher: it discovers desktop entries, filters
//! them by a case-insensitive substring match on their display names, and
//! decides how a chosen entry is started.
//!
//! Everything here is pure: directory listings, file contents, the
//! environment and the spawned process belong to the binary around this
//! library, which hands in plain values and carries out the plans it gets back.

pub mod application;
pub mod entry;
pub mod filter;
pub mod launch;
pub mod menu;
pub mod scan;
pub mod terminal;
pub mod text;
