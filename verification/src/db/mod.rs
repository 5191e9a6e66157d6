//! The parts of the SQLite layer that decide rather than read or write.
pub mod sqlite;
