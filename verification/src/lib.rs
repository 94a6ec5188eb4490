//! Data-access layer for a local hymn and scripture library.
//!
//! The crate opens a SQLite file through a lazily-initialized connection
//! manager and exposes two read-only accessors that return the full
//! contents of the `hymns` and `scriptures` tables as ordered, fully
//! materialized sequences of records.

pub mod accessors;
pub mod errors;
pub mod manager;
pub mod records;
pub mod sorting;
pub mod sqlite;

pub use accessors::get_all_hymns;
pub use accessors::get_all_scriptures;
pub use accessors::list_hymns;
pub use accessors::list_scriptures;
pub use errors::DbError;
pub use manager::ConnectionManager;
pub use records::HymnRecord;
pub use records::ScriptureRecord;
pub use sorting::sort_hymns;
pub use sorting::sort_scriptures;
