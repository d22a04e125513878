//! Persistence layer of a chain state indexer: record mapping, SQL value
//! encoding, batch statement construction, and a table model that states what
//! each statement does to the stored rows.
pub mod escape;
pub mod records;
pub mod sql;
pub mod statements;
pub mod model;
pub mod store;
pub mod memory;
