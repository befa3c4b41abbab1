//! Idempotent schema bootstrap for the token store.
//!
//! The library decides which statements a migration issues and in what
//! order; a caller holding a database session performs them and reports
//! back through a `Session`. An in-memory `Catalog` gives the statements
//! their meaning, and the laws of the routine are proved against it.
pub mod catalog;
pub mod error;
pub mod laws;
pub mod routine;
pub mod schema;
pub mod session;
pub mod statement;

pub use catalog::{Catalog, Cell};
pub use error::DbError;
pub use routine::{
    Notice, Step, add_new_fields_if_not_exist, check_tables_exist, create_tables, drop_tables,
    remove_updated_at_trigger, startup,
};
pub use schema::{Column, Index, SYNC_STATUS_COLUMN_COUNT, Table, all_token_columns, patched_columns};
pub use session::{Action, Event, Phase, Session};
pub use statement::{Probe, Statement};
