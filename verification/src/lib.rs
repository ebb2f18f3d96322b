//! Column projection for columnar table files.
//!
//! Given a table file organized into named, typed columns, this library
//! derives a reduced schema from a requested set of column names, streams
//! every batch of rows through that projection without copying column
//! data, and writes the result back out with a configurable durability
//! level. Decoding and encoding of the file format itself is delegated to
//! the table-file engine; this crate owns the projection logic and its
//! error semantics.

pub mod batch;
pub mod durability;
pub mod error;
pub mod pipeline;
pub mod schema;

pub use batch::batch2selected;
pub use durability::FsyncType;
pub use error::SelectError;
pub use pipeline::{parquet2selected, selected2parquet};
pub use schema::{sch2selected, ColumnDesc};
