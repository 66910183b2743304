//! A timed bulk-row-load micro-benchmark library.
//!
//! The loader takes the rows fetched by one read query, decodes each row
//! into a [`record::Record`] by named-field lookup against a fixed schema,
//! reports elapsed time and throughput for the load phase, and then times a
//! linear aggregation (the sum of the integer identifier field) over the
//! loaded records. Connection, query and decode failures each surface as a
//! distinct variant of [`errors::LoadError`].

pub mod errors;
pub mod fmt;
pub mod loader;
pub mod numeric;
pub mod record;
pub mod timing;

pub use errors::LoadError;
pub use loader::{aggregate_ids, load_records, run_loader, throughput_per_second};
pub use loader::{FetchOutcome, LoadSummary};
pub use record::{RawColumn, RawRow, RawValue, Record};
