//! Builds a columnar manifest of the objects stored under a bucket prefix.
//!
//! The manifest has one row per object: bucket, key, file name, size and the
//! time of the last modification. Objects are listed page by page, gathered
//! into column buffers, and written out in batches of 1000 rows.
//!
//! This library holds the rules and leaves input and output to its caller:
//!
//! - [`uri`] takes the source and output locations apart;
//! - [`client`] decides how the client of an object store is set up;
//! - [`lister`] says what a page request carries and which objects count;
//! - [`record`] derives a manifest record from an object descriptor;
//! - [`accumulator`] gathers records into column buffers, kept by [`columns`]
//!   in Arrow builders and laid out as [`schema`] says;
//! - [`batching`] states how records are cut into batches;
//! - [`retry`] says how often a failing call is attempted, and when;
//! - [`pipeline`] ties these into one run, from the first page to the upload.

pub mod accumulator;
pub mod batching;
pub mod client;
pub mod columns;
pub mod error;
pub mod lister;
pub mod pipeline;
pub mod record;
pub mod retry;
pub mod schema;
pub mod text;
pub mod uri;
