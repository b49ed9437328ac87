//! The typed persistence and reporting core of a small venue's point of
//! sale: schema and statement generation for its five tables, a value codec
//! between typed records and stored rows, a timestamp envelope, an
//! in-memory model of the store with rolling daily snapshots, dataset
//! rotation, and the daily report's aggregates. Money is held exactly, as
//! counts of cents; instants as epoch milliseconds. The store's own I/O —
//! the database file, the rotation marker, archive renames — belongs to the
//! program around the library, which executes the statements the library
//! generates.

use vstd::prelude::*;

pub mod app;
pub mod database;
pub mod error;
pub mod model;
pub mod text;
pub mod to_model;
pub mod time;
pub mod value;
pub mod view;

verus! {

/// Concatenates two string slices into a new `String`.
pub fn append_str(a: &str, b: &str) -> (r: String)
    ensures
        r@ == a@ + b@,
{
    let mut out = a.to_owned();
    out.append(b);
    out
}

} // verus!
