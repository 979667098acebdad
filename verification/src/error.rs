//! The faults that the data source reports to its caller.

use vstd::prelude::*;

verus! {

/// A fault of the data source. Every fault is returned to the caller; none
/// is retried, and no partial result accompanies one.
#[derive(Clone, Copy, Debug, PartialEq, Eq, Structural)]
pub enum DataError {
    /// A row does not line up with the declared fields: it has another
    /// number of cells, or a cell holds a value of another type than its
    /// field. `row` is the position of the first such row.
    SchemaMismatch { row: usize },
    /// A projection names a column that the table does not have. `index` is
    /// the first such entry of the projection, `columns` the number of
    /// columns of the table.
    InvalidProjection { index: usize, columns: usize },
    /// A partition other than the single one, partition 0, was asked for.
    InvalidPartition { partition: usize },
    /// A scan node was given children, `children` of them; it is a leaf.
    UnexpectedChildren { children: usize },
}

/// A fault of loading data into a data source.
#[derive(Debug, PartialEq, Eq)]
pub enum Error {
    /// The raw input could not be decompressed, or is no delimited text.
    /// Holds the message of the decoder or reader that refused it.
    CsvError(String),
    /// The decoded data does not make up the table it is meant for.
    DataError(DataError),
    /// A text that is meant to hold one record holds `found` of them.
    RecordCount { found: usize },
}

} // verus!
