use vstd::prelude::*;

verus! {

/// Failures surfaced by this layer. Every failure is returned synchronously
/// to the immediate caller at the point of discovery; none is retried or
/// downgraded here.
#[derive(Clone, Copy, Debug, PartialEq, Eq, Structural)]
pub enum Error {
    /// The byte source cannot yield an underlying file handle; detected
    /// before any I/O, no partial work performed.
    SourceNotFileBacked,
    /// OS-level mapping error; never retried automatically.
    MappingFailure,
    /// Corrupt or unsupported header, dictionary block, or data block;
    /// terminates the remaining scan at first occurrence.
    FormatError,
    /// A projection index lies outside the schema; fatal caller error,
    /// detected at iterator construction.
    ProjectionIndexOutOfRange,
    /// An operation was asked of a column whose type cannot support it.
    ComputeError,
}

} // verus!
