//! The error kinds that the terminal operations surface to their caller.

use vstd::prelude::*;

verus! {

/// Every failure of a terminal operation is reported as one of these
/// kinds; none is retried internally.
#[derive(Clone, Copy, Debug, PartialEq, Eq, Structural)]
pub enum TarballError {
    /// A source path whose metadata cannot be read at registration time.
    PathNotFound,
    /// A terminal operation was invoked before a required field was set.
    ConfigurationIncomplete,
    /// The archive path handed to the reader does not name an existing file.
    ArchiveNotFound,
    /// An entry could not be appended to the container.
    ArchiveWriteFailure,
    /// The codec or the container parser failed mid-stream while reading.
    ArchiveReadFailure,
    /// The encoder rejected input or could not be finalized.
    CompressionFailure,
    /// Unpacking or the size accounting after unpacking failed.
    ExtractionFailure,
    /// A generic filesystem failure around the pipeline.
    IOFailure,
}

} // verus!
