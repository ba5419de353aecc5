//! Packaging of byte contents into a tar container compressed with an
//! LZMA/XZ stream, and the inverse: listing and unpacking such archives.
//!
//! The container and codec formats themselves are supplied by outside
//! crates; this library verifies the pipeline around them: collecting
//! entries, stripping and validating destination names, driving the codec
//! in bounded chunks with progress accounting, and enforcing the
//! extraction policy. Reading and writing files stays with the caller,
//! who hands byte contents in and takes byte contents out; directory
//! traversal runs behind narrow trusted wrappers.

pub mod clock;
pub mod codec;
pub mod container;
pub mod error;
pub mod laws;
pub mod lzma;
pub mod names;
pub mod progress;
pub mod reader;
pub mod walk;
pub mod writer;
