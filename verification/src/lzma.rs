//! The earlier, single-input configuration surface: one input path, one
//! output path, and the codec options. The newer writer in
//! [`crate::writer`] supersedes it; an I/O layer that keeps this surface
//! collects the input path's files and drives the same pipeline.

use vstd::prelude::*;
use crate::writer::clamped_level;

verus! {

/// Options for compressing one path into an LZMA-compressed container.
#[derive(Debug, Clone)]
pub struct LZMATarball {
    /// Codec preset, always kept in 0..=9.
    pub compression_level: u8,
    /// Chunk size in whole kilobytes for the encode loop.
    pub buffer_size: u16,
    /// Where the artifact goes.
    pub output_file: String,
    /// The scratch container path an I/O layer may use.
    pub tar_file: String,
    /// The file or directory tree to package.
    pub input_path: String,
}

/// Result of one successful compression run.
#[derive(Debug, Clone)]
pub struct LZMAResult {
    /// The configured output path, echoed back.
    pub output_file: String,
    /// Size of the compressed artifact in bytes.
    pub size: u64,
    /// Size of the uncompressed container in bytes.
    pub original_size: u64,
    /// Wall-clock duration of the run, in milliseconds.
    pub elapsed_time: u64,
}

impl LZMATarball {
    /// Sets the compression level, clamped into 0..=9.
    pub fn with_compression_level(&mut self, level: u8) -> (r: &mut Self)
        ensures
            *r == (LZMATarball { compression_level: clamped_level(level), ..*old(self) }),
            *final(self) == *final(r),
    {
        self.compression_level = if level > 9 {
            9
        } else {
            level
        };
        self
    }

    /// Sets the chunk size in kilobytes.
    pub fn with_buffer_size(&mut self, size: u16) -> (r: &mut Self)
        ensures
            *r == (LZMATarball { buffer_size: size, ..*old(self) }),
            *final(self) == *final(r),
    {
        self.buffer_size = size;
        self
    }

    /// Sets the scratch container path for an I/O layer to use.
    pub fn set_tar_file(&mut self, tar_file: String) -> (r: &mut Self)
        ensures
            *r == (LZMATarball { tar_file, ..*old(self) }),
            *final(self) == *final(r),
    {
        self.tar_file = tar_file;
        self
    }
}

} // verus!
