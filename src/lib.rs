//! Job resolution and codec bookkeeping for a command-line compression tool.
pub mod bzip2;
pub mod gzip;
pub mod job;
pub mod lz4;
pub mod preflight;
pub mod progress;
pub mod tar;
pub mod text;
pub mod utils;
pub mod xz;
pub mod zip;
pub mod zstd;
