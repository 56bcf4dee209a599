//! The lz4 format.
use crate::progress::{default_progress_args, ProgressArgs};
use crate::utils::{CommonArgs, Compressor, ExtractedTarget};
use vstd::prelude::*;

verus! {

/// The options of the lz4 subcommand.
#[derive(Debug, Clone)]
pub struct Lz4Args {
    pub common_args: CommonArgs,
    pub progress_args: ProgressArgs,
}

/// lz4 frames, with progress options and no level.
#[derive(Debug, Clone, Copy, PartialEq, Eq, Structural)]
pub struct Lz4 {
    pub progress_args: ProgressArgs,
}

/// lz4 with the default progress options.
pub open spec fn default_lz4() -> Lz4 {
    Lz4 { progress_args: default_progress_args() }
}

impl Default for Lz4 {
    fn default() -> (r: Lz4)
        ensures
            r == default_lz4(),
    {
        Lz4 { progress_args: ProgressArgs::default() }
    }
}

impl Lz4 {
    /// lz4 as the subcommand's options ask.
    pub fn new(args: &Lz4Args) -> (r: Lz4)
        ensures
            r.progress_args == args.progress_args,
    {
        Lz4 { progress_args: args.progress_args }
    }
}

impl Compressor for Lz4 {
    open spec fn name_spec(&self) -> Seq<char> {
        "lz4"@
    }

    open spec fn extension_spec(&self) -> Seq<char> {
        "lz4"@
    }

    open spec fn target_spec(&self) -> ExtractedTarget {
        ExtractedTarget::FILE
    }

    fn name(&self) -> (r: &str) {
        "lz4"
    }

    fn extension(&self) -> (r: &str) {
        "lz4"
    }

    fn default_extracted_target(&self) -> (r: ExtractedTarget) {
        ExtractedTarget::FILE
    }
}

} // verus!
