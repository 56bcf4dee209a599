//! The tar archive format.
use crate::utils::{CommonArgs, Compressor, ExtractedTarget};
use vstd::prelude::*;

verus! {

/// The options of the tar subcommand.
#[derive(Debug, Clone)]
pub struct TarArgs {
    pub common_args: CommonArgs,
}

/// tar archives, which extract into a directory.
#[derive(Debug, Clone, Copy, PartialEq, Eq, Structural)]
pub struct Tar {}

impl Default for Tar {
    fn default() -> (r: Tar) {
        Tar {  }
    }
}

impl Tar {
    /// tar as the subcommand's options ask.
    pub fn new(_args: &TarArgs) -> (r: Tar)
        ensures
            r == (Tar {  }),
    {
        Tar {  }
    }
}

impl Compressor for Tar {
    open spec fn name_spec(&self) -> Seq<char> {
        "tar"@
    }

    open spec fn extension_spec(&self) -> Seq<char> {
        "tar"@
    }

    open spec fn target_spec(&self) -> ExtractedTarget {
        ExtractedTarget::DIRECTORY
    }

    fn name(&self) -> (r: &str) {
        "tar"
    }

    fn extension(&self) -> (r: &str) {
        "tar"
    }

    fn default_extracted_target(&self) -> (r: ExtractedTarget) {
        ExtractedTarget::DIRECTORY
    }
}

} // verus!
