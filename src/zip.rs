//! The zip archive format.
use crate::utils::{CommonArgs, Compressor, ExtractedTarget};
use vstd::prelude::*;

verus! {

/// The options of the zip subcommand.
#[derive(Debug, Clone)]
pub struct ZipArgs {
    pub common_args: CommonArgs,
}

/// zip archives, which extract into a directory.
#[derive(Debug, Clone, Copy, PartialEq, Eq, Structural)]
pub struct Zip {}

impl Default for Zip {
    fn default() -> (r: Zip) {
        Zip {  }
    }
}

impl Zip {
    /// zip as the subcommand's options ask.
    pub fn new(_args: &ZipArgs) -> (r: Zip)
        ensures
            r == (Zip {  }),
    {
        Zip {  }
    }
}

impl Compressor for Zip {
    open spec fn name_spec(&self) -> Seq<char> {
        "zip"@
    }

    open spec fn extension_spec(&self) -> Seq<char> {
        "zip"@
    }

    open spec fn target_spec(&self) -> ExtractedTarget {
        ExtractedTarget::DIRECTORY
    }

    fn name(&self) -> (r: &str) {
        "zip"
    }

    fn extension(&self) -> (r: &str) {
        "zip"
    }

    fn default_extracted_target(&self) -> (r: ExtractedTarget) {
        ExtractedTarget::DIRECTORY
    }
}

} // verus!
