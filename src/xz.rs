//! The xz format.
use crate::progress::{default_progress_args, ProgressArgs};
use crate::utils::{
    clamp_spec, CommonArgs, CompressionLevelValidator, Compressor, DefaultCompressionValidator,
    ExtractedTarget, LevelArgs,
};
use vstd::prelude::*;

verus! {

/// The options of the xz subcommand.
#[derive(Debug, Clone)]
pub struct XzArgs {
    pub common_args: CommonArgs,
    pub level_args: LevelArgs,
    pub progress_args: ProgressArgs,
}

/// xz, with its level (0-9) and progress options.
#[derive(Debug, Clone, Copy, PartialEq, Eq, Structural)]
pub struct Xz {
    pub level: i32,
    pub progress_args: ProgressArgs,
}

/// xz at level 6 with the default progress options.
pub open spec fn default_xz() -> Xz {
    Xz { level: 6, progress_args: default_progress_args() }
}

impl Default for Xz {
    fn default() -> (r: Xz)
        ensures
            r == default_xz(),
    {
        let validator = DefaultCompressionValidator;
        Xz { level: validator.default_level(), progress_args: ProgressArgs::default() }
    }
}

impl Xz {
    /// xz as the subcommand's options ask, the level clamped to 0-9.
    pub fn new(args: &XzArgs) -> (r: Xz)
        ensures
            r.level == clamp_spec(args.level_args.level.level, 0, 9),
            r.progress_args == args.progress_args,
    {
        let validator = DefaultCompressionValidator;
        let level = validator.validate_and_clamp_level(args.level_args.level.level);
        Xz { level: level, progress_args: args.progress_args }
    }
}

impl Compressor for Xz {
    open spec fn name_spec(&self) -> Seq<char> {
        "xz"@
    }

    open spec fn extension_spec(&self) -> Seq<char> {
        "xz"@
    }

    open spec fn target_spec(&self) -> ExtractedTarget {
        ExtractedTarget::FILE
    }

    fn name(&self) -> (r: &str) {
        "xz"
    }

    fn extension(&self) -> (r: &str) {
        "xz"
    }

    fn default_extracted_target(&self) -> (r: ExtractedTarget) {
        ExtractedTarget::FILE
    }
}

} // verus!
