//! The gzip format.
use crate::progress::{default_progress_args, ProgressArgs};
use crate::utils::{
    clamp_spec, CommonArgs, CompressionLevelValidator, Compressor, DefaultCompressionValidator,
    ExtractedTarget, LevelArgs,
};
use vstd::prelude::*;

verus! {

/// The options of the gzip subcommand.
#[derive(Debug, Clone)]
pub struct GzipArgs {
    pub common_args: CommonArgs,
    pub level_args: LevelArgs,
    pub progress_args: ProgressArgs,
}

/// gzip, with its level (0-9) and progress options.
#[derive(Debug, Clone, Copy, PartialEq, Eq, Structural)]
pub struct Gzip {
    pub compression_level: i32,
    pub progress_args: ProgressArgs,
}

/// gzip at level 6 with the default progress options.
pub open spec fn default_gzip() -> Gzip {
    Gzip { compression_level: 6, progress_args: default_progress_args() }
}

impl Default for Gzip {
    fn default() -> (r: Gzip)
        ensures
            r == default_gzip(),
    {
        let validator = DefaultCompressionValidator;
        Gzip { compression_level: validator.default_level(), progress_args: ProgressArgs::default() }
    }
}

impl Gzip {
    /// gzip as the subcommand's options ask, the level clamped to 0-9.
    pub fn new(args: &GzipArgs) -> (r: Gzip)
        ensures
            r.compression_level == clamp_spec(args.level_args.level.level, 0, 9),
            r.progress_args == args.progress_args,
    {
        let validator = DefaultCompressionValidator;
        let level = validator.validate_and_clamp_level(args.level_args.level.level);
        Gzip { compression_level: level, progress_args: args.progress_args }
    }
}

impl Compressor for Gzip {
    open spec fn name_spec(&self) -> Seq<char> {
        "gzip"@
    }

    open spec fn extension_spec(&self) -> Seq<char> {
        "gz"@
    }

    open spec fn target_spec(&self) -> ExtractedTarget {
        ExtractedTarget::FILE
    }

    fn name(&self) -> (r: &str) {
        "gzip"
    }

    fn extension(&self) -> (r: &str) {
        "gz"
    }

    fn default_extracted_target(&self) -> (r: ExtractedTarget) {
        ExtractedTarget::FILE
    }
}

} // verus!
