//! The zstd format.
use crate::text::str_eq;
use crate::progress::{default_progress_args, ProgressArgs};
use crate::utils::{
    clamp_spec, CommonArgs, CompressionLevelValidator, Compressor, ExtractedTarget,
    LevelArgs,
};
use vstd::prelude::*;

verus! {

/// The -7 to 22 range of zstd.
#[derive(Debug, Clone, Copy)]
pub struct ZstdCompressionValidator;

pub open spec fn zstd_named_level(folded: Seq<char>) -> Option<i32> {
    if folded == "none"@ {
        Some(-7i32)
    } else if folded == "fast"@ {
        Some(1i32)
    } else if folded == "best"@ {
        Some(22i32)
    } else {
        None
    }
}

impl CompressionLevelValidator for ZstdCompressionValidator {
    open spec fn min_spec(&self) -> i32 {
        -7i32
    }

    open spec fn max_spec(&self) -> i32 {
        22
    }

    open spec fn default_spec(&self) -> i32 {
        1
    }

    open spec fn named_level(&self, folded: Seq<char>) -> Option<i32> {
        zstd_named_level(folded)
    }

    fn min_level(&self) -> (r: i32) {
        -7
    }

    fn max_level(&self) -> (r: i32) {
        22
    }

    fn default_level(&self) -> (r: i32) {
        1
    }

    fn level_for_folded_name(&self, folded: &str) -> (r: Option<i32>) {
        if str_eq(folded, "none") {
            Some(-7)
        } else if str_eq(folded, "fast") {
            Some(1)
        } else if str_eq(folded, "best") {
            Some(22)
        } else {
            None
        }
    }
}

/// The options of the zstd subcommand.
#[derive(Debug, Clone)]
pub struct ZstdArgs {
    pub common_args: CommonArgs,
    pub level_args: LevelArgs,
    pub progress_args: ProgressArgs,
}

/// zstd, with its level (-7 to 22) and progress options.
#[derive(Debug, Clone, Copy, PartialEq, Eq, Structural)]
pub struct Zstd {
    pub compression_level: i32,
    pub progress_args: ProgressArgs,
}

/// zstd at level 1 with the default progress options.
pub open spec fn default_zstd() -> Zstd {
    Zstd { compression_level: 1, progress_args: default_progress_args() }
}

impl Default for Zstd {
    fn default() -> (r: Zstd)
        ensures
            r == default_zstd(),
    {
        let validator = ZstdCompressionValidator;
        Zstd { compression_level: validator.default_level(), progress_args: ProgressArgs::default() }
    }
}

impl Zstd {
    /// zstd as the subcommand's options ask, the level clamped to -7 to 22.
    pub fn new(args: &ZstdArgs) -> (r: Zstd)
        ensures
            r.compression_level == clamp_spec(args.level_args.level.level, -7i32, 22),
            r.progress_args == args.progress_args,
    {
        let validator = ZstdCompressionValidator;
        let level = validator.validate_and_clamp_level(args.level_args.level.level);
        Zstd { compression_level: level, progress_args: args.progress_args }
    }
}

impl Compressor for Zstd {
    open spec fn name_spec(&self) -> Seq<char> {
        "zstd"@
    }

    open spec fn extension_spec(&self) -> Seq<char> {
        "zst"@
    }

    open spec fn target_spec(&self) -> ExtractedTarget {
        ExtractedTarget::FILE
    }

    fn name(&self) -> (r: &str) {
        "zstd"
    }

    fn extension(&self) -> (r: &str) {
        "zst"
    }

    fn default_extracted_target(&self) -> (r: ExtractedTarget) {
        ExtractedTarget::FILE
    }
}

} // verus!
