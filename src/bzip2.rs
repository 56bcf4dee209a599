//! The bzip2 format.
use crate::text::str_eq;
use crate::progress::{default_progress_args, ProgressArgs};
use crate::utils::{
    clamp_spec, CommonArgs, CompressionLevelValidator, Compressor, ExtractedTarget,
    LevelArgs,
};
use vstd::prelude::*;

verus! {

/// The 1-9 range of bzip2, which has no level `none`.
#[derive(Debug, Clone, Copy)]
pub struct Bzip2CompressionValidator;

pub open spec fn bzip2_named_level(folded: Seq<char>) -> Option<i32> {
    if folded == "fast"@ {
        Some(1i32)
    } else if folded == "best"@ {
        Some(9i32)
    } else {
        None
    }
}

impl CompressionLevelValidator for Bzip2CompressionValidator {
    open spec fn min_spec(&self) -> i32 {
        1
    }

    open spec fn max_spec(&self) -> i32 {
        9
    }

    open spec fn default_spec(&self) -> i32 {
        9
    }

    open spec fn named_level(&self, folded: Seq<char>) -> Option<i32> {
        bzip2_named_level(folded)
    }

    fn min_level(&self) -> (r: i32) {
        1
    }

    fn max_level(&self) -> (r: i32) {
        9
    }

    fn default_level(&self) -> (r: i32) {
        9
    }

    fn level_for_folded_name(&self, folded: &str) -> (r: Option<i32>) {
        if str_eq(folded, "fast") {
            Some(1)
        } else if str_eq(folded, "best") {
            Some(9)
        } else {
            None
        }
    }
}

/// The options of the bzip2 subcommand.
#[derive(Debug, Clone)]
pub struct Bzip2Args {
    pub common_args: CommonArgs,
    pub level_args: LevelArgs,
    pub progress_args: ProgressArgs,
}

/// bzip2, with its level (1-9) and progress options.
#[derive(Debug, Clone, Copy, PartialEq, Eq, Structural)]
pub struct Bzip2 {
    pub level: i32,
    pub progress_args: ProgressArgs,
}

/// bzip2 at level 9 with the default progress options.
pub open spec fn default_bzip2() -> Bzip2 {
    Bzip2 { level: 9, progress_args: default_progress_args() }
}

impl Default for Bzip2 {
    fn default() -> (r: Bzip2)
        ensures
            r == default_bzip2(),
    {
        let validator = Bzip2CompressionValidator;
        Bzip2 { level: validator.default_level(), progress_args: ProgressArgs::default() }
    }
}

impl Bzip2 {
    /// bzip2 as the subcommand's options ask, the level clamped to 1-9.
    pub fn new(args: &Bzip2Args) -> (r: Bzip2)
        ensures
            r.level == clamp_spec(args.level_args.level.level, 1, 9),
            r.progress_args == args.progress_args,
    {
        let validator = Bzip2CompressionValidator;
        let level = validator.validate_and_clamp_level(args.level_args.level.level);
        Bzip2 { level, progress_args: args.progress_args }
    }
}

impl Compressor for Bzip2 {
    open spec fn name_spec(&self) -> Seq<char> {
        "bzip2"@
    }

    open spec fn extension_spec(&self) -> Seq<char> {
        "bz2"@
    }

    open spec fn target_spec(&self) -> ExtractedTarget {
        ExtractedTarget::FILE
    }

    fn name(&self) -> (r: &str) {
        "bzip2"
    }

    fn extension(&self) -> (r: &str) {
        "bz2"
    }

    fn default_extracted_target(&self) -> (r: ExtractedTarget) {
        ExtractedTarget::FILE
    }
}

} // verus!
