//! The codec interface, compression levels and the plain data that a job
//! is made of.
use crate::text::{
    extension_of, file_name_of, i32_parse, lower_of, lowercase, owned, parse_i32, path_extension,
    path_file_name, path_file_stem, stem_of, str_eq,
};
use vstd::prelude::*;

verus! {

/// Whether a codec extracts to a single file or into a directory.
#[derive(Debug, Clone, Copy, PartialEq, Eq, Structural)]
pub enum ExtractedTarget {
    /// Extract to a single file (gzip, bzip2, xz, ...)
    FILE,
    /// Extract into a directory (tar, zip)
    DIRECTORY,
}

/// The options shared by every format: explicit input and output, the
/// action flags, the positional list of inputs followed by the output, and
/// the switches that keep stdin/stdout out of the inference.
#[derive(Debug, Clone)]
pub struct CommonArgs {
    pub input: Option<String>,
    pub output: Option<String>,
    pub compress: bool,
    pub extract: bool,
    pub decompress: bool,
    pub io_list: Vec<String>,
    pub ignore_pipes: bool,
    pub ignore_stdin: bool,
    pub ignore_stdout: bool,
}

/// `level` forced into `[min, max]`.
pub open spec fn clamp_spec(level: i32, min: i32, max: i32) -> i32 {
    if level < min {
        min
    } else if level > max {
        max
    } else {
        level
    }
}

/// The level range of one compressor and its named levels.
pub trait CompressionLevelValidator {
    spec fn min_spec(&self) -> i32;

    spec fn max_spec(&self) -> i32;

    spec fn default_spec(&self) -> i32;

    /// The level that a lower-case level name stands for.
    spec fn named_level(&self, folded: Seq<char>) -> Option<i32>;

    /// The minimum valid compression level
    fn min_level(&self) -> (r: i32)
        ensures
            r == self.min_spec(),
    ;

    /// The maximum valid compression level
    fn max_level(&self) -> (r: i32)
        ensures
            r == self.max_spec(),
    ;

    /// The default compression level
    fn default_level(&self) -> (r: i32)
        ensures
            r == self.default_spec(),
    ;

    /// The level that a level name, already in lower case, stands for.
    fn level_for_folded_name(&self, folded: &str) -> (r: Option<i32>)
        ensures
            r == self.named_level(folded@),
    ;

    /// The level that a level name stands for, in any case.
    fn name_to_level(&self, name: &str) -> (r: Option<i32>)
        ensures
            r == self.named_level(lower_of(name@)),
    {
        let folded = lowercase(name);
        self.level_for_folded_name(folded.as_str())
    }

    /// Whether a level lies in the valid range
    fn is_valid_level(&self, level: i32) -> (r: bool)
        ensures
            r == (self.min_spec() <= level && level <= self.max_spec()),
    {
        level >= self.min_level() && level <= self.max_level()
    }

    /// The level, clamped to the valid range
    fn validate_and_clamp_level(&self, level: i32) -> (r: i32)
        ensures
            r == clamp_spec(level, self.min_spec(), self.max_spec()),
    {
        let min = self.min_level();
        let max = self.max_level();
        if level < min {
            min
        } else if level > max {
            max
        } else {
            level
        }
    }
}

/// Whether a level lies in `v`'s range.
pub open spec fn valid_for<V: CompressionLevelValidator>(v: &V, level: int) -> bool {
    v.min_spec() <= level && level <= v.max_spec()
}

/// Whether a validator has the given range, default and named levels, and
/// its range checks and clamping behave as such at the bounds, just
/// outside them and in the middle.
pub open spec fn validator_matches<V: CompressionLevelValidator>(
    v: &V,
    min_level: i32,
    max_level: i32,
    default_level: i32,
    fast_name_level: Option<i32>,
    best_name_level: Option<i32>,
    none_name_level: Option<i32>,
) -> bool {
    &&& v.min_spec() == min_level
    &&& v.max_spec() == max_level
    &&& v.default_spec() == default_level
    &&& valid_for(v, min_level as int)
    &&& valid_for(v, max_level as int)
    &&& !valid_for(v, min_level - 1)
    &&& !valid_for(v, max_level + 1)
    &&& max_level - min_level >= 2 ==> valid_for(v, (min_level + max_level) / 2)
    &&& clamp_spec((min_level - 1) as i32, v.min_spec(), v.max_spec()) == min_level
    &&& clamp_spec(min_level, v.min_spec(), v.max_spec()) == min_level
    &&& clamp_spec(max_level, v.min_spec(), v.max_spec()) == max_level
    &&& clamp_spec((max_level + 1) as i32, v.min_spec(), v.max_spec()) == max_level
    &&& v.named_level(lower_of("fast"@)) == fast_name_level
    &&& v.named_level(lower_of("best"@)) == best_name_level
    &&& v.named_level(lower_of("none"@)) == none_name_level
    &&& v.named_level(lower_of("invalid"@)) == None::<i32>
}

/// Runs the checks that every validator must pass against the range,
/// default and named levels it should have, and says whether all held.
pub fn test_compression_validator_helper<V: CompressionLevelValidator>(
    validator: &V,
    min_level: i32,
    max_level: i32,
    default_level: i32,
    fast_name_level: Option<i32>,
    best_name_level: Option<i32>,
    none_name_level: Option<i32>,
) -> (r: bool)
    requires
        min_level > i32::MIN,
        max_level < i32::MAX,
    ensures
        r == validator_matches(
            validator,
            min_level,
            max_level,
            default_level,
            fast_name_level,
            best_name_level,
            none_name_level,
        ),
{
    let mut ok = validator.min_level() == min_level;
    ok = ok && validator.max_level() == max_level;
    ok = ok && validator.default_level() == default_level;
    ok = ok && validator.is_valid_level(min_level);
    ok = ok && validator.is_valid_level(max_level);
    ok = ok && !validator.is_valid_level(min_level - 1);
    ok = ok && !validator.is_valid_level(max_level + 1);
    let span = max_level as i64 - min_level as i64;
    if span >= 2 {
        let mid = ((min_level as i64 + max_level as i64) / 2) as i32;
        ok = ok && validator.is_valid_level(mid);
    }
    ok = ok && validator.validate_and_clamp_level(min_level - 1) == min_level;
    ok = ok && validator.validate_and_clamp_level(min_level) == min_level;
    ok = ok && validator.validate_and_clamp_level(max_level) == max_level;
    ok = ok && validator.validate_and_clamp_level(max_level + 1) == max_level;
    ok = ok && validator.name_to_level("fast") == fast_name_level;
    ok = ok && validator.name_to_level("best") == best_name_level;
    ok = ok && validator.name_to_level("none") == none_name_level;
    ok = ok && validator.name_to_level("invalid").is_none();
    ok
}

/// The 0-9 range that most compressors use.
#[derive(Debug, Clone, Copy)]
pub struct DefaultCompressionValidator;

pub open spec fn default_named_level(folded: Seq<char>) -> Option<i32> {
    if folded == "none"@ {
        Some(0i32)
    } else if folded == "fast"@ {
        Some(1i32)
    } else if folded == "best"@ {
        Some(9i32)
    } else {
        None
    }
}

impl CompressionLevelValidator for DefaultCompressionValidator {
    open spec fn min_spec(&self) -> i32 {
        0
    }

    open spec fn max_spec(&self) -> i32 {
        9
    }

    open spec fn default_spec(&self) -> i32 {
        6
    }

    open spec fn named_level(&self, folded: Seq<char>) -> Option<i32> {
        default_named_level(folded)
    }

    fn min_level(&self) -> (r: i32) {
        0
    }

    fn max_level(&self) -> (r: i32) {
        9
    }

    fn default_level(&self) -> (r: i32) {
        6
    }

    fn level_for_folded_name(&self, folded: &str) -> (r: Option<i32>) {
        if str_eq(folded, "none") {
            Some(0)
        } else if str_eq(folded, "fast") {
            Some(1)
        } else if str_eq(folded, "best") {
            Some(9)
        } else {
            None
        }
    }
}

/// A compression level as given on the command line.
#[derive(Debug, Clone, Copy)]
pub struct CompressionLevel {
    pub level: i32,
}

/// What `CompressionLevel::from_folded_name` gives for a lower-case name.
pub open spec fn level_from_folded_spec(folded: Seq<char>) -> Option<i32> {
    default_named_level(folded)
}

/// What `CompressionLevel::from_str` gives for `s`: the integer it spells,
/// else the level its lower-case form names.
pub open spec fn level_from_str_spec(s: Seq<char>) -> Option<int> {
    match i32_parse(s) {
        Some(v) => Some(v),
        None => match level_from_folded_spec(lower_of(s)) {
            Some(l) => Some(l as int),
            None => None,
        },
    }
}

impl CompressionLevel {
    /// The level that a lower-case name (`none`, `fast`, `best`) stands for.
    pub fn from_folded_name(folded: &str) -> (r: Result<CompressionLevel, &'static str>)
        ensures
            match level_from_folded_spec(folded@) {
                Some(l) => r == Ok::<CompressionLevel, &'static str>(CompressionLevel { level: l }),
                None => r.is_err(),
            },
    {
        match DefaultCompressionValidator.level_for_folded_name(folded) {
            Some(level) => Ok(CompressionLevel { level }),
            None => Err("Invalid compression level"),
        }
    }

    /// Reads a level: an integer, or one of the names `none`, `fast` and
    /// `best` in any case.
    pub fn from_str(s: &str) -> (r: Result<CompressionLevel, &'static str>)
        ensures
            match level_from_str_spec(s@) {
                Some(l) => r.is_ok() && r.unwrap().level as int == l,
                None => r.is_err(),
            },
    {
        match parse_i32(s) {
            Some(level) => Ok(CompressionLevel { level }),
            None => {
                let folded = lowercase(s);
                CompressionLevel::from_folded_name(folded.as_str())
            },
        }
    }
}

impl Default for CompressionLevel {
    fn default() -> (r: CompressionLevel)
        ensures
            r.level == 6,
    {
        CompressionLevel { level: 6 }
    }
}

/// The level option of the formats that have one.
#[derive(Debug, Clone, Copy)]
pub struct LevelArgs {
    pub level: CompressionLevel,
}

impl Default for LevelArgs {
    fn default() -> (r: LevelArgs)
        ensures
            r.level.level == 6,
    {
        LevelArgs { level: CompressionLevel::default() }
    }
}

/// The name that `default_compressed_filename` gives: the file name (or
/// `archive` when the path has none), a dot and the extension.
pub open spec fn compressed_name(path: Seq<char>, ext: Seq<char>) -> Seq<char> {
    let base = match file_name_of(path) {
        Some(n) => n,
        None => "archive"@,
    };
    base + "."@ + ext
}

/// The name that `default_extracted_filename` gives: `.` for a codec that
/// extracts into a directory; otherwise the stem when the path carries the
/// codec's extension, else `archive`.
pub open spec fn extracted_name(path: Seq<char>, ext: Seq<char>, target: ExtractedTarget) -> Seq<
    char,
> {
    if target == ExtractedTarget::DIRECTORY {
        "."@
    } else if extension_of(path) == Some(ext) && stem_of(path).is_some() {
        stem_of(path).unwrap()
    } else {
        "archive"@
    }
}

/// Whether a path names an archive of a codec with extension `ext`: its
/// extension equals `ext` exactly.
pub open spec fn is_archive_spec(path: Seq<char>, ext: Seq<char>) -> bool {
    extension_of(path) == Some(ext)
}

/// The interface of one archive or compression format: its name, its
/// extension, where it extracts to, and the file names derived from those.
///
/// Each verified implementation states its name, extension and target in
/// the spec functions below; the defaults only serve implementations that
/// are not verified.
pub trait Compressor {
    open spec fn name_spec(&self) -> Seq<char> {
        Seq::empty()
    }

    open spec fn extension_spec(&self) -> Seq<char> {
        Seq::empty()
    }

    open spec fn target_spec(&self) -> ExtractedTarget {
        ExtractedTarget::FILE
    }

    /// Name of this compressor
    fn name(&self) -> (r: &str)
        ensures
            r@ == self.name_spec(),
    ;

    /// Extension of its files
    fn extension(&self) -> (r: &str)
        ensures
            r@ == self.extension_spec(),
    ;

    /// Whether it extracts to a file or a directory
    fn default_extracted_target(&self) -> (r: ExtractedTarget)
        ensures
            r == self.target_spec(),
    ;

    /// Whether a path names an archive of this format, by its extension
    /// (case-sensitive; a path without extension never does).
    fn is_archive(&self, in_path: &str) -> (r: bool)
        ensures
            r == is_archive_spec(in_path@, self.extension_spec()),
    {
        match path_extension(in_path) {
            Some(ext) => str_eq(ext.as_str(), self.extension()),
            None => false,
        }
    }

    /// The default name of the archive made from `in_path`.
    fn default_compressed_filename(&self, in_path: &str) -> (r: String)
        ensures
            r@ == compressed_name(in_path@, self.extension_spec()),
    {
        let base = match path_file_name(in_path) {
            Some(name) => name,
            None => owned("archive"),
        };
        base.concat(".").concat(self.extension())
    }

    /// The default name of what is extracted from `in_path`.
    fn default_extracted_filename(&self, in_path: &str) -> (r: String)
        ensures
            r@ == extracted_name(in_path@, self.extension_spec(), self.target_spec()),
    {
        if self.default_extracted_target() == ExtractedTarget::DIRECTORY {
            return owned(".");
        }
        if let Some(ext) = path_extension(in_path) {
            if str_eq(ext.as_str(), self.extension()) {
                if let Some(stem) = path_file_stem(in_path) {
                    return stem;
                }
            }
        }
        owned("archive")
    }
}

/// Declares `std::io::Error`, the error type of the codecs.
#[verifier::external_type_specification]
#[verifier::external_body]
pub struct ExIoError(std::io::Error);

/// Relies on `io::Error::new`: an error of kind `Other` carrying `message`.
#[verifier::external_body]
fn other_io_error(message: &str) -> std::io::Error {
    std::io::Error::new(std::io::ErrorKind::Other, message)
}

/// A failed result carrying `message`.
pub fn cmprss_error(message: &str) -> (r: Result<(), std::io::Error>)
    ensures
        r.is_err(),
{
    Err(other_io_error(message))
}

/// Where a codec reads from: the named files, or standard input.
#[derive(Debug, Clone)]
pub enum CmprssInput {
    /// Paths of the input files
    Path(Vec<String>),
    /// Standard input
    Pipe,
}

/// Where a codec writes to: a named file or directory, or standard output.
#[derive(Debug, Clone)]
pub enum CmprssOutput {
    /// Path of the output
    Path(String),
    /// Standard output
    Pipe,
}

/// The inputs of a job as Verus sees them.
pub enum InputView {
    Path(Seq<String>),
    Pipe,
}

/// The output of a job as Verus sees it.
pub enum OutputView {
    Path(Seq<char>),
    Pipe,
}

impl View for CmprssInput {
    type V = InputView;

    open spec fn view(&self) -> InputView {
        match self {
            CmprssInput::Path(paths) => InputView::Path(paths@),
            CmprssInput::Pipe => InputView::Pipe,
        }
    }
}

impl View for CmprssOutput {
    type V = OutputView;

    open spec fn view(&self) -> OutputView {
        match self {
            CmprssOutput::Path(path) => OutputView::Path(path@),
            CmprssOutput::Pipe => OutputView::Pipe,
        }
    }
}

} // verus!
