//! Job resolution: from the command-line options and what the file system
//! and the terminal report, decide the codec, the action, the inputs and
//! the output of one invocation.
use crate::bzip2::{default_bzip2, Bzip2};
use crate::gzip::{default_gzip, Gzip};
use crate::lz4::{default_lz4, Lz4};
use crate::tar::Tar;
use crate::text::{
    extension_of, file_name_of, owned, path_extension, path_file_name, str_eq,
};
use crate::utils::{
    compressed_name, extracted_name, is_archive_spec, CmprssInput, CmprssOutput, CommonArgs, Compressor, ExtractedTarget, InputView,
    OutputView,
};
use crate::xz::{default_xz, Xz};
use crate::zip::Zip;
use crate::zstd::{default_zstd, Zstd};
use vstd::prelude::*;

verus! {

/// What a job does with its input.
#[derive(Debug, Clone, Copy, PartialEq, Eq, Structural)]
pub enum Action {
    Compress,
    Extract,
    /// Not decided yet; a finished job never carries it
    Unknown,
}

/// The formats, without their options.
#[derive(Debug, Clone, Copy, PartialEq, Eq, Structural)]
pub enum Format {
    Tar,
    Gzip,
    Xz,
    Bzip2,
    Zip,
    Zstd,
    Lz4,
}

/// One format with its options: what a job compresses or extracts with.
#[derive(Debug, Clone, Copy, PartialEq, Eq, Structural)]
pub enum Codec {
    Tar(Tar),
    Gzip(Gzip),
    Xz(Xz),
    Bzip2(Bzip2),
    Zip(Zip),
    Zstd(Zstd),
    Lz4(Lz4),
}

/// A format with its default options.
pub open spec fn default_codec(f: Format) -> Codec {
    match f {
        Format::Tar => Codec::Tar(Tar {  }),
        Format::Gzip => Codec::Gzip(default_gzip()),
        Format::Xz => Codec::Xz(default_xz()),
        Format::Bzip2 => Codec::Bzip2(default_bzip2()),
        Format::Zip => Codec::Zip(Zip {  }),
        Format::Zstd => Codec::Zstd(default_zstd()),
        Format::Lz4 => Codec::Lz4(default_lz4()),
    }
}

impl Codec {
    pub open spec fn format_spec(&self) -> Format {
        match self {
            Codec::Tar(_) => Format::Tar,
            Codec::Gzip(_) => Format::Gzip,
            Codec::Xz(_) => Format::Xz,
            Codec::Bzip2(_) => Format::Bzip2,
            Codec::Zip(_) => Format::Zip,
            Codec::Zstd(_) => Format::Zstd,
            Codec::Lz4(_) => Format::Lz4,
        }
    }

    /// The format of this codec.
    pub fn format(&self) -> (r: Format)
        ensures
            r == self.format_spec(),
    {
        match self {
            Codec::Tar(_) => Format::Tar,
            Codec::Gzip(_) => Format::Gzip,
            Codec::Xz(_) => Format::Xz,
            Codec::Bzip2(_) => Format::Bzip2,
            Codec::Zip(_) => Format::Zip,
            Codec::Zstd(_) => Format::Zstd,
            Codec::Lz4(_) => Format::Lz4,
        }
    }

    /// The format `f` with its default options.
    pub fn default_for(f: Format) -> (r: Codec)
        ensures
            r == default_codec(f),
    {
        match f {
            Format::Tar => Codec::Tar(Tar::default()),
            Format::Gzip => Codec::Gzip(Gzip::default()),
            Format::Xz => Codec::Xz(Xz::default()),
            Format::Bzip2 => Codec::Bzip2(Bzip2::default()),
            Format::Zip => Codec::Zip(Zip::default()),
            Format::Zstd => Codec::Zstd(Zstd::default()),
            Format::Lz4 => Codec::Lz4(Lz4::default()),
        }
    }
}

impl Compressor for Codec {
    open spec fn name_spec(&self) -> Seq<char> {
        match self {
            Codec::Tar(c) => c.name_spec(),
            Codec::Gzip(c) => c.name_spec(),
            Codec::Xz(c) => c.name_spec(),
            Codec::Bzip2(c) => c.name_spec(),
            Codec::Zip(c) => c.name_spec(),
            Codec::Zstd(c) => c.name_spec(),
            Codec::Lz4(c) => c.name_spec(),
        }
    }

    open spec fn extension_spec(&self) -> Seq<char> {
        match self {
            Codec::Tar(c) => c.extension_spec(),
            Codec::Gzip(c) => c.extension_spec(),
            Codec::Xz(c) => c.extension_spec(),
            Codec::Bzip2(c) => c.extension_spec(),
            Codec::Zip(c) => c.extension_spec(),
            Codec::Zstd(c) => c.extension_spec(),
            Codec::Lz4(c) => c.extension_spec(),
        }
    }

    open spec fn target_spec(&self) -> ExtractedTarget {
        match self {
            Codec::Tar(c) => c.target_spec(),
            Codec::Gzip(c) => c.target_spec(),
            Codec::Xz(c) => c.target_spec(),
            Codec::Bzip2(c) => c.target_spec(),
            Codec::Zip(c) => c.target_spec(),
            Codec::Zstd(c) => c.target_spec(),
            Codec::Lz4(c) => c.target_spec(),
        }
    }

    fn name(&self) -> (r: &str) {
        match self {
            Codec::Tar(c) => c.name(),
            Codec::Gzip(c) => c.name(),
            Codec::Xz(c) => c.name(),
            Codec::Bzip2(c) => c.name(),
            Codec::Zip(c) => c.name(),
            Codec::Zstd(c) => c.name(),
            Codec::Lz4(c) => c.name(),
        }
    }

    fn extension(&self) -> (r: &str) {
        match self {
            Codec::Tar(c) => c.extension(),
            Codec::Gzip(c) => c.extension(),
            Codec::Xz(c) => c.extension(),
            Codec::Bzip2(c) => c.extension(),
            Codec::Zip(c) => c.extension(),
            Codec::Zstd(c) => c.extension(),
            Codec::Lz4(c) => c.extension(),
        }
    }

    fn default_extracted_target(&self) -> (r: ExtractedTarget) {
        match self {
            Codec::Tar(c) => c.default_extracted_target(),
            Codec::Gzip(c) => c.default_extracted_target(),
            Codec::Xz(c) => c.default_extracted_target(),
            Codec::Bzip2(c) => c.default_extracted_target(),
            Codec::Zip(c) => c.default_extracted_target(),
            Codec::Zstd(c) => c.default_extracted_target(),
            Codec::Lz4(c) => c.default_extracted_target(),
        }
    }
}

/// The codec, with default options, of the first format (in the order tar,
/// gzip, xz, bzip2, zip, zstd, lz4) whose extension the path carries.
pub open spec fn codec_for_path(p: Seq<char>) -> Option<Codec> {
    if is_archive_spec(p, "tar"@) {
        Some(default_codec(Format::Tar))
    } else if is_archive_spec(p, "gz"@) {
        Some(default_codec(Format::Gzip))
    } else if is_archive_spec(p, "xz"@) {
        Some(default_codec(Format::Xz))
    } else if is_archive_spec(p, "bz2"@) {
        Some(default_codec(Format::Bzip2))
    } else if is_archive_spec(p, "zip"@) {
        Some(default_codec(Format::Zip))
    } else if is_archive_spec(p, "zst"@) {
        Some(default_codec(Format::Zstd))
    } else if is_archive_spec(p, "lz4"@) {
        Some(default_codec(Format::Lz4))
    } else {
        None
    }
}

/// The codec that a file name points to, by its extension.
pub fn get_compressor_from_filename(filename: &str) -> (r: Option<Codec>)
    ensures
        r == codec_for_path(filename@),
{
    let candidates = [
        Format::Tar,
        Format::Gzip,
        Format::Xz,
        Format::Bzip2,
        Format::Zip,
        Format::Zstd,
        Format::Lz4,
    ];
    proof {
        reveal_with_fuel(first_match, 8);
    }
    let mut i: usize = 0;
    while i < 7
        invariant
            0 <= i <= 7,
            candidates@ == seq![
                Format::Tar,
                Format::Gzip,
                Format::Xz,
                Format::Bzip2,
                Format::Zip,
                Format::Zstd,
                Format::Lz4,
            ],
            codec_for_path(filename@) == first_match(filename@, candidates@, i as int),
        decreases 7 - i,
    {
        let c = Codec::default_for(candidates[i]);
        if c.is_archive(filename) {
            return Some(c);
        }
        i = i + 1;
    }
    None
}

/// The first codec among `fs[i..]` whose extension `p` carries.
pub open spec fn first_match(p: Seq<char>, fs: Seq<Format>, i: int) -> Option<Codec>
    decreases fs.len() - i,
{
    if i < 0 || i >= fs.len() {
        None
    } else if is_archive_spec(p, default_codec(fs[i]).extension_spec()) {
        Some(default_codec(fs[i]))
    } else {
        first_match(p, fs, i + 1)
    }
}

/// What the file system reports of one path.
#[derive(Debug, Clone, Copy, PartialEq, Eq, Structural)]
pub struct PathStatus {
    pub exists: bool,
    pub is_dir: bool,
}

/// What the surroundings of an invocation report, gathered before the
/// decision: the paths that the options name, and whether stdin and stdout
/// are terminals.
#[derive(Debug, Clone)]
pub struct Probe {
    /// Whether the `--input` path exists (read only when one is given)
    pub input_exists: bool,
    /// The `--output` path (read only when one is given)
    pub output_status: PathStatus,
    /// Each positional path, in order
    pub io_status: Vec<PathStatus>,
    pub stdin_is_terminal: bool,
    pub stdout_is_terminal: bool,
}

/// Why a job could not be resolved.
#[derive(Debug, Clone, Copy, PartialEq, Eq, Structural)]
pub enum JobError {
    /// An input path does not exist
    InputNotFound,
    /// The `--output` path exists and is not a directory
    OutputExists,
    /// No input path, and stdin may not be read
    NoInput,
    /// An input list that holds no path
    NoInputSpecified,
    /// A default output name needs a codec that nothing names
    MustSpecifyCompressor,
    /// A codec cannot be guessed from several inputs
    MultipleInputs,
    /// No codec matches the name it would be guessed from
    CannotGuessCompressor,
    /// No codec was determined
    UnknownCompressor,
    /// No action was determined
    UnknownAction,
}

impl JobError {
    /// The message shown for this error.
    pub fn message(&self) -> &'static str {
        match self {
            JobError::InputNotFound => "Specified input path does not exist",
            JobError::OutputExists => "Specified output path already exists",
            JobError::NoInput => "No specified input",
            JobError::NoInputSpecified => "error: no input specified",
            JobError::MustSpecifyCompressor => "Must specify a compressor",
            JobError::MultipleInputs => "Can't guess compressor with multiple inputs",
            JobError::CannotGuessCompressor => "Can't guess compressor to use",
            JobError::UnknownCompressor => "Could not determine compressor to use",
            JobError::UnknownAction => "Could not determine action to take",
        }
    }
}

/// The action that the flags ask for: `--compress` first, then
/// `--extract`/`--decompress`, else undecided.
pub open spec fn flag_action(args: CommonArgs) -> Action {
    if args.compress {
        Action::Compress
    } else if args.extract || args.decompress {
        Action::Extract
    } else {
        Action::Unknown
    }
}

/// The action that the flags ask for.
pub fn get_flag_action(args: &CommonArgs) -> (r: Action)
    ensures
        r == flag_action(*args),
{
    if args.compress {
        Action::Compress
    } else if args.extract || args.decompress {
        Action::Extract
    } else {
        Action::Unknown
    }
}

/// Whether the last positional path is taken as the output: no `--output`
/// was given, and the path does not exist, or it is a directory and the
/// action is extraction.
pub open spec fn takes_last_token(args: CommonArgs, probe: Probe) -> bool {
    let n = args.io_list@.len();
    let st = probe.io_status@[n - 1];
    args.output.is_none() && n > 0 && (!st.exists || (st.is_dir && flag_action(args)
        == Action::Extract))
}

/// How many positional paths are inputs.
pub open spec fn input_token_count(args: CommonArgs, probe: Probe) -> int {
    if takes_last_token(args, probe) {
        args.io_list@.len() - 1
    } else {
        args.io_list@.len() as int
    }
}

/// The output path that the options give, if any.
pub open spec fn given_output(args: CommonArgs, probe: Probe) -> Option<Seq<char>> {
    match args.output {
        Some(o) => Some(o@),
        None => if takes_last_token(args, probe) {
            Some(args.io_list@.last()@)
        } else {
            None
        },
    }
}

/// The input paths that the options give: `--input`, then the positional
/// paths that are not the output.
pub open spec fn given_inputs(args: CommonArgs, probe: Probe) -> Seq<String> {
    let explicit = match args.input {
        Some(p) => seq![p],
        None => Seq::empty(),
    };
    explicit + args.io_list@.take(input_token_count(args, probe))
}

/// Whether stdin may stand in for missing inputs.
pub open spec fn stdin_usable(args: CommonArgs, probe: Probe) -> bool {
    !probe.stdin_is_terminal && !args.ignore_pipes && !args.ignore_stdin
}

/// Whether stdout may stand in for a missing output.
pub open spec fn stdout_usable(args: CommonArgs, probe: Probe) -> bool {
    !probe.stdout_is_terminal && !args.ignore_pipes && !args.ignore_stdout
}

/// The inputs and the output (when given) that the options and the probe
/// resolve to, or the first error met: a missing `--input`, an existing
/// non-directory `--output`, a missing input path, and no input at all.
pub open spec fn resolve_spec(args: CommonArgs, probe: Probe) -> Result<
    (InputView, Option<Seq<char>>),
    JobError,
> {
    if args.input.is_some() && !probe.input_exists {
        Err(JobError::InputNotFound)
    } else if args.output.is_some() && probe.output_status.exists && !probe.output_status.is_dir {
        Err(JobError::OutputExists)
    } else if exists|i: int|
        0 <= i < input_token_count(args, probe) && !(#[trigger] probe.io_status@[i]).exists {
        Err(JobError::InputNotFound)
    } else if given_inputs(args, probe).len() == 0 {
        if stdin_usable(args, probe) {
            Ok((InputView::Pipe, given_output(args, probe)))
        } else {
            Err(JobError::NoInput)
        }
    } else {
        Ok((InputView::Path(given_inputs(args, probe)), given_output(args, probe)))
    }
}

/// The view of an optional path.
pub open spec fn opt_view(o: Option<String>) -> Option<Seq<char>> {
    match o {
        Some(s) => Some(s@),
        None => None,
    }
}

/// Resolves the inputs and the given output of a job: the last positional
/// path becomes the output when it does not exist, or when it is a
/// directory and the action is extraction; every other path must exist;
/// stdin stands in for missing inputs when it is not a terminal and not
/// ignored.
pub fn resolve_io(args: &CommonArgs, probe: &Probe) -> (r: Result<
    (CmprssInput, Option<String>),
    JobError,
>)
    requires
        probe.io_status@.len() == args.io_list@.len(),
    ensures
        match resolve_spec(*args, *probe) {
            Ok((i, o)) => r.is_ok() && r.unwrap().0@ == i && opt_view(r.unwrap().1) == o,
            Err(e) => r == Err::<(CmprssInput, Option<String>), JobError>(e),
        },
{
    let action = get_flag_action(args);
    let mut inputs: Vec<String> = Vec::new();
    if let Some(p) = &args.input {
        if !probe.input_exists {
            return Err(JobError::InputNotFound);
        }
        inputs.push(p.clone());
    }
    let mut output: Option<String> = None;
    if let Some(o) = &args.output {
        if probe.output_status.exists && !probe.output_status.is_dir {
            return Err(JobError::OutputExists);
        }
        output = Some(o.clone());
    }
    let n = args.io_list.len();
    let mut k = n;
    if output.is_none() && n > 0 {
        let st = probe.io_status[n - 1];
        if !st.exists || (st.is_dir && action == Action::Extract) {
            output = Some(args.io_list[n - 1].clone());
            k = n - 1;
        }
    }
    assert(k == input_token_count(*args, *probe));
    assert(opt_view(output) == given_output(*args, *probe));
    let ghost explicit = inputs@;
    let mut i: usize = 0;
    while i < k
        invariant
            k <= n,
            n == args.io_list@.len(),
            probe.io_status@.len() == n,
            k == input_token_count(*args, *probe),
            args.input.is_some() ==> probe.input_exists,
            args.output.is_some() ==> !(probe.output_status.exists && !probe.output_status.is_dir),
            i <= k,
            inputs@ == explicit + args.io_list@.take(i as int),
            forall|j: int| 0 <= j < i ==> (#[trigger] probe.io_status@[j]).exists,
        decreases k - i,
    {
        if !probe.io_status[i].exists {
            assert(!probe.io_status@[i as int].exists);
            return Err(JobError::InputNotFound);
        }
        inputs.push(args.io_list[i].clone());
        assert(args.io_list@.take(i + 1) == args.io_list@.take(i as int).push(args.io_list@[i as int]));
        i = i + 1;
    }
    assert(inputs@ == given_inputs(*args, *probe));
    if inputs.len() == 0 {
        if !probe.stdin_is_terminal && !args.ignore_pipes && !args.ignore_stdin {
            Ok((CmprssInput::Pipe, output))
        } else {
            Err(JobError::NoInput)
        }
    } else {
        Ok((CmprssInput::Path(inputs), output))
    }
}

/// Whether a job's inputs are well formed: stdin, or at least one path.
pub open spec fn input_ok(input: InputView) -> bool {
    match input {
        InputView::Path(ps) => ps.len() > 0,
        InputView::Pipe => true,
    }
}

/// The name that default output names derive from: the first input path,
/// or `archive` for stdin.
pub open spec fn input_name(input: InputView) -> Seq<char> {
    match input {
        InputView::Path(ps) => ps[0]@,
        InputView::Pipe => "archive"@,
    }
}

/// The path that default output names derive from.
pub fn get_input_filename(input: &CmprssInput) -> (r: Result<String, JobError>)
    ensures
        match input@ {
            InputView::Path(ps) => if ps.len() == 0 {
                r == Err::<String, JobError>(JobError::NoInputSpecified)
            } else {
                r.is_ok() && r.unwrap()@ == ps[0]@
            },
            InputView::Pipe => r.is_ok() && r.unwrap()@ == "archive"@,
        },
{
    match input {
        CmprssInput::Path(paths) => {
            if paths.len() == 0 {
                return Err(JobError::NoInputSpecified);
            }
            Ok(paths[0].clone())
        },
        CmprssInput::Pipe => Ok(owned("archive")),
    }
}

/// Whether `o` is a codec of the same format as `c`.
pub open spec fn same_format(o: Option<Codec>, c: Codec) -> bool {
    o.is_some() && o.unwrap().format_spec() == c.format_spec()
}

fn is_same_format(o: &Option<Codec>, c: &Codec) -> (r: bool)
    ensures
        r == same_format(*o, *c),
{
    match o {
        Some(x) => x.format() == c.format(),
        None => false,
    }
}

/// The output, and the codec and action as they stand once it is known.
/// A given output stays; else stdout when it may be used; else a default
/// name derived from the input, which needs a codec: the one given, or the
/// one the input name points to. With the action undecided, an input that
/// is an archive of the codec means extraction, anything else compression.
pub open spec fn output_fallback_spec(
    compressor: Option<Codec>,
    action: Action,
    input: InputView,
    given: Option<Seq<char>>,
    stdout_ok: bool,
) -> Result<(Option<Codec>, Action, OutputView), JobError> {
    let name = input_name(input);
    match given {
        Some(o) => Ok((compressor, action, OutputView::Path(o))),
        None => if stdout_ok {
            Ok((compressor, action, OutputView::Pipe))
        } else {
            match action {
                Action::Compress => match compressor {
                    None => Err(JobError::MustSpecifyCompressor),
                    Some(c) => Ok(
                        (
                            compressor,
                            Action::Compress,
                            OutputView::Path(compressed_name(name, c.extension_spec())),
                        ),
                    ),
                },
                Action::Extract => {
                    let found = match compressor {
                        Some(c) => Some(c),
                        None => codec_for_path(name),
                    };
                    match found {
                        None => Err(JobError::MustSpecifyCompressor),
                        Some(c) => Ok(
                            (
                                found,
                                Action::Extract,
                                OutputView::Path(
                                    extracted_name(name, c.extension_spec(), c.target_spec()),
                                ),
                            ),
                        ),
                    }
                },
                Action::Unknown => match compressor {
                    None => match codec_for_path(name) {
                        None => Err(JobError::MustSpecifyCompressor),
                        Some(c) => Ok(
                            (
                                Some(c),
                                Action::Extract,
                                OutputView::Path(
                                    extracted_name(name, c.extension_spec(), c.target_spec()),
                                ),
                            ),
                        ),
                    },
                    Some(c) => if same_format(codec_for_path(name), c) {
                        Ok(
                            (
                                compressor,
                                Action::Extract,
                                OutputView::Path(
                                    extracted_name(name, c.extension_spec(), c.target_spec()),
                                ),
                            ),
                        )
                    } else {
                        Ok(
                            (
                                compressor,
                                Action::Compress,
                                OutputView::Path(compressed_name(name, c.extension_spec())),
                            ),
                        )
                    },
                },
            }
        },
    }
}

/// Settles the output of a job (see `output_fallback_spec`).
pub fn default_output(
    compressor: Option<Codec>,
    action: Action,
    input: &CmprssInput,
    given: Option<String>,
    stdout_ok: bool,
) -> (r: Result<(Option<Codec>, Action, CmprssOutput), JobError>)
    requires
        input_ok(input@),
    ensures
        match output_fallback_spec(compressor, action, input@, opt_view(given), stdout_ok) {
            Ok((c, a, o)) => r.is_ok() && r.unwrap().0 == c && r.unwrap().1 == a && r.unwrap().2@
                == o,
            Err(e) => r == Err::<(Option<Codec>, Action, CmprssOutput), JobError>(e),
        },
{
    if let Some(o) = given {
        return Ok((compressor, action, CmprssOutput::Path(o)));
    }
    if stdout_ok {
        return Ok((compressor, action, CmprssOutput::Pipe));
    }
    let name = match get_input_filename(input) {
        Ok(n) => n,
        Err(e) => {
            return Err(e);
        },
    };
    let name = name.as_str();
    match action {
        Action::Compress => match compressor {
            None => Err(JobError::MustSpecifyCompressor),
            Some(c) => {
                let out = c.default_compressed_filename(name);
                Ok((compressor, Action::Compress, CmprssOutput::Path(out)))
            },
        },
        Action::Extract => {
            let found = match compressor {
                Some(c) => Some(c),
                None => get_compressor_from_filename(name),
            };
            match found {
                None => Err(JobError::MustSpecifyCompressor),
                Some(c) => {
                    let out = c.default_extracted_filename(name);
                    Ok((found, Action::Extract, CmprssOutput::Path(out)))
                },
            }
        },
        Action::Unknown => match compressor {
            None => match get_compressor_from_filename(name) {
                None => Err(JobError::MustSpecifyCompressor),
                Some(c) => {
                    let out = c.default_extracted_filename(name);
                    Ok((Some(c), Action::Extract, CmprssOutput::Path(out)))
                },
            },
            Some(c) => {
                let from_input = get_compressor_from_filename(name);
                if is_same_format(&from_input, &c) {
                    let out = c.default_extracted_filename(name);
                    Ok((compressor, Action::Extract, CmprssOutput::Path(out)))
                } else {
                    let out = c.default_compressed_filename(name);
                    Ok((compressor, Action::Compress, CmprssOutput::Path(out)))
                }
            },
        },
    }
}

/// The file name of a path, or nothing.
pub open spec fn name_or_empty(p: Seq<char>) -> Seq<char> {
    match file_name_of(p) {
        Some(n) => n,
        None => Seq::empty(),
    }
}

/// The extension of a path, or nothing.
pub open spec fn ext_or_empty(p: Seq<char>) -> Seq<char> {
    match extension_of(p) {
        Some(e) => e,
        None => Seq::empty(),
    }
}

fn file_name_or_empty(p: &str) -> (r: String)
    ensures
        r@ == name_or_empty(p@),
{
    match path_file_name(p) {
        Some(n) => n,
        None => String::new(),
    }
}

fn extension_or_empty(p: &str) -> (r: String)
    ensures
        r@ == ext_or_empty(p@),
{
    match path_extension(p) {
        Some(e) => e,
        None => String::new(),
    }
}

/// Codec and action guessed from input and output paths. Several inputs:
/// compression when the output names a codec, else extraction with the
/// codec given. A given codec: compression when the output is its archive,
/// else extraction when the input is, else compression. No codec given:
/// the side that names one decides; when both do, the same codec means
/// compression, and different ones are told apart by which name is the
/// other with one more extension.
pub open spec fn guess_spec(inputs: Seq<String>, output: Seq<char>, compressor: Option<Codec>) -> (
    Option<Codec>,
    Action,
) {
    let gc = codec_for_path(output);
    if inputs.len() != 1 {
        match gc {
            Some(g) => (Some(g), Action::Compress),
            None => (compressor, Action::Extract),
        }
    } else {
        let input = inputs[0]@;
        let ge = codec_for_path(input);
        match compressor {
            Some(c) => if same_format(gc, c) {
                (compressor, Action::Compress)
            } else if same_format(ge, c) {
                (compressor, Action::Extract)
            } else {
                (compressor, Action::Compress)
            },
            None => match (gc, ge) {
                (None, None) => (None, Action::Unknown),
                (Some(c), None) => (Some(c), Action::Compress),
                (None, Some(e)) => (Some(e), Action::Extract),
                (Some(c), Some(e)) => if c.format_spec() == e.format_spec() {
                    (Some(c), Action::Compress)
                } else if name_or_empty(input) + "."@ + ext_or_empty(output) == name_or_empty(
                    output,
                ) {
                    (Some(c), Action::Compress)
                } else if name_or_empty(output) + "."@ + ext_or_empty(input) == name_or_empty(
                    input,
                ) {
                    (Some(e), Action::Extract)
                } else {
                    (None, Action::Unknown)
                },
            },
        }
    }
}

/// Guesses codec and action from the input and output paths (see
/// `guess_spec`).
pub fn guess_from_filenames(inputs: &Vec<String>, output: &str, compressor: Option<Codec>) -> (r: (
    Option<Codec>,
    Action,
))
    ensures
        r == guess_spec(inputs@, output@, compressor),
{
    let guessed_compressor = get_compressor_from_filename(output);
    if inputs.len() != 1 {
        return match guessed_compressor {
            Some(g) => (Some(g), Action::Compress),
            None => (compressor, Action::Extract),
        };
    }
    let input = inputs[0].as_str();
    let guessed_extractor = get_compressor_from_filename(input);
    if let Some(c) = compressor {
        if is_same_format(&guessed_compressor, &c) {
            return (compressor, Action::Compress);
        } else if is_same_format(&guessed_extractor, &c) {
            return (compressor, Action::Extract);
        } else {
            return (compressor, Action::Compress);
        }
    }
    match (guessed_compressor, guessed_extractor) {
        (None, None) => (None, Action::Unknown),
        (Some(c), None) => (Some(c), Action::Compress),
        (None, Some(e)) => (Some(e), Action::Extract),
        (Some(c), Some(e)) => {
            if c.format() == e.format() {
                return (Some(c), Action::Compress);
            }
            let input_file = file_name_or_empty(input);
            let input_ext = extension_or_empty(input);
            let output_file = file_name_or_empty(output);
            let output_ext = extension_or_empty(output);
            let guessed_output = input_file.clone().concat(".").concat(output_ext.as_str());
            let guessed_input = output_file.clone().concat(".").concat(input_ext.as_str());
            if str_eq(guessed_output.as_str(), output_file.as_str()) {
                (Some(c), Action::Compress)
            } else if str_eq(guessed_input.as_str(), input_file.as_str()) {
                (Some(e), Action::Extract)
            } else {
                (None, Action::Unknown)
            }
        },
    }
}

/// Codec and action once the output is known. Both known: they stay.
/// Compression without codec: the output's name decides it. Extraction
/// without codec: the single input's name decides it. Undecided action:
/// stdin to a named output compresses when the output is an archive of the
/// codec (or, without codec, of any); a named input to stdout extracts when
/// the input is one; stdin to stdout compresses; between named paths,
/// `guess_spec` decides.
pub open spec fn infer_spec(
    compressor: Option<Codec>,
    action: Action,
    input: InputView,
    output: OutputView,
) -> Result<(Option<Codec>, Action), JobError> {
    if compressor.is_some() && action != Action::Unknown {
        Ok((compressor, action))
    } else {
        match action {
            Action::Compress => match output {
                OutputView::Path(p) => Ok((codec_for_path(p), Action::Compress)),
                OutputView::Pipe => Ok((compressor, Action::Compress)),
            },
            Action::Extract => match input {
                InputView::Path(ps) => if ps.len() != 1 {
                    Err(JobError::MultipleInputs)
                } else {
                    Ok((codec_for_path(ps[0]@), Action::Extract))
                },
                InputView::Pipe => Ok((compressor, Action::Extract)),
            },
            Action::Unknown => match (input, output) {
                (InputView::Pipe, OutputView::Path(p)) => match compressor {
                    None => match codec_for_path(p) {
                        Some(c) => Ok((Some(c), Action::Compress)),
                        None => Err(JobError::CannotGuessCompressor),
                    },
                    Some(c) => if same_format(codec_for_path(p), c) {
                        Ok((compressor, Action::Compress))
                    } else {
                        Ok((compressor, Action::Extract))
                    },
                },
                (InputView::Path(ps), OutputView::Pipe) => match compressor {
                    None => if ps.len() != 1 {
                        Err(JobError::MultipleInputs)
                    } else {
                        match codec_for_path(ps[0]@) {
                            Some(c) => Ok((Some(c), Action::Extract)),
                            None => Err(JobError::CannotGuessCompressor),
                        }
                    },
                    Some(c) => if same_format(codec_for_path(ps[0]@), c) {
                        Ok((compressor, Action::Extract))
                    } else {
                        Ok((compressor, Action::Compress))
                    },
                },
                (InputView::Pipe, OutputView::Pipe) => Ok((compressor, Action::Compress)),
                (InputView::Path(ps), OutputView::Path(p)) => Ok(guess_spec(ps, p, compressor)),
            },
        }
    }
}

/// Infers codec and action once input and output are known (see
/// `infer_spec`).
pub fn infer(compressor: Option<Codec>, action: Action, input: &CmprssInput, output: &CmprssOutput) -> (r:
    Result<(Option<Codec>, Action), JobError>)
    requires
        input_ok(input@),
    ensures
        match infer_spec(compressor, action, input@, output@) {
            Ok(v) => r == Ok::<(Option<Codec>, Action), JobError>(v),
            Err(e) => r == Err::<(Option<Codec>, Action), JobError>(e),
        },
{
    if compressor.is_some() && action != Action::Unknown {
        return Ok((compressor, action));
    }
    match action {
        Action::Compress => match output {
            CmprssOutput::Path(p) => Ok((get_compressor_from_filename(p.as_str()), Action::Compress)),
            CmprssOutput::Pipe => Ok((compressor, Action::Compress)),
        },
        Action::Extract => match input {
            CmprssInput::Path(paths) => {
                if paths.len() != 1 {
                    return Err(JobError::MultipleInputs);
                }
                Ok((get_compressor_from_filename(paths[0].as_str()), Action::Extract))
            },
            CmprssInput::Pipe => Ok((compressor, Action::Extract)),
        },
        Action::Unknown => match (input, output) {
            (CmprssInput::Pipe, CmprssOutput::Path(p)) => {
                let from_output = get_compressor_from_filename(p.as_str());
                match compressor {
                    None => match from_output {
                        Some(c) => Ok((Some(c), Action::Compress)),
                        None => Err(JobError::CannotGuessCompressor),
                    },
                    Some(c) => {
                        if is_same_format(&from_output, &c) {
                            Ok((compressor, Action::Compress))
                        } else {
                            Ok((compressor, Action::Extract))
                        }
                    },
                }
            },
            (CmprssInput::Path(paths), CmprssOutput::Pipe) => {
                match compressor {
                    None => {
                        if paths.len() != 1 {
                            return Err(JobError::MultipleInputs);
                        }
                        match get_compressor_from_filename(paths[0].as_str()) {
                            Some(c) => Ok((Some(c), Action::Extract)),
                            None => Err(JobError::CannotGuessCompressor),
                        }
                    },
                    Some(c) => {
                        let from_input = get_compressor_from_filename(paths[0].as_str());
                        if is_same_format(&from_input, &c) {
                            Ok((compressor, Action::Extract))
                        } else {
                            Ok((compressor, Action::Compress))
                        }
                    },
                }
            },
            (CmprssInput::Pipe, CmprssOutput::Pipe) => Ok((compressor, Action::Compress)),
            (CmprssInput::Path(paths), CmprssOutput::Path(p)) => Ok(
                guess_from_filenames(paths, p.as_str(), compressor),
            ),
        },
    }
}

/// One compress or extract operation, fully resolved.
#[derive(Debug, Clone)]
pub struct Job {
    pub compressor: Codec,
    pub input: CmprssInput,
    pub output: CmprssOutput,
    pub action: Action,
}

/// A job as Verus sees it.
pub struct JobView {
    pub compressor: Codec,
    pub input: InputView,
    pub output: OutputView,
    pub action: Action,
}

impl View for Job {
    type V = JobView;

    open spec fn view(&self) -> JobView {
        JobView {
            compressor: self.compressor,
            input: self.input@,
            output: self.output@,
            action: self.action,
        }
    }
}

/// The job that the options and the probe resolve to: inputs and given
/// output, then the output fallback, then inference; it fails when codec
/// or action is still undecided.
pub open spec fn job_spec(compressor: Option<Codec>, args: CommonArgs, probe: Probe) -> Result<
    JobView,
    JobError,
> {
    match resolve_spec(args, probe) {
        Err(e) => Err(e),
        Ok((input, given)) => match output_fallback_spec(
            compressor,
            flag_action(args),
            input,
            given,
            stdout_usable(args, probe),
        ) {
            Err(e) => Err(e),
            Ok((c1, a1, output)) => match infer_spec(c1, a1, input, output) {
                Err(e) => Err(e),
                Ok((c2, a2)) => if c2.is_none() {
                    Err(JobError::UnknownCompressor)
                } else if a2 == Action::Unknown {
                    Err(JobError::UnknownAction)
                } else {
                    Ok(JobView { compressor: c2.unwrap(), input, output, action: a2 })
                },
            },
        },
    }
}

/// A successful resolution leaves stdin or at least one input path.
proof fn lemma_resolved_input_ok(args: CommonArgs, probe: Probe)
    ensures
        resolve_spec(args, probe) is Ok ==> input_ok(resolve_spec(args, probe)->Ok_0.0),
{
}

/// Resolves the job that an invocation asks for: the codec of the
/// subcommand (if any), the options and what the probe reports decide
/// inputs, output, codec and action, or the error met first.
pub fn get_job(compressor: Option<Codec>, args: &CommonArgs, probe: &Probe) -> (r: Result<
    Job,
    JobError,
>)
    requires
        probe.io_status@.len() == args.io_list@.len(),
    ensures
        match job_spec(compressor, *args, *probe) {
            Ok(j) => r.is_ok() && r.unwrap()@ == j,
            Err(e) => r == Err::<Job, JobError>(e),
        },
        r.is_ok() ==> r.unwrap().action != Action::Unknown,
{
    proof {
        lemma_resolved_input_ok(*args, *probe);
    }
    let (input, given) = match resolve_io(args, probe) {
        Ok(v) => v,
        Err(e) => {
            return Err(e);
        },
    };
    let stdout_ok = !probe.stdout_is_terminal && !args.ignore_pipes && !args.ignore_stdout;
    let action = get_flag_action(args);
    let (compressor, action, output) = match default_output(
        compressor,
        action,
        &input,
        given,
        stdout_ok,
    ) {
        Ok(v) => v,
        Err(e) => {
            return Err(e);
        },
    };
    let (compressor, action) = match infer(compressor, action, &input, &output) {
        Ok(v) => v,
        Err(e) => {
            return Err(e);
        },
    };
    match compressor {
        None => Err(JobError::UnknownCompressor),
        Some(c) => {
            if action == Action::Unknown {
                Err(JobError::UnknownAction)
            } else {
                Ok(Job { compressor: c, input, output, action })
            }
        },
    }
}

/// The last positional path becomes the output, and leaves the inputs, when
/// it does not exist; an existing directory there becomes the output
/// exactly when the action is extraction, and stays an input otherwise.
pub proof fn lemma_last_token_output(args: CommonArgs, probe: Probe)
    requires
        probe.io_status@.len() == args.io_list@.len(),
        args.output.is_none(),
        args.io_list@.len() > 0,
    ensures
        !probe.io_status@.last().exists ==> given_output(args, probe) == Some(args.io_list@.last()@)
            && given_inputs(args, probe) == (match args.input {
            Some(p) => seq![p],
            None => Seq::empty(),
        }) + args.io_list@.drop_last(),
        probe.io_status@.last().exists && probe.io_status@.last().is_dir ==> {
            &&& (given_output(args, probe) == Some(args.io_list@.last()@)) == (flag_action(args)
                == Action::Extract)
            &&& flag_action(args) != Action::Extract ==> given_output(args, probe).is_none()
                && given_inputs(args, probe).last() == args.io_list@.last()
        },
{
    let n = args.io_list@.len();
    assert(args.io_list@.take(n - 1) == args.io_list@.drop_last());
    assert(args.io_list@.take(n as int) == args.io_list@);
}

/// Between one input and one output path that name different codecs, when
/// the input's name is the output's name with the input's extension added,
/// the job is an extraction with the input's codec.
pub proof fn lemma_extension_chain_extracts(input: String, output: Seq<char>)
    requires
        codec_for_path(input@).is_some(),
        codec_for_path(output).is_some(),
        codec_for_path(input@).unwrap().format_spec() != codec_for_path(output).unwrap().format_spec(),
        name_or_empty(output) + "."@ + ext_or_empty(input@) == name_or_empty(input@),
    ensures
        guess_spec(seq![input], output, None) == (codec_for_path(input@), Action::Extract),
{
    reveal_strlit(".");
    let i = name_or_empty(input@);
    let o = name_or_empty(output);
    if i + "."@ + ext_or_empty(output) == o {
        assert(o.len() == i.len() + 1 + ext_or_empty(output).len());
        assert(i.len() == o.len() + 1 + ext_or_empty(input@).len());
    }
    assert(seq![input][0] == input);
}

/// Between one input and one output path that name the same codec, and no
/// codec given, the ambiguity is settled as compression.
pub proof fn lemma_same_codec_compresses(input: String, output: Seq<char>)
    requires
        codec_for_path(input@).is_some(),
        codec_for_path(output).is_some(),
        codec_for_path(input@).unwrap().format_spec() == codec_for_path(output).unwrap().format_spec(),
    ensures
        guess_spec(seq![input], output, None) == (codec_for_path(output), Action::Compress),
{
    assert(seq![input][0] == input);
}

/// Codecs that extract into a directory name the current directory as the
/// default extraction target, whatever the input path.
pub proof fn lemma_directory_codecs_extract_here(c: Codec, path: Seq<char>)
    requires
        c.target_spec() == ExtractedTarget::DIRECTORY,
    ensures
        extracted_name(path, c.extension_spec(), c.target_spec()) == "."@,
        c.format_spec() == Format::Tar || c.format_spec() == Format::Zip,
{
}

} // verus!
