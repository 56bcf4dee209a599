//! The checks a codec makes on its input and output before it touches a
//! byte: which combinations of paths, directories and pipes each format
//! accepts.
use crate::job::{Action, Format};
use crate::utils::{CmprssInput, CmprssOutput, InputView, OutputView};
use vstd::prelude::*;

verus! {

/// Why a codec refuses its input or output.
#[derive(Debug, Clone, Copy, PartialEq, Eq, Structural)]
pub enum CodecError {
    /// A single-stream format asked to write into a directory
    OutputIsDirectory,
    /// A single-stream format asked to compress a directory
    InputIsDirectory,
    /// A single-stream format given several inputs
    MultipleInputs,
    /// An archive format asked to extract to stdout
    ExtractToPipe,
    /// An archive format asked to extract into something that is not a
    /// directory
    OutputNotDirectory,
    /// An archive format asked to extract other than one archive
    SingleArchiveExpected,
}

/// What the file system reports of a codec's paths.
#[derive(Debug, Clone)]
pub struct IoFacts {
    /// For each input path, in order, whether it is a directory
    pub input_is_dir: Vec<bool>,
    /// Whether the output path exists
    pub output_exists: bool,
    /// Whether the output path is a directory
    pub output_is_dir: bool,
}

/// Whether a format writes a single stream (not an archive of files).
pub open spec fn is_stream_format(f: Format) -> bool {
    f != Format::Tar && f != Format::Zip
}

/// The number of input paths (0 for stdin).
pub open spec fn path_count(input: InputView) -> int {
    match input {
        InputView::Path(ps) => ps.len() as int,
        InputView::Pipe => 0,
    }
}

/// Whether the output is a path that is a directory.
pub open spec fn output_is_directory(output: OutputView, facts: IoFacts) -> bool {
    output is Path && facts.output_is_dir
}

/// Whether one of the input paths is a directory.
pub open spec fn some_input_directory(input: InputView, facts: IoFacts) -> bool {
    input is Path && exists|i: int|
        0 <= i < facts.input_is_dir@.len() && #[trigger] facts.input_is_dir@[i]
}

/// Whether format `f` accepts to carry out `action` from `input` to
/// `output`. gzip, zstd and lz4 refuse to compress into a directory or from
/// one, and zstd and lz4 to extract into one; every single-stream format
/// takes one input at most. tar and zip extract one archive, never to
/// stdout, into a directory or a path that does not exist yet.
pub open spec fn preflight_spec(
    f: Format,
    action: Action,
    input: InputView,
    output: OutputView,
    facts: IoFacts,
) -> Result<(), CodecError> {
    if is_stream_format(f) {
        let checks_dirs = f == Format::Gzip || f == Format::Zstd || f == Format::Lz4;
        if checks_dirs && action == Action::Compress && output_is_directory(output, facts) {
            Err(CodecError::OutputIsDirectory)
        } else if checks_dirs && action == Action::Compress && some_input_directory(input, facts) {
            Err(CodecError::InputIsDirectory)
        } else if (f == Format::Zstd || f == Format::Lz4) && action == Action::Extract
            && output_is_directory(output, facts) {
            Err(CodecError::OutputIsDirectory)
        } else if path_count(input) > 1 {
            Err(CodecError::MultipleInputs)
        } else {
            Ok(())
        }
    } else if action == Action::Extract {
        match output {
            OutputView::Pipe => Err(CodecError::ExtractToPipe),
            OutputView::Path(_) => if facts.output_exists && !facts.output_is_dir {
                Err(CodecError::OutputNotDirectory)
            } else if input is Path && path_count(input) != 1 {
                Err(CodecError::SingleArchiveExpected)
            } else {
                Ok(())
            },
        }
    } else {
        Ok(())
    }
}

fn any_true(v: &Vec<bool>) -> (r: bool)
    ensures
        r == exists|i: int| 0 <= i < v@.len() && #[trigger] v@[i],
{
    let mut i: usize = 0;
    while i < v.len()
        invariant
            i <= v@.len(),
            forall|j: int| 0 <= j < i ==> !(#[trigger] v@[j]),
        decreases v@.len() - i,
    {
        if v[i] {
            return true;
        }
        i = i + 1;
    }
    false
}

/// Checks that format `f` can carry out `action` from `input` to `output`
/// (see `preflight_spec`).
pub fn preflight(
    f: Format,
    action: Action,
    input: &CmprssInput,
    output: &CmprssOutput,
    facts: &IoFacts,
) -> (r: Result<(), CodecError>)
    ensures
        r == preflight_spec(f, action, input@, output@, *facts),
{
    let is_path_output = match output {
        CmprssOutput::Path(_) => true,
        CmprssOutput::Pipe => false,
    };
    let count: usize = match input {
        CmprssInput::Path(paths) => paths.len(),
        CmprssInput::Pipe => 0,
    };
    let is_path_input = match input {
        CmprssInput::Path(_) => true,
        CmprssInput::Pipe => false,
    };
    if f != Format::Tar && f != Format::Zip {
        let checks_dirs = f == Format::Gzip || f == Format::Zstd || f == Format::Lz4;
        let output_dir = is_path_output && facts.output_is_dir;
        if checks_dirs && action == Action::Compress && output_dir {
            return Err(CodecError::OutputIsDirectory);
        }
        if checks_dirs && action == Action::Compress && is_path_input && any_true(
            &facts.input_is_dir,
        ) {
            return Err(CodecError::InputIsDirectory);
        }
        if (f == Format::Zstd || f == Format::Lz4) && action == Action::Extract && output_dir {
            return Err(CodecError::OutputIsDirectory);
        }
        if count > 1 {
            return Err(CodecError::MultipleInputs);
        }
        Ok(())
    } else if action == Action::Extract {
        if !is_path_output {
            return Err(CodecError::ExtractToPipe);
        }
        if facts.output_exists && !facts.output_is_dir {
            return Err(CodecError::OutputNotDirectory);
        }
        if is_path_input && count != 1 {
            return Err(CodecError::SingleArchiveExpected);
        }
        Ok(())
    } else {
        Ok(())
    }
}

} // verus!
