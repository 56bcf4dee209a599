use cmprss::gzip::Gzip;
use cmprss::job::{
    get_compressor_from_filename, get_input_filename, get_job, guess_from_filenames, resolve_io,
    Action, Codec, Format, JobError, PathStatus, Probe,
};
use cmprss::tar::Tar;
use cmprss::utils::{CmprssInput, CmprssOutput, CommonArgs, Compressor};
use cmprss::zip::Zip;

fn args(io: &[&str]) -> CommonArgs {
    CommonArgs {
        input: None,
        output: None,
        compress: false,
        extract: false,
        decompress: false,
        io_list: io.iter().map(|s| s.to_string()).collect(),
        ignore_pipes: false,
        ignore_stdin: false,
        ignore_stdout: false,
    }
}

const FILE: PathStatus = PathStatus { exists: true, is_dir: false };
const DIR: PathStatus = PathStatus { exists: true, is_dir: true };
const MISSING: PathStatus = PathStatus { exists: false, is_dir: false };

fn probe(io: &[PathStatus]) -> Probe {
    Probe {
        input_exists: true,
        output_status: MISSING,
        io_status: io.to_vec(),
        stdin_is_terminal: true,
        stdout_is_terminal: true,
    }
}

fn paths(input: &CmprssInput) -> Vec<String> {
    match input {
        CmprssInput::Path(p) => p.clone(),
        CmprssInput::Pipe => panic!("expected paths"),
    }
}

fn out_path(output: &CmprssOutput) -> String {
    match output {
        CmprssOutput::Path(p) => p.clone(),
        CmprssOutput::Pipe => panic!("expected a path"),
    }
}

#[test]
fn input_flag_with_gzip_subcommand_compresses() {
    let mut a = args(&[]);
    a.input = Some("test.txt".to_string());
    let job = get_job(Some(Codec::Gzip(Gzip::default())), &a, &probe(&[])).unwrap();
    assert_eq!(job.action, Action::Compress);
    assert_eq!(job.compressor.format(), Format::Gzip);
    assert_eq!(paths(&job.input), vec!["test.txt".to_string()]);
    assert_eq!(out_path(&job.output), "test.txt.gz");
}

#[test]
fn single_tar_gz_extracts_with_gzip() {
    let a = args(&["archive.tar.gz"]);
    let job = get_job(None, &a, &probe(&[FILE])).unwrap();
    assert_eq!(job.compressor.format(), Format::Gzip);
    assert_eq!(job.action, Action::Extract);
    assert_eq!(out_path(&job.output), "archive.tar");
}

#[test]
fn missing_last_token_becomes_output() {
    let a = args(&["a.txt", "b.txt", "out.tar"]);
    let (input, output) = resolve_io(&a, &probe(&[FILE, FILE, MISSING])).unwrap();
    assert_eq!(paths(&input), vec!["a.txt".to_string(), "b.txt".to_string()]);
    assert_eq!(output, Some("out.tar".to_string()));
}

#[test]
fn directory_last_token_is_output_only_when_extracting() {
    let mut a = args(&["archive.tar", "dest"]);
    let (input, output) = resolve_io(&a, &probe(&[FILE, DIR])).unwrap();
    assert_eq!(paths(&input), vec!["archive.tar".to_string(), "dest".to_string()]);
    assert_eq!(output, None);

    a.extract = true;
    let (input, output) = resolve_io(&a, &probe(&[FILE, DIR])).unwrap();
    assert_eq!(paths(&input), vec!["archive.tar".to_string()]);
    assert_eq!(output, Some("dest".to_string()));
}

#[test]
fn existing_file_last_token_stays_input() {
    let a = args(&["a.txt", "b.txt"]);
    let (input, output) = resolve_io(&a, &probe(&[FILE, FILE])).unwrap();
    assert_eq!(paths(&input).len(), 2);
    assert_eq!(output, None);
}

#[test]
fn resolver_errors() {
    let mut a = args(&[]);
    a.input = Some("nope".to_string());
    let mut p = probe(&[]);
    p.input_exists = false;
    assert_eq!(resolve_io(&a, &p).unwrap_err(), JobError::InputNotFound);

    let mut a = args(&[]);
    a.output = Some("taken".to_string());
    let mut p = probe(&[]);
    p.output_status = FILE;
    assert_eq!(resolve_io(&a, &p).unwrap_err(), JobError::OutputExists);

    let a = args(&["gone", "out.gz"]);
    assert_eq!(
        resolve_io(&a, &probe(&[MISSING, MISSING])).unwrap_err(),
        JobError::InputNotFound
    );

    let a = args(&[]);
    assert_eq!(resolve_io(&a, &probe(&[])).unwrap_err(), JobError::NoInput);
}

#[test]
fn stdin_and_stdout_stand_in_when_piped() {
    let a = args(&[]);
    let mut p = probe(&[]);
    p.stdin_is_terminal = false;
    p.stdout_is_terminal = false;
    let job = get_job(Some(Codec::Gzip(Gzip::default())), &a, &p).unwrap();
    assert!(matches!(job.input, CmprssInput::Pipe));
    assert!(matches!(job.output, CmprssOutput::Pipe));
    assert_eq!(job.action, Action::Compress);

    let mut a = args(&[]);
    a.ignore_stdin = true;
    assert_eq!(get_job(None, &a, &p).unwrap_err(), JobError::NoInput);
}

#[test]
fn pipe_to_pipe_without_codec_fails() {
    let a = args(&[]);
    let mut p = probe(&[]);
    p.stdin_is_terminal = false;
    p.stdout_is_terminal = false;
    // stdin to stdout compresses, but nothing names a codec
    assert_eq!(get_job(None, &a, &p).unwrap_err(), JobError::UnknownCompressor);
}

#[test]
fn stdin_to_named_archive_compresses() {
    let a = args(&["out.xz"]);
    let mut p = probe(&[MISSING]);
    p.stdin_is_terminal = false;
    let job = get_job(None, &a, &p).unwrap();
    assert_eq!(job.compressor.format(), Format::Xz);
    assert_eq!(job.action, Action::Compress);

    let a = args(&["out.txt"]);
    assert_eq!(get_job(None, &a, &p).unwrap_err(), JobError::CannotGuessCompressor);

    let job = get_job(Some(Codec::Gzip(Gzip::default())), &a, &p).unwrap();
    assert_eq!(job.action, Action::Extract);
}

#[test]
fn named_archive_to_stdout_extracts() {
    let a = args(&["in.zst"]);
    let mut p = probe(&[FILE]);
    p.stdout_is_terminal = false;
    let job = get_job(None, &a, &p).unwrap();
    assert_eq!(job.compressor.format(), Format::Zstd);
    assert_eq!(job.action, Action::Extract);

    let a = args(&["a.gz", "b.gz"]);
    let p2 = Probe { io_status: vec![FILE, FILE], ..p.clone() };
    assert_eq!(get_job(None, &a, &p2).unwrap_err(), JobError::MultipleInputs);

    let a = args(&["in.txt"]);
    assert_eq!(get_job(None, &a, &p).unwrap_err(), JobError::CannotGuessCompressor);
}

#[test]
fn default_output_needs_a_codec() {
    let mut a = args(&["data.txt"]);
    a.compress = true;
    assert_eq!(
        get_job(None, &a, &probe(&[FILE])).unwrap_err(),
        JobError::MustSpecifyCompressor
    );
    let a = args(&["data.txt"]);
    assert_eq!(
        get_job(None, &a, &probe(&[FILE])).unwrap_err(),
        JobError::MustSpecifyCompressor
    );
}

#[test]
fn explicit_extract_of_several_inputs_cannot_guess() {
    let mut a = args(&["a.gz", "b.gz"]);
    a.extract = true;
    a.output = Some("dest".to_string());
    let mut p = probe(&[FILE, FILE]);
    p.output_status = DIR;
    assert_eq!(get_job(None, &a, &p).unwrap_err(), JobError::MultipleInputs);
}

#[test]
fn unrelated_archives_leave_the_codec_undecided() {
    let a = args(&["a.gz", "b.xz"]);
    assert_eq!(
        get_job(None, &a, &probe(&[FILE, MISSING])).unwrap_err(),
        JobError::UnknownCompressor
    );
    let a = args(&["a.txt", "b.dat"]);
    assert_eq!(
        get_job(None, &a, &probe(&[FILE, MISSING])).unwrap_err(),
        JobError::UnknownCompressor
    );
}

#[test]
fn extension_chain_decides_the_action() {
    let a = args(&["archive.tar.gz", "archive.tar"]);
    let job = get_job(None, &a, &probe(&[FILE, MISSING])).unwrap();
    assert_eq!(job.compressor.format(), Format::Gzip);
    assert_eq!(job.action, Action::Extract);

    let a = args(&["archive.tar", "archive.tar.gz"]);
    let job = get_job(None, &a, &probe(&[FILE, MISSING])).unwrap();
    assert_eq!(job.compressor.format(), Format::Gzip);
    assert_eq!(job.action, Action::Compress);
}

#[test]
fn same_codec_on_both_sides_compresses() {
    let inputs = vec!["file.gz".to_string()];
    let (codec, action) = guess_from_filenames(&inputs, "file.gz.gz", None);
    assert_eq!(codec.unwrap().format(), Format::Gzip);
    assert_eq!(action, Action::Compress);
}

#[test]
fn several_inputs_to_an_archive_compress() {
    let a = args(&["a.txt", "b.txt", "all.tar"]);
    let job = get_job(None, &a, &probe(&[FILE, FILE, MISSING])).unwrap();
    assert_eq!(job.compressor.format(), Format::Tar);
    assert_eq!(job.action, Action::Compress);
    assert_eq!(paths(&job.input).len(), 2);
    assert_eq!(out_path(&job.output), "all.tar");
}

#[test]
fn given_codec_and_matching_input_extracts() {
    let a = args(&["backup.tar"]);
    let job = get_job(Some(Codec::Tar(Tar::default())), &a, &probe(&[FILE])).unwrap();
    assert_eq!(job.action, Action::Extract);
    assert_eq!(out_path(&job.output), ".");

    let a = args(&["notes.txt"]);
    let job = get_job(Some(Codec::Zip(Zip::default())), &a, &probe(&[FILE])).unwrap();
    assert_eq!(job.action, Action::Compress);
    assert_eq!(out_path(&job.output), "notes.txt.zip");
}

#[test]
fn compressor_from_filename() {
    assert_eq!(get_compressor_from_filename("x.tar").unwrap().format(), Format::Tar);
    assert_eq!(get_compressor_from_filename("x.bz2").unwrap().format(), Format::Bzip2);
    assert_eq!(get_compressor_from_filename("x.lz4").unwrap().format(), Format::Lz4);
    assert_eq!(get_compressor_from_filename("x.zip").unwrap().format(), Format::Zip);
    assert!(get_compressor_from_filename("x.GZ").is_none());
    assert!(get_compressor_from_filename("gz").is_none());
}

#[test]
fn input_filename_for_default_names() {
    assert_eq!(get_input_filename(&CmprssInput::Pipe).unwrap(), "archive");
    assert_eq!(
        get_input_filename(&CmprssInput::Path(vec!["a".to_string(), "b".to_string()])).unwrap(),
        "a"
    );
    assert_eq!(
        get_input_filename(&CmprssInput::Path(vec![])).unwrap_err(),
        JobError::NoInputSpecified
    );
}

#[test]
fn codec_names_and_extensions() {
    let codecs = [
        (Format::Tar, "tar", "tar"),
        (Format::Gzip, "gzip", "gz"),
        (Format::Xz, "xz", "xz"),
        (Format::Bzip2, "bzip2", "bz2"),
        (Format::Zip, "zip", "zip"),
        (Format::Zstd, "zstd", "zst"),
        (Format::Lz4, "lz4", "lz4"),
    ];
    for (f, name, ext) in codecs {
        let c = Codec::default_for(f);
        assert_eq!(c.name(), name);
        assert_eq!(c.extension(), ext);
        assert!(c.is_archive(&format!("test.{}", ext)));
        assert!(!c.is_archive("test.txt"));
        assert_eq!(c.default_compressed_filename("test.txt"), format!("test.txt.{}", ext));
        let expected = if f == Format::Tar || f == Format::Zip { "." } else { "test" };
        assert_eq!(c.default_extracted_filename(&format!("test.{}", ext)), expected);
        let other = if f == Format::Tar || f == Format::Zip { "." } else { "archive" };
        assert_eq!(c.default_extracted_filename("test.txt"), other);
    }
}

#[test]
fn error_messages() {
    assert_eq!(JobError::OutputExists.message(), "Specified output path already exists");
    assert_eq!(JobError::UnknownAction.message(), "Could not determine action to take");
}
