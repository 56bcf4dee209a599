use cmprss::bzip2::Bzip2CompressionValidator;
use cmprss::utils::{
    cmprss_error, test_compression_validator_helper, CompressionLevel,
    CompressionLevelValidator, Compressor, DefaultCompressionValidator, ExtractedTarget,
};
use cmprss::zstd::ZstdCompressionValidator;

/// A compressor whose extension is its name.
struct TestCompressor;

impl Compressor for TestCompressor {
    fn name(&self) -> &str {
        "test"
    }

    fn extension(&self) -> &str {
        self.name()
    }

    fn default_extracted_target(&self) -> ExtractedTarget {
        ExtractedTarget::FILE
    }
}

/// A compressor with an extension of its own.
struct CustomExtensionCompressor;

impl Compressor for CustomExtensionCompressor {
    fn name(&self) -> &str {
        "custom"
    }

    fn extension(&self) -> &str {
        "cst"
    }

    fn default_extracted_target(&self) -> ExtractedTarget {
        ExtractedTarget::FILE
    }
}

/// A compressor that extracts into a directory.
struct DirectoryCompressor;

impl Compressor for DirectoryCompressor {
    fn name(&self) -> &str {
        "dir"
    }

    fn extension(&self) -> &str {
        "dir"
    }

    fn default_extracted_target(&self) -> ExtractedTarget {
        ExtractedTarget::DIRECTORY
    }
}

#[test]
fn test_default_name_extension() {
    let compressor = TestCompressor;
    assert_eq!(compressor.name(), "test");
    assert_eq!(compressor.extension(), "test");
}

#[test]
fn test_custom_extension() {
    let compressor = CustomExtensionCompressor;
    assert_eq!(compressor.name(), "custom");
    assert_eq!(compressor.extension(), "cst");
}

#[test]
fn test_is_archive_detection() {
    let compressor = TestCompressor;
    assert!(compressor.is_archive("tmpdir/archive.test"));
    assert!(!compressor.is_archive("tmpdir/archive.txt"));
    assert!(!compressor.is_archive("tmpdir/archive"));
}

#[test]
fn is_archive_is_case_sensitive() {
    let compressor = TestCompressor;
    assert!(!compressor.is_archive("archive.TEST"));
    assert!(!compressor.is_archive(".test"));
    assert!(compressor.is_archive("a.b.test"));
}

#[test]
fn test_default_compressed_filename() {
    let compressor = TestCompressor;
    assert_eq!(compressor.default_compressed_filename("file.txt"), "file.txt.test");
    assert_eq!(compressor.default_compressed_filename("file"), "file.test");
}

#[test]
fn compressed_filename_uses_the_last_component() {
    let compressor = CustomExtensionCompressor;
    assert_eq!(compressor.default_compressed_filename("dir/sub/file"), "file.cst");
    assert_eq!(compressor.default_compressed_filename(".."), "archive.cst");
    assert_eq!(compressor.default_compressed_filename(""), "archive.cst");
}

#[test]
fn test_default_extracted_filename() {
    let compressor = TestCompressor;
    assert_eq!(compressor.default_extracted_filename("archive.test"), "archive");
    assert_eq!(compressor.default_extracted_filename("archive.txt"), "archive");
    assert_eq!(compressor.default_extracted_filename("archive"), "archive");
}

#[test]
fn extracted_filename_strips_only_the_own_extension() {
    let compressor = CustomExtensionCompressor;
    assert_eq!(compressor.default_extracted_filename("data.tar.cst"), "data.tar");
    assert_eq!(compressor.default_extracted_filename("data.cst.txt"), "archive");
}

#[test]
fn directory_target_extracts_here() {
    let compressor = DirectoryCompressor;
    assert_eq!(compressor.default_extracted_filename("x.dir"), ".");
    assert_eq!(compressor.default_extracted_filename("x.txt"), ".");
    assert_eq!(compressor.default_extracted_filename(""), ".");
}

#[test]
fn test_compression_level_parsing() {
    assert_eq!(CompressionLevel::from_str("1").unwrap().level, 1);
    assert_eq!(CompressionLevel::from_str("9").unwrap().level, 9);

    let validator = DefaultCompressionValidator;
    assert_eq!(
        CompressionLevel::from_str("fast").unwrap().level,
        validator.name_to_level("fast").unwrap()
    );
    assert_eq!(
        CompressionLevel::from_str("best").unwrap().level,
        validator.name_to_level("best").unwrap()
    );

    assert!(CompressionLevel::from_str("invalid").is_err());
}

#[test]
fn compression_level_names_in_any_case() {
    assert_eq!(CompressionLevel::from_str("NONE").unwrap().level, 0);
    assert_eq!(CompressionLevel::from_str("Fast").unwrap().level, 1);
    assert_eq!(CompressionLevel::from_str("-7").unwrap().level, -7);
    assert_eq!(CompressionLevel::from_str("+3").unwrap().level, 3);
    assert!(CompressionLevel::from_str("").is_err());
    assert!(CompressionLevel::from_str("99999999999").is_err());
    assert_eq!(CompressionLevel::from_folded_name("best").unwrap().level, 9);
    assert!(CompressionLevel::from_folded_name("BEST").is_err());
}

#[test]
fn test_compression_level_defaults() {
    let default_level = CompressionLevel::default();
    let validator = DefaultCompressionValidator;
    assert_eq!(default_level.level, validator.default_level());
}

#[test]
fn test_cmprss_error() {
    let result = cmprss_error("test error");
    assert!(result.is_err());
    assert_eq!(result.unwrap_err().to_string(), "test error");
}

#[test]
fn test_default_compression_validator() {
    let validator = DefaultCompressionValidator;
    assert!(test_compression_validator_helper(
        &validator,
        0,
        9,
        6,
        Some(1),
        Some(9),
        Some(0),
    ));
}

#[test]
fn validator_helper_reports_a_mismatch() {
    let validator = DefaultCompressionValidator;
    assert!(!test_compression_validator_helper(
        &validator,
        1,
        9,
        6,
        Some(1),
        Some(9),
        Some(0),
    ));
    assert!(!test_compression_validator_helper(
        &validator,
        0,
        9,
        6,
        Some(1),
        Some(9),
        None,
    ));
}

#[test]
fn bzip2_test_bzip2_compression_validator() {
    let validator = Bzip2CompressionValidator;
    assert!(test_compression_validator_helper(
        &validator,
        1,
        9,
        9,
        Some(1),
        Some(9),
        None,
    ));

    assert_eq!(validator.min_level(), 1);
    assert_eq!(validator.max_level(), 9);
    assert_eq!(validator.default_level(), 9);

    assert!(validator.is_valid_level(1));
    assert!(validator.is_valid_level(5));
    assert!(validator.is_valid_level(9));
    assert!(!validator.is_valid_level(0));
    assert!(!validator.is_valid_level(10));

    assert_eq!(validator.validate_and_clamp_level(0), 1);
    assert_eq!(validator.validate_and_clamp_level(5), 5);
    assert_eq!(validator.validate_and_clamp_level(10), 9);

    assert_eq!(validator.name_to_level("fast"), Some(1));
    assert_eq!(validator.name_to_level("best"), Some(9));
    assert_eq!(validator.name_to_level("none"), None);
    assert_eq!(validator.name_to_level("invalid"), None);
}

#[test]
fn zstd_test_zstd_compression_validator() {
    let validator = ZstdCompressionValidator;
    assert!(test_compression_validator_helper(
        &validator,
        -7,
        22,
        1,
        Some(1),
        Some(22),
        Some(-7),
    ));
}

#[test]
fn test_zstd_compression_validator() {
    let validator = ZstdCompressionValidator;

    assert_eq!(validator.min_level(), -7);
    assert_eq!(validator.max_level(), 22);
    assert_eq!(validator.default_level(), 1);

    assert!(validator.is_valid_level(-7));
    assert!(validator.is_valid_level(0));
    assert!(validator.is_valid_level(22));
    assert!(!validator.is_valid_level(-8));
    assert!(!validator.is_valid_level(23));

    assert_eq!(validator.validate_and_clamp_level(-8), -7);
    assert_eq!(validator.validate_and_clamp_level(0), 0);
    assert_eq!(validator.validate_and_clamp_level(23), 22);

    assert_eq!(validator.name_to_level("none"), Some(-7));
    assert_eq!(validator.name_to_level("fast"), Some(1));
    assert_eq!(validator.name_to_level("best"), Some(22));
    assert_eq!(validator.name_to_level("invalid"), None);
}
