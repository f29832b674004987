use libdict::errors::DictError;
use libdict::text::dec_string;

#[derive(Debug)]
struct InnerFailure;

#[derive(Debug)]
struct OuterFailure {
    inner: InnerFailure,
}

impl std::fmt::Display for InnerFailure {
    fn fmt(&self, f: &mut std::fmt::Formatter) -> std::fmt::Result {
        f.write_str("deep cause")
    }
}

impl std::fmt::Display for OuterFailure {
    fn fmt(&self, f: &mut std::fmt::Formatter) -> std::fmt::Result {
        f.write_str("outer boom")
    }
}

impl std::error::Error for InnerFailure {}

impl std::error::Error for OuterFailure {
    fn source(&self) -> Option<&(dyn std::error::Error + 'static)> {
        Some(&self.inner)
    }
}

#[test]
fn invalid_character_display_full() {
    let e = DictError::InvalidCharacter('x', Some(5), Some(3));
    assert_eq!(e.display_string(), "Invalid character x, on line 5 at position 3");
}

#[test]
fn invalid_character_display_line_only() {
    let e = DictError::InvalidCharacter('x', Some(5), None);
    assert_eq!(e.display_string(), "Invalid character x, on line 5");
}

#[test]
fn invalid_character_display_position_only() {
    let e = DictError::InvalidCharacter('x', None, Some(3));
    assert_eq!(e.display_string(), "Invalid character x at position 3");
}

#[test]
fn invalid_character_display_bare() {
    let e = DictError::InvalidCharacter('x', None, None);
    assert_eq!(e.display_string(), "Invalid character x");
}

#[test]
fn missing_column_display() {
    let e = DictError::MissingColumnInIndex(42);
    assert_eq!(
        e.display_string(),
        "line 42: not enough <tab>-separated columns found, expected 3"
    );
}

#[test]
fn missing_column_display_line_zero() {
    let e = DictError::MissingColumnInIndex(0);
    assert_eq!(
        e.display_string(),
        "line 0: not enough <tab>-separated columns found, expected 3"
    );
}

#[test]
fn invalid_file_format_display_without_path() {
    let e = DictError::InvalidFileFormat(String::from("bad magic bytes"), None);
    assert_eq!(e.display_string(), "bad magic bytes");
}

#[test]
fn invalid_file_format_display_with_path() {
    let e = DictError::InvalidFileFormat(
        String::from("bad magic bytes"),
        Some(String::from("/tmp/x.dict")),
    );
    assert_eq!(e.display_string(), "/tmp/x.dictbad magic bytes");
}

#[test]
fn memory_error_display() {
    let e = DictError::MemoryError;
    assert_eq!(e.display_string(), "not enough memory available");
}

#[test]
fn word_not_found_display() {
    let e = DictError::WordNotFound(String::from("quokka"));
    assert_eq!(e.display_string(), "Word not found: quokka");
}

#[test]
fn display_never_empty_for_each_variant() {
    let io_err = std::io::Error::new(std::io::ErrorKind::Other, "boom");
    let utf8_err = String::from_utf8(vec![0, 159]).unwrap_err();
    let all = vec![
        DictError::InvalidCharacter('\t', Some(1), Some(1)),
        DictError::MissingColumnInIndex(7),
        DictError::InvalidFileFormat(String::from("truncated header"), None),
        DictError::MemoryError,
        DictError::WordNotFound(String::from("a")),
        DictError::IoError(io_err),
        DictError::Utf8Error(utf8_err),
    ];
    for e in all {
        assert!(!e.display_string().is_empty());
    }
}

#[test]
fn descriptions_are_fixed_labels() {
    assert_eq!(
        DictError::InvalidCharacter('x', None, None).description(),
        "invalid character"
    );
    assert_eq!(
        DictError::InvalidCharacter('z', Some(9), Some(1)).description(),
        "invalid character"
    );
    assert_eq!(
        DictError::MissingColumnInIndex(1).description(),
        "not enough <tab>-separated columnss given"
    );
    assert_eq!(
        DictError::MissingColumnInIndex(999).description(),
        "not enough <tab>-separated columnss given"
    );
    assert_eq!(
        DictError::InvalidFileFormat(String::from("x"), None).description(),
        "could not determine file format"
    );
    assert_eq!(
        DictError::InvalidFileFormat(String::from("y"), Some(String::from("/p"))).description(),
        "could not determine file format"
    );
    assert_eq!(
        DictError::MemoryError.description(),
        "not enough memory available"
    );
    assert_eq!(
        DictError::WordNotFound(String::from("aardvark")).description(),
        "word not found"
    );
    assert_eq!(
        DictError::WordNotFound(String::from("zebra")).description(),
        "word not found"
    );
}

#[test]
fn domain_variants_have_no_cause() {
    let all = vec![
        DictError::InvalidCharacter('x', Some(5), Some(3)),
        DictError::MissingColumnInIndex(42),
        DictError::InvalidFileFormat(String::from("bad magic bytes"), Some(String::from("/p"))),
        DictError::MemoryError,
        DictError::WordNotFound(String::from("quokka")),
    ];
    for e in all {
        assert!(e.cause().is_none());
    }
}

#[test]
fn io_error_conversion_wraps_losslessly() {
    let io_err = std::io::Error::new(std::io::ErrorKind::Other, "boom");
    #[allow(deprecated)]
    let expected_description = std::error::Error::description(&io_err).to_string();
    let e = DictError::from(io_err);
    assert!(matches!(e, DictError::IoError(_)));
    assert_eq!(e.display_string(), "boom");
    assert_eq!(e.description(), expected_description);
}

#[test]
fn io_error_conversion_via_into() {
    let io_err = std::io::Error::new(std::io::ErrorKind::Other, "boom");
    let e: DictError = io_err.into();
    assert!(matches!(e, DictError::IoError(_)));
}

#[test]
fn utf8_error_conversion_wraps_losslessly() {
    let utf8_err = String::from_utf8(vec![0, 159]).unwrap_err();
    let expected_message = utf8_err.to_string();
    #[allow(deprecated)]
    let expected_description = std::error::Error::description(&utf8_err).to_string();
    let e = DictError::from(utf8_err);
    assert!(matches!(e, DictError::Utf8Error(_)));
    assert_eq!(e.display_string(), expected_message);
    assert_eq!(e.description(), expected_description);
}

#[test]
fn utf8_error_conversion_via_into() {
    let utf8_err = String::from_utf8(vec![0, 159]).unwrap_err();
    let e: DictError = utf8_err.into();
    assert!(matches!(e, DictError::Utf8Error(_)));
}

#[test]
fn io_error_cause_is_delegated() {
    let layered = std::io::Error::new(
        std::io::ErrorKind::Other,
        OuterFailure { inner: InnerFailure },
    );
    let e = DictError::from(layered);
    assert_eq!(e.display_string(), "outer boom");
    assert_eq!(e.cause(), Some(String::from("deep cause")));

    let flat = std::io::Error::new(std::io::ErrorKind::Other, "boom");
    assert_eq!(DictError::from(flat).cause(), None);

    let utf8_err = String::from_utf8(vec![0, 159]).unwrap_err();
    assert_eq!(DictError::from(utf8_err).cause(), None);
}

#[test]
fn dec_string_exact_values() {
    assert_eq!(dec_string(0), "0");
    assert_eq!(dec_string(9), "9");
    assert_eq!(dec_string(10), "10");
    assert_eq!(dec_string(90210), "90210");
    assert_eq!(dec_string(usize::MAX).parse::<usize>().unwrap(), usize::MAX);
}
