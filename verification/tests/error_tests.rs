use gramps_reader::error::Error;
use gramps_reader::integrate::IntegrateError;

#[test]
fn xml_parse_error_display() {
    let err = Error::XmlParseError {
        message: "Unexpected end of input at byte 42".to_string(),
    };
    let display = err.describe();
    assert!(display.contains("XML parse error"));
    assert!(display.contains("byte 42"));
}

#[test]
fn xml_parse_error_source_is_none() {
    let err = Error::XmlParseError {
        message: "test error".to_string(),
    };
    assert!(err.source_error().is_none());
}

#[test]
fn io_error_source_returns_some() {
    let source = std::io::Error::new(std::io::ErrorKind::NotFound, "file not found");
    let err = Error::IoError {
        path: "missing.gramps".to_string(),
        source,
    };
    assert!(err.source_error().is_some());
}

#[test]
fn gzip_error_source_returns_some() {
    let source = std::io::Error::new(std::io::ErrorKind::InvalidData, "corrupt gzip");
    let err = Error::GzipError {
        path: "corrupt.gramps".to_string(),
        source,
    };
    assert!(err.source_error().is_some());
}

#[test]
fn io_error_display() {
    let err = Error::IoError {
        path: "missing.gramps".to_string(),
        source: std::io::Error::new(std::io::ErrorKind::NotFound, "file not found"),
    };
    let display = err.describe();
    assert!(display.contains("I/O error"));
    assert!(display.contains("missing.gramps"));
    assert!(display.contains("file not found"));
}

#[test]
fn gzip_error_display() {
    let err = Error::GzipError {
        path: "corrupt.gramps".to_string(),
        source: std::io::Error::new(std::io::ErrorKind::InvalidData, "corrupt gzip"),
    };
    let display = err.describe();
    assert!(display.contains("gzip decompression error"));
    assert!(display.contains("corrupt.gramps"));
    assert!(display.contains("corrupt gzip"));
}

#[test]
fn unsupported_schema_display_from_header() {
    let err = Error::UnsupportedSchema {
        version: "9.9.9".to_string(),
        schema_version: "9.9".to_string(),
    };
    let display = err.describe();
    assert!(display.contains("unsupported schema version"));
    assert!(display.contains("9.9"));
    assert!(display.contains("9.9.9"));
    assert!(display.contains("hint:"));
}

#[test]
fn unsupported_schema_source_is_none_from_header() {
    let err = Error::UnsupportedSchema {
        version: "9.9.9".to_string(),
        schema_version: "9.9".to_string(),
    };
    assert!(err.source_error().is_none());
}

#[test]
fn error_describe_exact_texts() {
    let err = Error::XmlParseError { message: "boom".to_string() };
    assert_eq!(err.describe(), "XML parse error: boom");
    let err = Error::UnsupportedSchema {
        version: "9.9.9".to_string(),
        schema_version: "9.9".to_string(),
    };
    assert_eq!(
        err.describe(),
        "unsupported schema version '9.9.9' (schema 9.9); hint: this build reads Gramps schema versions 5.1 and 5.2"
    );
    let err = Error::IoError {
        path: "a.gramps".to_string(),
        source: std::io::Error::new(std::io::ErrorKind::NotFound, "gone"),
    };
    assert_eq!(err.describe(), "I/O error for 'a.gramps': gone");
}

#[test]
fn integrate_error_debug() {
    let err = IntegrateError::DiffReadError("oops".to_string());
    let debug = format!("{err:?}");
    assert!(debug.contains("DiffReadError"));
}

#[test]
fn integrate_error_display() {
    let err = IntegrateError::DiffReadError("bad file".to_string());
    assert_eq!(err.describe(), "diff CSV read error: bad file");

    let err = IntegrateError::SelectionsReadError("bad json".to_string());
    assert_eq!(err.describe(), "selections JSON read error: bad json");

    let err = IntegrateError::OutputError("write failed".to_string());
    assert_eq!(err.describe(), "output error: write failed");
}

/// An integration error seen through `std::error::Error`, displayed by its
/// description.
#[derive(Debug)]
struct AsStdError(IntegrateError);

impl std::fmt::Display for AsStdError {
    fn fmt(&self, f: &mut std::fmt::Formatter<'_>) -> std::fmt::Result {
        f.write_str(&self.0.describe())
    }
}

impl std::error::Error for AsStdError {}

#[test]
fn integrate_error_is_std_error() {
    fn takes_error(_e: &dyn std::error::Error) {}
    takes_error(&AsStdError(IntegrateError::DiffReadError("x".to_string())));
}

#[test]
fn integrate_error_clone() {
    let a = IntegrateError::DiffReadError("x".to_string());
    let b = a.clone();
    assert_eq!(a, b);
}

#[test]
fn integrate_error_partialeq() {
    assert_eq!(
        IntegrateError::DiffReadError("x".to_string()),
        IntegrateError::DiffReadError("x".to_string()),
    );
    assert_ne!(
        IntegrateError::DiffReadError("x".to_string()),
        IntegrateError::DiffReadError("y".to_string()),
    );
}
