//! The crate-wide error type of the reader.

use vstd::prelude::*;
use crate::text::push_str;

verus! {

/// `std::io::Error`, carried by the I/O variants as an opaque value.
#[verifier::external_type_specification]
#[verifier::external_body]
pub struct ExIoError(std::io::Error);

/// Failure modes of reading a Gramps document.
#[derive(Debug)]
pub enum Error {
    /// XML parse error with a descriptive message.
    XmlParseError { message: String },
    /// File I/O error (file not found, permission denied, ...).
    IoError { path: String, source: std::io::Error },
    /// Gzip decompression error (corrupted or truncated data).
    GzipError { path: String, source: std::io::Error },
    /// The document's schema version is not one this library reads.
    UnsupportedSchema { version: String, schema_version: String },
}

/// The message of an I/O error, as its `Display` writes it. Nothing is
/// stated of the text: it comes from the operating system.
#[verifier::external_body]
fn io_error_text(e: &std::io::Error) -> String {
    format!("{}", e)
}

/// The human-readable text of an XML parse error.
pub open spec fn xml_parse_error_text(message: Seq<char>) -> Seq<char> {
    "XML parse error: "@ + message
}

/// The human-readable text of an unsupported-schema error.
pub open spec fn unsupported_schema_text(version: Seq<char>, schema_version: Seq<char>) -> Seq<char> {
    "unsupported schema version '"@ + version + "' (schema "@ + schema_version
        + "); hint: this build reads Gramps schema versions 5.1 and 5.2"@
}

impl Error {
    /// The human-readable description of the error (its display text).
    pub fn describe(&self) -> (r: String)
        ensures
            match self {
                Error::XmlParseError { message } => r@ == xml_parse_error_text(message@),
                Error::UnsupportedSchema { version, schema_version } => r@ == unsupported_schema_text(
                    version@,
                    schema_version@,
                ),
                Error::IoError { path, .. } => r@.len() >= ("I/O error for '"@ + path@ + "': "@).len()
                    && r@.subrange(0, ("I/O error for '"@ + path@ + "': "@).len() as int)
                    == "I/O error for '"@ + path@ + "': "@,
                Error::GzipError { path, .. } => r@.len() >= ("gzip decompression error for '"@ + path@
                    + "': "@).len() && r@.subrange(
                    0,
                    ("gzip decompression error for '"@ + path@ + "': "@).len() as int,
                ) == "gzip decompression error for '"@ + path@ + "': "@,
            },
    {
        let mut r = String::new();
        match self {
            Error::XmlParseError { message } => {
                push_str(&mut r, "XML parse error: ");
                push_str(&mut r, message.as_str());
                assert(r@ =~= xml_parse_error_text(message@));
            },
            Error::IoError { path, source } => {
                push_str(&mut r, "I/O error for '");
                push_str(&mut r, path.as_str());
                push_str(&mut r, "': ");
                let ghost pre = r@;
                assert(pre =~= "I/O error for '"@ + path@ + "': "@);
                let t = io_error_text(source);
                push_str(&mut r, t.as_str());
                assert(r@.subrange(0, pre.len() as int) =~= pre);
            },
            Error::GzipError { path, source } => {
                push_str(&mut r, "gzip decompression error for '");
                push_str(&mut r, path.as_str());
                push_str(&mut r, "': ");
                let ghost pre = r@;
                assert(pre =~= "gzip decompression error for '"@ + path@ + "': "@);
                let t = io_error_text(source);
                push_str(&mut r, t.as_str());
                assert(r@.subrange(0, pre.len() as int) =~= pre);
            },
            Error::UnsupportedSchema { version, schema_version } => {
                push_str(&mut r, "unsupported schema version '");
                push_str(&mut r, version.as_str());
                push_str(&mut r, "' (schema ");
                push_str(&mut r, schema_version.as_str());
                push_str(&mut r, "); hint: this build reads Gramps schema versions 5.1 and 5.2");
                assert(r@ =~= unsupported_schema_text(version@, schema_version@));
            },
        }
        r
    }

    /// The underlying I/O error, for the I/O and gzip variants.
    pub fn source_error(&self) -> (r: Option<&std::io::Error>)
        ensures
            match self {
                Error::IoError { source, .. } => r == Some(source),
                Error::GzipError { source, .. } => r == Some(source),
                _ => r is None,
            },
    {
        match self {
            Error::IoError { source, .. } => Some(source),
            Error::GzipError { source, .. } => Some(source),
            _ => None,
        }
    }
}

} // verus!
