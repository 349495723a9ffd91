use std::error::Error as _;
use std::io::Write;

use gramps_reader::error::Error;
use gramps_reader::file_content::decode_gramps_bytes;

fn gzip(data: &[u8]) -> Vec<u8> {
    let mut e = flate2::write::GzEncoder::new(Vec::new(), flate2::Compression::default());
    e.write_all(data).unwrap();
    e.finish().unwrap()
}

#[test]
fn empty_file_returns_empty_string() {
    let result = decode_gramps_bytes("/tmp/empty.gramps", b"").unwrap();
    assert_eq!(result, "");
}

#[test]
fn one_byte_file_returns_empty_string() {
    let result = decode_gramps_bytes("/tmp/one.gramps", &[0x00]).unwrap();
    assert_eq!(result, "");
}

#[test]
fn corrupted_gzip_returns_gzip_error() {
    // Valid gzip magic bytes followed by invalid data.
    let bytes = [0x1f, 0x8b, 0x00, 0x00, 0x00, 0x00, 0x00, 0x00, 0x00, 0x00];
    let result = decode_gramps_bytes("/tmp/corrupt.gramps", &bytes);
    match result {
        Err(Error::GzipError { path, .. }) => {
            assert!(path.contains("tmp"));
        }
        other => panic!("Expected GzipError, got: {:?}", other.map(|_| ())),
    }
}

#[test]
fn plain_xml_file_returns_content() {
    let xml = r#"<?xml version="1.0" encoding="UTF-8"?>
<database xmlns="http://gramps-project.org/xml/1.7.2/">
</database>"#;
    let result = decode_gramps_bytes("/tmp/plain.gramps", xml.as_bytes()).unwrap();
    assert_eq!(result, xml);
}

#[test]
fn gzip_error_source_is_some() {
    let bytes = [0x1f, 0x8b, 0x00, 0x00, 0x00, 0x00, 0x00, 0x00, 0x00, 0x00];
    let err = decode_gramps_bytes("/tmp/corrupt.gramps", &bytes).unwrap_err();
    match err {
        Error::GzipError { source, .. } => {
            assert!(source.source().is_none() || source.source().is_some());
        }
        _ => panic!("Expected GzipError"),
    }
}

#[test]
fn gzip_content_is_decompressed() {
    let xml = "<?xml version=\"1.0\"?>\n<database><people/></database>";
    let result = decode_gramps_bytes("/tmp/c.gramps", &gzip(xml.as_bytes())).unwrap();
    assert_eq!(result, xml);
}

#[test]
fn gzip_content_not_utf8_is_gzip_error() {
    let bytes = gzip(&[0xff, 0xfe, 0x00]);
    assert!(matches!(decode_gramps_bytes("/tmp/x.gramps", &bytes), Err(Error::GzipError { .. })));
}

#[test]
fn plain_content_not_utf8_is_io_error() {
    let result = decode_gramps_bytes("/tmp/bad.gramps", &[0x3c, 0xff, 0xfe]);
    match result {
        Err(Error::IoError { path, source }) => {
            assert_eq!(path, "/tmp/bad.gramps");
            assert_eq!(source.kind(), std::io::ErrorKind::InvalidData);
        }
        other => panic!("Expected IoError, got: {:?}", other.map(|_| ())),
    }
}

#[test]
fn truncated_gzip_is_gzip_error() {
    let mut bytes = gzip(b"<database/>");
    bytes.truncate(bytes.len() - 6);
    assert!(matches!(decode_gramps_bytes("/tmp/t.gramps", &bytes), Err(Error::GzipError { .. })));
}
