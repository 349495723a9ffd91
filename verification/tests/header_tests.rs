use gramps_reader::error::Error;
use gramps_reader::header::{detect_schema_version, is_supported_schema, schema_from_version, schema_version_of};

fn with_database(body: &str) -> String {
    format!(
        r#"<?xml version="1.0" encoding="UTF-8"?>
<database xmlns="http://gramps-project.org/xml/1.7.2/">
{body}
</database>"#,
    )
}

#[test]
fn detect_schema_version_5_2() {
    let xml = with_database("  <header><created version=\"5.2\"/></header>");
    let version = detect_schema_version(&xml).unwrap();
    assert_eq!(version, "5.2");
}

#[test]
fn detect_schema_version_full_5_2_normalized() {
    let xml = with_database("  <header><created version=\"5.2.0\"/></header>");
    let version = detect_schema_version(&xml).unwrap();
    assert_eq!(version, "5.2");
}

#[test]
fn detect_schema_version_5_1() {
    let xml = with_database("  <header><created version=\"5.1\"/></header>");
    let result = detect_schema_version(&xml);
    assert_eq!(result.unwrap(), "5.1");
}

#[test]
fn detect_schema_version_unknown() {
    let xml = with_database("  <header><created version=\"99.99\"/></header>");
    let result = detect_schema_version(&xml);
    match result {
        Err(Error::UnsupportedSchema { version, schema_version }) => {
            assert_eq!(version, "99.99");
            assert_eq!(schema_version, "99.99");
        }
        other => panic!("Expected UnsupportedSchema, got: {:?}", other.map(|_| ())),
    }
}

#[test]
fn detect_schema_version_missing_header() {
    let xml = with_database("  <people><person handle=\"p1\"/></people>");
    let result = detect_schema_version(&xml);
    match result {
        Err(Error::XmlParseError { message }) => {
            assert!(message.contains("missing"));
        }
        other => panic!("Expected XmlParseError, got: {:?}", other.map(|_| ())),
    }
}

#[test]
fn detect_schema_version_malformed_xml() {
    let result = detect_schema_version("<database><header><created version=");
    match result {
        Err(Error::XmlParseError { .. }) => {}
        other => panic!("Expected XmlParseError, got: {:?}", other.map(|_| ())),
    }
}

#[test]
fn detect_schema_version_empty_content() {
    let result = detect_schema_version("");
    match result {
        Err(Error::XmlParseError { .. }) => {}
        other => panic!("Expected XmlParseError, got: {:?}", other.map(|_| ())),
    }
}

#[test]
fn detect_schema_version_namespace_prefixed() {
    let xml = r#"<?xml version="1.0" encoding="UTF-8"?>
<ns:database xmlns:ns="http://gramps-project.org/xml/1.7.2/">
  <ns:header><ns:created ns:version="5.2"/></ns:header>
</ns:database>"#;
    let version = detect_schema_version(xml).unwrap();
    assert_eq!(version, "5.2");
}

#[test]
fn detect_schema_version_created_outside_header_ignored() {
    let xml = with_database("  <created version=\"5.2\"/><header></header>");
    match detect_schema_version(&xml) {
        Err(Error::XmlParseError { message }) => {
            assert_eq!(message, "missing <header><created version=\"...\"/> element");
        }
        other => panic!("Expected XmlParseError, got: {:?}", other.map(|_| ())),
    }
}

#[test]
fn detect_schema_version_last_version_attribute_wins() {
    let xml = with_database("  <header><created version=\"4.0\" ns:version=\"5.1.3\"/></header>");
    assert_eq!(detect_schema_version(&xml).unwrap(), "5.1");
}

#[test]
fn schema_version_of_fields() {
    assert_eq!(schema_version_of("5.2.0"), "5.2");
    assert_eq!(schema_version_of("5.2"), "5.2");
    assert_eq!(schema_version_of("5"), "5");
    assert_eq!(schema_version_of(""), "");
    assert_eq!(schema_version_of(".x.y"), ".x");
    assert!(is_supported_schema("5.1"));
    assert!(is_supported_schema("5.2"));
    assert!(!is_supported_schema("5.0"));
    assert!(!is_supported_schema("5.2.0"));
}

#[test]
fn schema_from_version_outcomes() {
    assert_eq!(schema_from_version(Some("5.2.7".to_string())).unwrap(), "5.2");
    match schema_from_version(Some("6.0".to_string())) {
        Err(Error::UnsupportedSchema { version, schema_version }) => {
            assert_eq!(version, "6.0");
            assert_eq!(schema_version, "6.0");
        }
        other => panic!("Expected UnsupportedSchema, got: {:?}", other.map(|_| ())),
    }
    assert!(matches!(schema_from_version(None), Err(Error::XmlParseError { .. })));
}
