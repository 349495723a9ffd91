use gramps_reader::error::Error;
use gramps_reader::media_detail::{parse_media_detail, MediaDetail};
use gramps_reader::parser::parse_graph;
use gramps_reader::typed_values::AttributeType;

fn with_db(body: &str) -> String {
    format!(
        r#"<?xml version="1.0" encoding="UTF-8"?>
<database xmlns="http://gramps-project.org/xml/1.7.2/">
  <header><created version="5.2"/></header>
{body}
</database>"#,
    )
}

fn single_media_from_parser(xml: &str) -> MediaDetail {
    let mut ms = parse_media_detail(xml).unwrap();
    assert_eq!(ms.len(), 1, "expected exactly one media object");
    ms.remove(0)
}

#[test]
fn parse_media_full() {
    let xml = with_db(
        r#"  <objects>
    <object handle="m0001">
      <file src="/path/to/photo.jpg" mime="image/jpeg"/>
      <description>A family photo</description>
      <checksum>abc123</checksum>
      <attribute type="Description" value="Old photo"/>
      <noteref hlink="n0001"/>
      <citationref hlink="c0001"/>
      <tagref hlink="t0001"/>
    </object>
  </objects>"#,
    );
    let m = single_media_from_parser(&xml);
    assert_eq!(m.handle, "m0001");
    assert_eq!(m.path.as_deref(), Some("/path/to/photo.jpg"));
    assert_eq!(m.mime_type.as_deref(), Some("image/jpeg"));
    assert_eq!(m.desc.as_deref(), Some("A family photo"));
    assert_eq!(m.checksum.as_deref(), Some("abc123"));
    assert_eq!(m.attributes.len(), 1);
    assert_eq!(m.attributes[0].attr_type, AttributeType::Description);
    assert_eq!(m.attributes[0].value, "Old photo");
    assert_eq!(m.notes, vec!["n0001"]);
    assert_eq!(m.citations, vec!["c0001"]);
    assert_eq!(m.tags, vec!["t0001"]);
}

#[test]
fn parse_media_minimal() {
    let xml = with_db(
        r#"  <objects>
    <object handle="m0002"/>
  </objects>"#,
    );
    let m = single_media_from_parser(&xml);
    assert_eq!(m.handle, "m0002");
    assert!(m.path.is_none());
    assert!(m.mime_type.is_none());
    assert!(m.desc.is_none());
}

#[test]
fn parse_media_malformed_xml() {
    let xml = with_db(
        r#"  <objects>
    <object handle="m0003">
      <description>Broken
  </objects>"#,
    );
    let result = parse_graph(&xml);
    assert!(matches!(result, Err(Error::XmlParseError { .. })));
}

#[test]
fn media_detail_attribute_forms() {
    // An empty attribute is always kept (type Custom without a type); one
    // with a start tag is added at its end tag.
    let xml = with_db(
        r#"  <objects>
    <object handle="m0004">
      <attribute/>
      <attribute type="Description" value="x"></attribute>
    </object>
  </objects>"#,
    );
    let m = single_media_from_parser(&xml);
    assert_eq!(m.attributes.len(), 2);
    assert_eq!(m.attributes[0].attr_type, AttributeType::Custom);
    assert_eq!(m.attributes[0].value, "");
    assert_eq!(m.attributes[1].attr_type, AttributeType::Description);
    assert_eq!(m.attributes[1].value, "x");
}
