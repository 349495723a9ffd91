use gramps_reader::parser::parse_graph;
use gramps_reader::error::Error;
use gramps_reader::place_detail::{parse_places_detail, PlaceDetail};
use gramps_reader::typed_values::AttributeType;

fn with_db(body: &str) -> String {
    format!(
        r#"<?xml version="1.0" encoding="UTF-8"?>
<database xmlns="http://gramps-project.org/xml/1.7.2/">
  <header><created version="5.2"/></header>
{body}
</database>"#,
    )
}

fn single_place_from_parser(xml: &str) -> PlaceDetail {
    let mut ps = parse_places_detail(xml).unwrap();
    assert_eq!(ps.len(), 1, "expected exactly one place");
    ps.remove(0)
}

#[test]
fn parse_place_full() {
    let xml = with_db(
        r#"  <places>
    <place handle="pl0001">
      <name value="Springfield"/>
      <placeref hlink="pl0000"/>
      <citationref hlink="c0001"/>
      <noteref hlink="n0001"/>
      <tagref hlink="t0001"/>
      <mediaref hlink="m0001"/>
      <attribute type="Description" value="county seat"/>
    </place>
  </places>"#,
    );
    let p = single_place_from_parser(&xml);
    assert_eq!(p.handle, "pl0001");
    assert_eq!(p.name.as_deref(), Some("Springfield"));
    assert_eq!(p.place_refs.len(), 1);
    assert_eq!(p.place_refs[0], "pl0000");
    assert_eq!(p.citations, vec!["c0001"]);
    assert_eq!(p.notes, vec!["n0001"]);
    assert_eq!(p.tags, vec!["t0001"]);
    assert_eq!(p.media.len(), 1);
    assert_eq!(p.media[0], "m0001");
    assert_eq!(p.attributes.len(), 1);
    assert_eq!(p.attributes[0].value, "county seat");
    assert_eq!(p.attributes[0].attr_type, AttributeType::Description);
}

#[test]
fn parse_place_minimal() {
    let xml = with_db(
        r#"  <places>
    <place handle="pl0002"/>
  </places>"#,
    );
    let p = single_place_from_parser(&xml);
    assert_eq!(p.handle, "pl0002");
    assert!(p.name.is_none());
    assert!(p.place_refs.is_empty());
}

#[test]
fn parse_place_malformed_xml() {
    let xml = with_db(
        r#"  <places>
    <place handle="pl0003">
      <name value="Broken">
  </places>"#,
    );
    let result = parse_graph(&xml);
    assert!(matches!(result, Err(Error::XmlParseError { .. })));
}

#[test]
fn places_detail_attribute_forms() {
    // A start tag with both type and value adds the attribute at once; one
    // with only a value waits for its end tag; an empty one with neither is
    // dropped.
    let xml = with_db(
        r#"  <places>
    <place handle="pl0004" id="P0004">
      <name value="Old Town"><dateval val="1900"/></name>
      <attribute type="Custom" value="a"></attribute>
      <attribute value="b"></attribute>
      <attribute/>
    </place>
  </places>"#,
    );
    let p = single_place_from_parser(&xml);
    assert_eq!(p.gramps_id.as_deref(), Some("P0004"));
    assert_eq!(p.name.as_deref(), Some("Old Town"));
    assert_eq!(p.attributes.len(), 2);
    assert_eq!(p.attributes[0].value, "a");
    assert_eq!(p.attributes[1].value, "b");
}

#[test]
fn places_detail_ignores_other_sections() {
    let xml = with_db(
        r#"  <events>
    <event handle="e0001"><place hlink="pl0001"/></event>
  </events>
  <places>
    <place handle="pl0001"/>
    <place handle="pl0002"><name value="X"/></place>
  </places>"#,
    );
    let ps = parse_places_detail(&xml).unwrap();
    assert_eq!(ps.len(), 2);
    assert_eq!(ps[0].handle, "pl0001");
    assert_eq!(ps[1].name.as_deref(), Some("X"));
}
