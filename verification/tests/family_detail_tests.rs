use gramps_reader::parser::parse_graph;
use gramps_reader::error::Error;
use gramps_reader::family_detail::parse_families_detail;
use gramps_reader::person_records::FamilyDetail;
use gramps_reader::typed_values::{AttributeType, ChildRefType, EventRoleType};

fn with_db(body: &str) -> String {
    format!(
        r#"<?xml version="1.0" encoding="UTF-8"?>
<database xmlns="http://gramps-project.org/xml/1.7.2/">
  <header><created version="5.2"/></header>
{body}
</database>"#,
    )
}

fn single_family_from_parser(xml: &str) -> FamilyDetail {
    let mut fs = parse_families_detail(xml).unwrap();
    assert_eq!(fs.len(), 1, "expected exactly one family");
    fs.remove(0)
}

#[test]
fn parse_family_full() {
    let xml = with_db(
        r#"  <families>
    <family handle="f0001">
      <father hlink="p0001"/>
      <mother hlink="p0002"/>
      <childref hlink="p0003" relation="Birth"/>
      <childref hlink="p0004"/>
      <eventref hlink="e0001" role="Primary"/>
      <attribute type="Property" value="123 Main St"/>
    </family>
  </families>"#,
    );
    let f = single_family_from_parser(&xml);
    assert_eq!(f.handle, "f0001");
    assert_eq!(f.father.as_deref(), Some("p0001"));
    assert_eq!(f.mother.as_deref(), Some("p0002"));
    assert_eq!(f.child_refs.len(), 2);
    assert_eq!(f.child_refs[0].target, "p0003");
    assert_eq!(f.child_refs[0].relation, Some(ChildRefType::Birth));
    assert_eq!(f.child_refs[1].target, "p0004");
    assert_eq!(f.child_refs[1].relation, None);
    assert_eq!(f.event_refs.len(), 1);
    assert_eq!(f.event_refs[0].target, "e0001");
    assert_eq!(f.event_refs[0].role, Some(EventRoleType::Primary));
    assert_eq!(f.attributes.len(), 1);
    assert_eq!(f.attributes[0].value, "123 Main St");
    assert_eq!(f.attributes[0].attr_type, AttributeType::Property);
}

#[test]
fn parse_family_soft_refs() {
    let xml = with_db(
        r#"  <families>
    <family handle="f0002">
      <citationref hlink="c0001"/>
      <noteref hlink="n0001"/>
      <tagref hlink="t0001"/>
      <mediaref hlink="m0001"/>
    </family>
  </families>"#,
    );
    let f = single_family_from_parser(&xml);
    assert_eq!(f.citations, vec!["c0001"]);
    assert_eq!(f.notes, vec!["n0001"]);
    assert_eq!(f.tags, vec!["t0001"]);
    assert_eq!(f.media.len(), 1);
    assert_eq!(f.media[0], "m0001");
}

#[test]
fn parse_family_minimal() {
    let xml = with_db(
        r#"  <families>
    <family handle="f0003"/>
  </families>"#,
    );
    let f = single_family_from_parser(&xml);
    assert_eq!(f.handle, "f0003");
    assert!(f.father.is_none());
    assert!(f.mother.is_none());
    assert!(f.child_refs.is_empty());
}

#[test]
fn parse_family_malformed_xml() {
    let xml = with_db(
        r#"  <families>
    <family handle="f0004">
      <father hlink="p0001">
  </families>"#,
    );
    let result = parse_graph(&xml);
    assert!(matches!(result, Err(Error::XmlParseError { .. })));
}

#[test]
fn family_detail_nested_attribute_and_unknown_relation() {
    let xml = with_db(
        r#"  <people><family handle="fx"/></people>
  <families>
    <family handle="f1" id="F1">
      <attribute><type>Number of Children</type><value>3</value></attribute>
      <childref hlink="c1" relation="nonsense"/>
      <father/>
    </family>
  </families>"#,
    );
    let f = single_family_from_parser(&xml);
    assert_eq!(f.gramps_id.as_deref(), Some("F1"));
    assert_eq!(f.attributes.len(), 1);
    assert_eq!(f.attributes[0].attr_type, AttributeType::Custom);
    assert_eq!(f.attributes[0].value, "3");
    assert_eq!(f.child_refs[0].relation, None);
    assert!(f.father.is_none());
}
