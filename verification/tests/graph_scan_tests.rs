use gramps_reader::error::Error;
use gramps_reader::graph_scan::{
    parse_gramps_records, parse_gramps_xml, resolve_edges, GraphRecords, NodeKind, NodeRecord, RefKind,
};

fn minimal_52_xml() -> String {
    r#"<?xml version="1.0" encoding="UTF-8"?>
<database xmlns="http://gramps-project.org/xml/1.7.2/">
  <header>
    <created date="2025-01-15" version="5.2"/>
  </header>
  <people>
    <person handle="p0001" id="I0001">
      <gender>1</gender>
      <name>
        <first>John</first>
        <surname>Smith</surname>
      </name>
      <birth>
        <dateval val="1850-07-13"/>
      </birth>
      <death>
        <dateval val="1920-03-01"/>
      </death>
    </person>
  </people>
</database>"#
        .to_string()
}

fn node<'a>(g: &'a GraphRecords, handle: &str) -> Option<&'a NodeRecord> {
    g.nodes.iter().find(|n| n.handle == handle)
}

fn field<'a>(n: &'a NodeRecord, name: &str) -> Option<&'a str> {
    n.fields
        .iter()
        .find(|(k, _)| k.as_slice() == name.as_bytes())
        .map(|(_, v)| v.as_str())
}

#[test]
fn parse_minimal_person_roundtrip() {
    let xml = minimal_52_xml();
    let g = parse_gramps_xml(&xml).unwrap();
    assert_eq!(g.nodes.len(), 1);
    assert_eq!(g.namespace, "http://gramps-project.org/xml/1.7.2/");
    let p = node(&g, "p0001").unwrap();
    assert_eq!(p.kind, NodeKind::Person);
    assert_eq!(p.handle, "p0001");
    assert_eq!(p.gramps_id.as_deref(), Some("I0001"));
    assert_eq!(field(p, "first"), Some("John"));
    assert_eq!(field(p, "surname"), Some("Smith"));
    assert_eq!(field(p, "gender"), Some("1"));
}

#[test]
fn parse_family_roundtrip() {
    let xml = r#"<?xml version="1.0" encoding="UTF-8"?>
<database xmlns="http://gramps-project.org/xml/1.7.2/">
  <header>
    <created date="2025-01-15" version="5.2"/>
  </header>
  <people>
    <person handle="p0001" id="I0001">
      <gender>1</gender>
      <name><first>John</first><surname>Smith</surname></name>
    </person>
    <person handle="p0002" id="I0002">
      <gender>2</gender>
      <name><first>Jane</first><surname>Smith</surname></name>
    </person>
  </people>
  <families>
    <family handle="f0001">
      <father hlink="p0001"/>
      <mother hlink="p0002"/>
    </family>
  </families>
</database>"#;
    let g = parse_gramps_xml(xml).unwrap();
    assert_eq!(g.nodes.len(), 3);
    assert_eq!(g.edges.len(), 2);
    assert!(g.edges.iter().any(|e| e.kind == RefKind::Father && e.source == "f0001" && e.target == "p0001"));
    assert!(g.edges.iter().any(|e| e.kind == RefKind::Mother && e.source == "f0001" && e.target == "p0002"));
}

#[test]
fn parse_all_types_empty_roundtrip() {
    let xml = r#"<?xml version="1.0" encoding="UTF-8"?>
<database xmlns="http://gramps-project.org/xml/1.7.2/">
  <header>
    <created date="2025-01-15" version="5.2"/>
  </header>
  <people>
    <person handle="p0001" id="I0001">
      <gender>1</gender>
      <name><first>John</first></name>
    </person>
  </people>
  <events>
    <event handle="e0001">
      <eventtype><type>Birth</type></eventtype>
    </event>
  </events>
  <places>
    <place handle="pl0001">
      <title>New York</title>
    </place>
  </places>
  <sources>
    <source handle="s0001">
      <title>Census Record</title>
      <author>National Archives</author>
    </source>
  </sources>
  <citations>
    <citation handle="c0001">
      <page>p. 42</page>
    </citation>
  </citations>
  <repositories>
    <repository handle="r0001">
      <rname>National Archives</rname>
    </repository>
  </repositories>
  <objects>
    <object handle="m0001">
      <path>/photos/photo1.jpg</path>
    </object>
  </objects>
  <notes>
    <note handle="n0001">
      <text>Test note content</text>
    </note>
  </notes>
  <tags>
    <tag handle="t0001">
      <color>#ff0000</color>
    </tag>
  </tags>
</database>"#;
    let g = parse_gramps_xml(xml).unwrap();
    assert_eq!(g.nodes.len(), 9);
    assert_eq!(g.edges.len(), 0);
    for h in ["p0001", "e0001", "pl0001", "s0001", "c0001", "r0001", "m0001", "n0001", "t0001"] {
        assert!(node(&g, h).is_some(), "{h} missing");
    }
    assert_eq!(field(node(&g, "e0001").unwrap(), "type"), Some("Birth"));
    assert_eq!(field(node(&g, "s0001").unwrap(), "author"), Some("National Archives"));
    assert_eq!(field(node(&g, "c0001").unwrap(), "page"), Some("p. 42"));
    assert_eq!(field(node(&g, "r0001").unwrap(), "rname"), Some("National Archives"));
    assert_eq!(field(node(&g, "m0001").unwrap(), "path"), Some("/photos/photo1.jpg"));
    assert_eq!(field(node(&g, "n0001").unwrap(), "text"), Some("Test note content"));
    assert_eq!(field(node(&g, "t0001").unwrap(), "color"), Some("#ff0000"));
    assert_eq!(node(&g, "m0001").unwrap().kind, NodeKind::Media);
}

#[test]
fn parse_citation_with_sourceref() {
    let xml = r#"<?xml version="1.0" encoding="UTF-8"?>
<database xmlns="http://gramps-project.org/xml/1.7.2/">
  <header>
    <created date="2025-01-15" version="5.2"/>
  </header>
  <sources>
    <source handle="s0001" id="S0001">
      <title>Census Record</title>
    </source>
  </sources>
  <citations>
    <citation handle="c0001" id="C0001">
      <sourceref hlink="s0001"/>
      <page>p. 42</page>
    </citation>
  </citations>
</database>"#;
    let g = parse_gramps_xml(xml).unwrap();
    assert_eq!(g.nodes.len(), 2);
    assert_eq!(g.edges.len(), 1);
    let e = &g.edges[0];
    assert_eq!(e.kind, RefKind::SourceRef);
    assert_eq!(e.source_kind, NodeKind::Citation);
    assert_eq!(e.source, "c0001");
    assert_eq!(e.target, "s0001");
}

#[test]
fn parse_event_with_place_hlink() {
    let xml = r#"<?xml version="1.0" encoding="UTF-8"?>
<database xmlns="http://gramps-project.org/xml/1.7.2/">
  <header>
    <created date="2025-01-15" version="5.2"/>
  </header>
  <events>
    <event handle="e0001" id="E0001">
      <eventtype><type>Birth</type></eventtype>
      <place hlink="pl0001"/>
      <description>Birth of John</description>
    </event>
  </events>
  <places>
    <place handle="pl0001" id="P0001">
      <title>New York</title>
    </place>
  </places>
</database>"#;
    let g = parse_gramps_xml(xml).unwrap();
    assert_eq!(g.nodes.len(), 2);
    assert_eq!(g.edges.len(), 1);
    let e = &g.edges[0];
    assert_eq!(e.kind, RefKind::EventPlace);
    assert_eq!(e.source, "e0001");
    assert_eq!(e.target, "pl0001");
    assert_eq!(field(node(&g, "e0001").unwrap(), "description"), Some("Birth of John"));
}

#[test]
fn parse_event_5_1_flat_format() {
    let xml = r#"<?xml version="1.0" encoding="UTF-8"?>
<database xmlns="http://gramps-project.org/xml/1.7.1/">
  <header>
    <created date="2025-01-15" version="5.1"/>
  </header>
  <events>
    <event handle="e0001">
      <type>Birth</type>
      <description>Birth of John Smith</description>
    </event>
  </events>
  <people>
    <person handle="p0001" id="I0001">
      <gender>1</gender>
      <name><first>John</first><surname>Smith</surname></name>
    </person>
  </people>
</database>"#;
    let g = parse_gramps_xml(xml).unwrap();
    assert_eq!(g.nodes.len(), 2);
    assert!(node(&g, "e0001").is_some());
    assert!(node(&g, "p0001").is_some());
    assert_eq!(field(node(&g, "e0001").unwrap(), "type"), Some("Birth"));
}

#[test]
fn parse_event_5_2_nested_format() {
    let xml = r#"<?xml version="1.0" encoding="UTF-8"?>
<database xmlns="http://gramps-project.org/xml/1.7.2/">
  <header>
    <created date="2025-01-15" version="5.2"/>
  </header>
  <events>
    <event handle="e0001">
      <eventtype><type>Birth</type></eventtype>
      <description>Birth of John Smith</description>
    </event>
  </events>
  <people>
    <person handle="p0001" id="I0001">
      <gender>1</gender>
      <name><first>John</first><surname>Smith</surname></name>
    </person>
  </people>
</database>"#;
    let g = parse_gramps_xml(xml).unwrap();
    assert_eq!(g.nodes.len(), 2);
    assert!(node(&g, "e0001").is_some());
    assert!(node(&g, "p0001").is_some());
}

#[test]
fn graph_references_by_holder_kind() {
    let xml = r#"<database xmlns="x">
  <people>
    <person handle="p1">
      <eventref hlink="e1"/><citationref hlink="c1"/><noteref hlink="n1"/>
      <personref hlink="p2"/><childref hlink="zz"/><tagref hlink="t1"/>
    </person>
  </people>
  <notes><note handle="n1"><noteref hlink="n2"/><tagref hlink="t1"/></note></notes>
  <events>
    <event handle="e1"><dateval val="1850-03-15" quality="estimated"/><objref hlink="m1"/></event>
  </events>
</database>"#;
    let g = parse_gramps_records(xml).unwrap();
    let kinds: Vec<(RefKind, &str, &str)> =
        g.edges.iter().map(|e| (e.kind, e.source.as_str(), e.target.as_str())).collect();
    assert_eq!(
        kinds,
        vec![
            (RefKind::EventRef, "p1", "e1"),
            (RefKind::CitationRef, "p1", "c1"),
            (RefKind::NoteRef, "p1", "n1"),
            (RefKind::PersonRef, "p1", "p2"),
            (RefKind::TagRef, "p1", "t1"),
            (RefKind::TagRef, "n1", "t1"),
        ]
    );
    let e1 = node(&g, "e1").unwrap();
    let d = e1.date.as_ref().unwrap();
    assert_eq!((d.year, d.month, d.day), (1850, Some(3), Some(15)));
    assert_eq!(g.namespace, "x");
}

#[test]
fn graph_nodes_outside_their_section_are_ignored() {
    let xml = r#"<database>
  <people><event handle="e9"></event><person handle="p1"></person></people>
  <person handle="p2"></person>
</database>"#;
    let g = parse_gramps_records(xml).unwrap();
    let hs: Vec<&str> = g.nodes.iter().map(|n| n.handle.as_str()).collect();
    assert_eq!(hs, vec!["p1"]);
}

#[test]
fn graph_malformed_xml_is_an_error() {
    match parse_gramps_records("<database><people><person handle=\"p\"></people></database>") {
        Err(Error::XmlParseError { .. }) => {}
        other => panic!("expected XmlParseError, got {:?}", other.map(|g| g.nodes.len())),
    }
}

#[test]
fn graph_unsupported_schema_is_refused() {
    let xml = r#"<database><header><created date="2025-01-01" version="3.0"/></header></database>"#;
    match parse_gramps_xml(xml) {
        Err(Error::UnsupportedSchema { .. }) => {}
        other => panic!("expected UnsupportedSchema, got {:?}", other.map(|g| g.nodes.len())),
    }
}

#[test]
fn graph_gender_kept_only_when_numeric() {
    let xml = r#"<database><people>
  <person handle="p1"><gender> 2 </gender><first>Out</first><name><first> Ann </first></name></person>
  <person handle="p2"><gender>F</gender></person>
</people></database>"#;
    let g = parse_gramps_records(xml).unwrap();
    let p1 = node(&g, "p1").unwrap();
    assert_eq!(field(p1, "gender"), Some("2"));
    assert_eq!(field(p1, "first"), Some("Ann"));
    assert_eq!(p1.fields.len(), 2);
    assert!(node(&g, "p2").unwrap().fields.is_empty());
}

#[test]
fn graph_build_keeps_last_node_per_handle_and_linked_edges() {
    let xml = r#"<?xml version="1.0" encoding="UTF-8"?>
<database xmlns="http://gramps-project.org/xml/1.7.2/">
  <header><created date="2025-01-15" version="5.2"/></header>
  <people>
    <person handle="p1" id="OLD"></person>
    <person handle="p2"><eventref hlink="e1"/><eventref hlink="e9"/></person>
    <person handle="p1" id="NEW"></person>
  </people>
  <events><event handle="e1"></event></events>
</database>"#;
    let raw = parse_gramps_records(xml).unwrap();
    assert_eq!(raw.nodes.len(), 4);
    assert_eq!(raw.edges.len(), 2);
    let g = parse_gramps_xml(xml).unwrap();
    let hs: Vec<&str> = g.nodes.iter().map(|n| n.handle.as_str()).collect();
    assert_eq!(hs, vec!["p2", "p1", "e1"]);
    assert_eq!(node(&g, "p1").unwrap().gramps_id.as_deref(), Some("NEW"));
    assert_eq!(g.edges.len(), 1);
    assert_eq!(g.edges[0].target, "e1");
}

#[test]
fn graph_resolve_adds_placeholders_for_missing_targets() {
    let xml = r#"<database>
  <people>
    <person handle="p0001">
      <eventref hlink="e0001"/><eventref hlink="e0001"/><citationref hlink="c1"/><tagref hlink="p0001"/>
    </person>
  </people>
</database>"#;
    let g = parse_gramps_records(xml).unwrap();
    let r = resolve_edges(g);
    assert_eq!(r.edges.len(), 4);
    assert_eq!(r.inferred, vec!["e0001".to_string(), "c1".to_string()]);
    let hs: Vec<(&str, NodeKind)> = r.nodes.iter().map(|n| (n.handle.as_str(), n.kind)).collect();
    assert_eq!(
        hs,
        vec![("p0001", NodeKind::Person), ("e0001", NodeKind::Event), ("c1", NodeKind::Citation)]
    );
    assert!(r.nodes[1].fields.is_empty() && r.nodes[1].gramps_id.is_none());
}
