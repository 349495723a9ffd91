use gramps_reader::error::Error;
use gramps_reader::parser::{parse_graph, read_document, Parser};

fn with_db(body: &str) -> String {
    format!(
        r#"<?xml version="1.0" encoding="UTF-8"?>
<database xmlns="http://gramps-project.org/xml/1.7.2/">
  <header><created version="5.2"/></header>
{body}
</database>"#,
    )
}

fn sample() -> String {
    with_db(
        r#"  <events>
    <event handle="e1"><type>Birth</type><place hlink="pl1"/></event>
  </events>
  <people>
    <person handle="p1"><gender>F</gender><eventref hlink="e1" role="Primary"/></person>
  </people>
  <families>
    <family handle="f1"><mother hlink="p1"/><childref hlink="p9"/></family>
  </families>
  <sources>
    <source handle="s1"><title>Register</title><reporef hlink="r1"/></source>
  </sources>
  <places>
    <place handle="pl1"><name value="Town"/></place>
  </places>
  <repositories>
    <repository handle="r1"><name>Archive</name></repository>
  </repositories>
  <citations>
    <citation handle="c1"><sourceref hlink="s1"/><page>12</page></citation>
  </citations>
  <notes>
    <note handle="n1"><text>Hello</text></note>
  </notes>
  <tags>
    <tag handle="t1"><name>Todo</name></tag>
  </tags>
  <objects>
    <object handle="m1"><file src="a.jpg" mime="image/jpeg"/></object>
  </objects>"#,
    )
}

#[test]
fn parser_reads_every_detailed_kind() {
    let xml = sample();
    let mut parser = Parser::new();
    parser.parse_all(&xml).unwrap();
    let d = parser.into_document();
    assert_eq!(d.people.len(), 1);
    assert_eq!(d.people[0].handle, "p1");
    assert_eq!(d.families.len(), 1);
    assert_eq!(d.families[0].mother.as_deref(), Some("p1"));
    assert_eq!(d.events.len(), 1);
    assert_eq!(d.events[0].place.as_deref(), Some("pl1"));
    assert_eq!(d.places.len(), 1);
    assert_eq!(d.places[0].name.as_deref(), Some("Town"));
    assert_eq!(d.sources.len(), 1);
    assert_eq!(d.sources[0].title, "Register");
    assert_eq!(d.repositories.len(), 1);
    assert_eq!(d.repositories[0].name.as_deref(), Some("Archive"));
    assert_eq!(d.citations.len(), 1);
    assert_eq!(d.citations[0].source.as_deref(), Some("s1"));
    assert_eq!(d.notes.len(), 1);
    assert_eq!(d.notes[0].text, "Hello");
    assert_eq!(d.tags.len(), 1);
    assert_eq!(d.tags[0].name, "Todo");
    assert_eq!(d.media.len(), 1);
    assert_eq!(d.media[0].path.as_deref(), Some("a.jpg"));
    assert_eq!(d.records.nodes.len(), 10);
}

#[test]
fn parser_error_leaves_state() {
    let mut parser = Parser::new();
    parser.parse_all(&sample()).unwrap();
    let bad = with_db(r#"  <people><person handle="p2"><name></person></people>"#);
    let r = parser.parse_all(&bad);
    assert!(matches!(r, Err(Error::XmlParseError { .. })));
    let d = parser.into_document();
    assert_eq!(d.people.len(), 1);
    assert_eq!(d.people[0].handle, "p1");
}

#[test]
fn parse_graph_infers_missing_targets() {
    let g = parse_graph(&sample()).unwrap();
    // p9 is referred to by the family but no person has it.
    assert!(g.inferred.iter().any(|h| h == "p9"));
    assert!(g.nodes.iter().any(|n| n.handle == "p9"));
    assert!(!g.inferred.iter().any(|h| h == "p1"));
}

#[test]
fn parse_graph_resolves_forward_references() {
    // The event refers to a place, and the source to a repository, that
    // stand later in the document: neither is inferred.
    let g = parse_graph(&sample()).unwrap();
    assert!(!g.inferred.iter().any(|h| h == "pl1"));
    assert!(!g.inferred.iter().any(|h| h == "r1"));
    assert_eq!(g.inferred, vec!["p9".to_string()]);
}

#[test]
fn parse_graph_rejects_unended_object() {
    let xml = with_db(r#"  <places><place handle="pl1">"#);
    let r = parse_graph(&xml);
    assert!(matches!(r, Err(Error::XmlParseError { .. })));
}

#[test]
fn read_document_empty_sections() {
    let d = read_document(&with_db("")).unwrap();
    assert!(d.people.is_empty());
    assert!(d.repositories.is_empty());
    assert!(d.records.nodes.is_empty());
}

#[test]
fn parse_person_dangling_eventref() {
    let xml = with_db(
        r#"  <people>
    <person handle="p0001">
      <gender>M</gender>
      <name><first>John</first><surname>Smith</surname></name>
      <eventref hlink="e0001"/>
    </person>
  </people>"#,
    );
    // Event e0001 does not exist: a placeholder event is created.
    let graph = parse_graph(&xml).expect("should succeed with placeholder");
    assert!(graph.inferred.iter().any(|h| h == "e0001"), "e0001 should be inferred");
    assert_eq!(graph.inferred.len(), 1);
    // The person still exists.
    assert!(graph.nodes.iter().any(|n| n.handle == "p0001"));
    // The edge links p0001 to the placeholder event.
    let edges: Vec<_> = graph.edges.iter().filter(|e| e.source == "p0001").collect();
    assert!(!edges.is_empty(), "should have an edge to the placeholder event");
}

#[test]
fn parser_adds_each_document() {
    let mut parser = Parser::new();
    parser.parse_all(&sample()).unwrap();
    let second = with_db(r#"  <people><person handle="p2"><gender>F</gender></person></people>"#);
    parser.parse_all(&second).unwrap();
    let d = parser.into_document();
    assert_eq!(d.people.len(), 2);
    assert_eq!(d.people[0].handle, "p1");
    assert_eq!(d.people[1].handle, "p2");
    assert_eq!(d.records.nodes.len(), 11);
    assert_eq!(d.families.len(), 1);
}
