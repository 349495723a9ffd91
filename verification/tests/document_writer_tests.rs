use gramps_reader::parser::read_document;
use gramps_reader::document_writer::{text_less_or_equal, write_section, WriteEdge, WriteGraph, WriteNode};
use gramps_reader::graph_scan::{NodeKind, NodeRecord};
use gramps_reader::inline_fields::TypedValues;
use gramps_reader::serialization_map::SerializationMap;
use gramps_reader::xml_writer::GraphXmlWriter;

fn typed(gender: i32, event_type: &str) -> TypedValues {
    TypedValues {
        gender,
        event_type: event_type.to_string(),
        tag_name: String::new(),
        tag_priority: None,
        confidence: None,
        note_format: None,
    }
}

fn node(kind: NodeKind, handle: &str, id: Option<&str>, fields: &[(&str, &str)]) -> NodeRecord {
    NodeRecord {
        kind,
        handle: handle.to_string(),
        gramps_id: id.map(|s| s.to_string()),
        fields: fields.iter().map(|(k, v)| (k.as_bytes().to_vec(), v.to_string())).collect(),
        date: None,
    }
}

fn sample_graph() -> WriteGraph {
    WriteGraph {
        nodes: vec![
            WriteNode {
                record: node(NodeKind::Person, "p2", Some("I2"), &[]),
                typed: typed(0, ""),
                alternate_names: vec![],
            },
            WriteNode {
                record: node(NodeKind::Event, "e1", Some("E1"), &[]),
                typed: typed(0, "Birth"),
                alternate_names: vec![],
            },
            WriteNode {
                record: node(NodeKind::Person, "p1", None, &[("first", "Ann"), ("surname", "Lee")]),
                typed: typed(1, ""),
                alternate_names: vec![("Anne".to_string(), "Lea".to_string())],
            },
        ],
        edges: vec![WriteEdge {
            variant: "PersonEventRef".to_string(),
            source: "p1".to_string(),
            target: "e1".to_string(),
            role: "Primary".to_string(),
            relation: String::new(),
        }],
    }
}

#[test]
fn writes_whole_document_sorted_by_handle() {
    let w = GraphXmlWriter::new(SerializationMap::new(), "5.2.0");
    let out = w.write(&sample_graph());
    let expected = format!(
        r#"<?xml version="1.0" encoding="UTF-8"?>
<database xmlns="http://gramps-project.org/xml/1.7.2/">
  <header>
    <created date="{}" version="5.2.0"/>
    <researcher>
      <resname>Generated by gramps-gen</resname>
    </researcher>
  </header>
  <events>
    <event handle="e1" id="E1">
      <eventtype><type>Birth</type></eventtype>
    </event>
  </events>
  <people>
    <person handle="p1">
      <gender>F</gender>
      <name><first>Ann</first><surname>Lee</surname></name>
      <name><first>Anne</first><surname>Lea</surname></name>
      <eventref hlink="e1"><role>Primary</role></eventref>
    </person>
    <person handle="p2" id="I2">
      <gender>M</gender>
      <name><first></first><surname></surname></name>
    </person>
  </people>
</database>
"#,
        w.creation_date()
    );
    assert_eq!(out, expected);
}

#[test]
fn empty_and_unknown_sections_write_nothing() {
    let m = SerializationMap::new();
    let g = sample_graph();
    assert_eq!(write_section(&m, &g, "tags"), "");
    assert_eq!(write_section(&m, &g, "nosuchsection"), "");
}

#[test]
fn object_without_children_is_empty_element() {
    let m = SerializationMap::new();
    let g = WriteGraph {
        nodes: vec![WriteNode {
            record: node(NodeKind::Family, "f&1", None, &[]),
            typed: typed(0, ""),
            alternate_names: vec![],
        }],
        edges: vec![WriteEdge {
            variant: "FamilyChildRef".to_string(),
            source: "other".to_string(),
            target: "p1".to_string(),
            role: String::new(),
            relation: "Birth".to_string(),
        }],
    };
    assert_eq!(write_section(&m, &g, "families"), "  <families>\n    <family handle=\"f&amp;1\"/>\n  </families>\n");
}

#[test]
fn child_and_plain_references() {
    let m = SerializationMap::new();
    let edge = |variant: &str, target: &str| WriteEdge {
        variant: variant.to_string(),
        source: "f1".to_string(),
        target: target.to_string(),
        role: String::new(),
        relation: "Adopted".to_string(),
    };
    let g = WriteGraph {
        nodes: vec![WriteNode { record: node(NodeKind::Family, "f1", None, &[]), typed: typed(0, ""), alternate_names: vec![] }],
        edges: vec![edge("FamilyChildRef", "p3"), edge("FamilyFather", "p1")],
    };
    assert_eq!(
        write_section(&m, &g, "families"),
        "  <families>\n    <family handle=\"f1\">\n      <father hlink=\"p1\"/>\n      <childref hlink=\"p3\" rel=\"Adopted\"/>\n    </family>\n  </families>\n"
    );
}

#[test]
fn handle_order_is_code_point_order() {
    assert!(text_less_or_equal("a", "b"));
    assert!(text_less_or_equal("a", "ab"));
    assert!(!text_less_or_equal("ab", "a"));
    assert!(text_less_or_equal("B", "a"));
    assert!(text_less_or_equal("", ""));
}

#[test]
fn written_document_reads_back() {
    let w = GraphXmlWriter::new(SerializationMap::new(), "5.2.0");
    let out = w.write(&sample_graph());
    let d = read_document(&out).unwrap();
    assert_eq!(d.people.len(), 2);
    assert_eq!(d.people[0].handle, "p1");
    assert_eq!(d.people[0].primary_name.first_name.as_deref(), Some("Ann"));
    // The writer gives an event reference a `<role>` child, and the person
    // reader takes event references from empty-element tags only, so this
    // one is not read back.
    assert_eq!(d.people[0].event_refs.len(), 0);
    assert_eq!(d.people[1].handle, "p2");
    assert_eq!(d.people[1].gramps_id.as_deref(), Some("I2"));
    assert_eq!(d.events.len(), 1);
    assert_eq!(d.events[0].handle, "e1");
    assert_eq!(d.events[0].gramps_id.as_deref(), Some("E1"));
    assert_eq!(d.events[0].event_type, Some(gramps_reader::typed_values::EventType::Birth));
}
