use gramps_reader::dates::DateRecord;
use gramps_reader::graph_scan::{NodeKind, NodeRecord};
use gramps_reader::inline_fields::{inline_field_text, TypedValues};

fn rec(kind: NodeKind, fields: &[(&str, &str)]) -> NodeRecord {
    NodeRecord {
        kind,
        handle: "h1".to_string(),
        gramps_id: None,
        fields: fields
            .iter()
            .map(|(k, v)| (k.as_bytes().to_vec(), v.to_string()))
            .collect(),
        date: None,
    }
}

fn tv(gender: i32) -> TypedValues {
    TypedValues {
        gender,
        event_type: "Birth & Co".to_string(),
        tag_name: "ToDo".to_string(),
        tag_priority: Some(-3),
        confidence: None,
        note_format: Some(1),
    }
}

#[test]
fn inline_gender_letters() {
    let p = rec(NodeKind::Person, &[]);
    assert_eq!(inline_field_text(&p, "gender", "gender", &tv(1)), "      <gender>F</gender>\n");
    assert_eq!(inline_field_text(&p, "gender", "gender", &tv(2)), "      <gender>U</gender>\n");
    assert_eq!(inline_field_text(&p, "gender", "gender", &tv(3)), "      <gender>U</gender>\n");
    assert_eq!(inline_field_text(&p, "gender", "gender", &tv(0)), "      <gender>M</gender>\n");
    let e = rec(NodeKind::Event, &[]);
    assert_eq!(inline_field_text(&e, "gender", "gender", &tv(1)), "");
}

#[test]
fn inline_primary_name_uses_last_values() {
    let p = rec(NodeKind::Person, &[("first", "Jo"), ("surname", "A<B"), ("first", "John")]);
    assert_eq!(
        inline_field_text(&p, "name", "primary_name", &tv(0)),
        "      <name><first>John</first><surname>A&lt;B</surname></name>\n"
    );
    let empty = rec(NodeKind::Person, &[]);
    assert_eq!(
        inline_field_text(&empty, "name", "primary_name", &tv(0)),
        "      <name><first></first><surname></surname></name>\n"
    );
}

#[test]
fn inline_event_fields() {
    let mut e = rec(NodeKind::Event, &[("description", "Born")]);
    assert_eq!(
        inline_field_text(&e, "eventtype", "event_type", &tv(0)),
        "      <eventtype><type>Birth &amp; Co</type></eventtype>\n"
    );
    assert_eq!(
        inline_field_text(&e, "description", "description", &tv(0)),
        "      <description>Born</description>\n"
    );
    assert_eq!(inline_field_text(&e, "dateval", "date", &tv(0)), "");
    e.date = Some(DateRecord {
        year: 1868,
        month: Some(9),
        day: Some(20),
        quality: None,
        modifier: None,
        text: None,
    });
    assert_eq!(inline_field_text(&e, "dateval", "date", &tv(0)), "      <dateval val=\"1868-09-20\"/>\n");
}

#[test]
fn inline_source_place_media_note_tag() {
    let s = rec(NodeKind::Source, &[("title", "Census"), ("pubinfo", "Pub")]);
    assert_eq!(inline_field_text(&s, "title", "title", &tv(0)), "      <stitle>Census</stitle>\n");
    assert_eq!(inline_field_text(&s, "abbrev", "abbrev", &tv(0)), "      <sabbrev>Pub</sabbrev>\n");
    let s2 = rec(NodeKind::Source, &[("author", "Ann"), ("pubinfo", "Pub")]);
    assert_eq!(inline_field_text(&s2, "abbrev", "abbrev", &tv(0)), "      <sabbrev>Ann</sabbrev>\n");
    let s3 = rec(NodeKind::Source, &[]);
    assert_eq!(inline_field_text(&s3, "abbrev", "abbrev", &tv(0)), "");
    assert_eq!(inline_field_text(&s3, "title", "title", &tv(0)), "      <stitle></stitle>\n");
    let pl = rec(NodeKind::Place, &[("city", "Rome")]);
    assert_eq!(inline_field_text(&pl, "title", "title", &tv(0)), "      <ptitle>Rome</ptitle>\n");
    let m = rec(NodeKind::Media, &[("path", "/a.jpg"), ("desc", "pic")]);
    assert_eq!(inline_field_text(&m, "file", "file", &tv(0)), "      <file>/a.jpg</file>\n");
    assert_eq!(inline_field_text(&m, "description", "description", &tv(0)), "      <description>pic</description>\n");
    let n = rec(NodeKind::Note, &[("text", "AT&T")]);
    assert_eq!(inline_field_text(&n, "text", "text", &tv(0)), "      <text>AT&amp;T</text>\n");
    assert_eq!(inline_field_text(&n, "format", "format", &tv(0)), "      <format>1</format>\n");
    let t = rec(NodeKind::Tag, &[("color", "#ff0000")]);
    assert_eq!(inline_field_text(&t, "name", "name", &tv(0)), "      <name>ToDo</name>\n");
    assert_eq!(inline_field_text(&t, "color", "color", &tv(0)), "      <color>#ff0000</color>\n");
    assert_eq!(inline_field_text(&t, "priority", "priority", &tv(0)), "      <priority>-3</priority>\n");
    let r = rec(NodeKind::Repository, &[("rname", "Archive")]);
    assert_eq!(inline_field_text(&r, "rname", "name", &tv(0)), "      <rname>Archive</rname>\n");
    let c = rec(NodeKind::Citation, &[]);
    assert_eq!(inline_field_text(&c, "confidence", "confidence", &tv(0)), "");
    assert_eq!(inline_field_text(&c, "x", "unknown", &tv(0)), "");
}
