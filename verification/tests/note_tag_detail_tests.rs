use gramps_reader::error::Error;
use gramps_reader::note_detail::{parse_notes_detail, NoteDetail};
use gramps_reader::parser::parse_graph;
use gramps_reader::tag_detail::{parse_tags_detail, TagDetail};

fn with_db(body: &str) -> String {
    format!(
        r#"<?xml version="1.0" encoding="UTF-8"?>
<database xmlns="http://gramps-project.org/xml/1.7.2/">
  <header><created version="5.2"/></header>
{body}
</database>"#,
    )
}

fn single_note_from_parser(xml: &str) -> NoteDetail {
    let mut ns = parse_notes_detail(xml).unwrap();
    assert_eq!(ns.len(), 1, "expected exactly one note");
    ns.remove(0)
}

fn single_tag_from_parser(xml: &str) -> TagDetail {
    let mut ts = parse_tags_detail(xml).unwrap();
    assert_eq!(ts.len(), 1, "expected exactly one tag");
    ts.remove(0)
}

#[test]
fn parse_note_full() {
    let xml = with_db(
        r#"  <notes>
    <note handle="n0001">
      <text>This is a note about the family.</text>
      <format>0</format>
      <type>General</type>
      <noteref hlink="n0002"/>
      <citationref hlink="c0001"/>
      <tagref hlink="t0001"/>
    </note>
  </notes>"#,
    );
    let n = single_note_from_parser(&xml);
    assert_eq!(n.handle, "n0001");
    assert_eq!(n.text, "This is a note about the family.");
    assert_eq!(n.format, Some(0));
    assert_eq!(n.note_type, Some("General".to_string()));
    // A <noteref> is kept with the citation references.
    assert_eq!(n.citations, vec!["n0002", "c0001"]);
    assert_eq!(n.tags, vec!["t0001"]);
}

#[test]
fn parse_note_with_text_only() {
    let xml = with_db(
        r#"  <notes>
    <note handle="n0002">
      <text>A simple note</text>
    </note>
  </notes>"#,
    );
    let n = single_note_from_parser(&xml);
    assert_eq!(n.handle, "n0002");
    assert_eq!(n.text, "A simple note");
    assert!(n.format.is_none());
    assert!(n.note_type.is_none());
}

#[test]
fn parse_note_malformed_xml() {
    let xml = with_db(
        r#"  <notes>
    <note handle="n0003">
      <text>Broken
  </notes>"#,
    );
    let result = parse_graph(&xml);
    assert!(matches!(result, Err(Error::XmlParseError { .. })));
}

#[test]
fn parse_tag_full() {
    let xml = with_db(
        r#"  <tags>
    <tag handle="t0001">
      <name>Favorite</name>
      <color>#ff0000</color>
      <priority>1</priority>
    </tag>
  </tags>"#,
    );
    let t = single_tag_from_parser(&xml);
    assert_eq!(t.handle, "t0001");
    assert_eq!(t.name, "Favorite");
    assert_eq!(t.color.as_deref(), Some("#ff0000"));
    assert_eq!(t.priority, Some(1));
}

#[test]
fn parse_tag_minimal() {
    let xml = with_db(
        r#"  <tags>
    <tag handle="t0002">
      <name>Unfiled</name>
    </tag>
  </tags>"#,
    );
    let t = single_tag_from_parser(&xml);
    assert_eq!(t.handle, "t0002");
    assert_eq!(t.name, "Unfiled");
    assert!(t.color.is_none());
    assert!(t.priority.is_none());
}

#[test]
fn parse_tag_malformed_xml() {
    let xml = with_db(
        r#"  <tags>
    <tag handle="t0003">
      <name>Broken
  </tags>"#,
    );
    let result = parse_graph(&xml);
    assert!(matches!(result, Err(Error::XmlParseError { .. })));
}

#[test]
fn parse_tag_with_tagref() {
    let xml = with_db(
        r#"  <tags>
    <tag handle="t0004">
      <name>Parent</name>
      <tagref hlink="t0005"/>
    </tag>
  </tags>"#,
    );
    let t = single_tag_from_parser(&xml);
    assert_eq!(t.handle, "t0004");
    assert_eq!(t.name, "Parent");
    assert_eq!(t.tags, vec!["t0005"]);
}

#[test]
fn notes_and_tags_keep_numbers_that_do_not_read() {
    // An unreadable format or priority leaves the earlier value.
    let xml = with_db(
        r#"  <notes>
    <note handle="n0004"><format>1</format><format>x</format></note>
  </notes>
  <tags>
    <tag handle="t0006"><priority>5</priority><priority>high</priority></tag>
  </tags>"#,
    );
    let ns = parse_notes_detail(&xml).unwrap();
    assert_eq!(ns[0].format, Some(1));
    let ts = parse_tags_detail(&xml).unwrap();
    assert_eq!(ts[0].priority, Some(5));
}
