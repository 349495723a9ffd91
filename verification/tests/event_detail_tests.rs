use gramps_reader::parser::parse_graph;
use gramps_reader::dates::{DateModifier, DateQuality};
use gramps_reader::error::Error;
use gramps_reader::event_detail::parse_events_detail;
use gramps_reader::person_records::EventDetail;
use gramps_reader::typed_values::{AttributeType, EventType};

fn with_db(body: &str) -> String {
    format!(
        r#"<?xml version="1.0" encoding="UTF-8"?>
<database xmlns="http://gramps-project.org/xml/1.7.2/">
  <header><created version="5.2"/></header>
{body}
</database>"#,
    )
}

fn single_event_from_parser(xml: &str) -> EventDetail {
    let mut es = parse_events_detail(xml).unwrap();
    assert_eq!(es.len(), 1, "expected exactly one event");
    es.remove(0)
}

#[test]
fn parse_event_full() {
    let xml = with_db(
        r#"  <events>
    <event handle="e0001">
      <eventtype>
        <type>Marriage</type>
      </eventtype>
      <dateval val="1850-03-15" quality="exact" type="about"/>
      <place hlink="pl0001"/>
      <description>Church ceremony</description>
      <attribute type="Cause" value="heart attack"/>
    </event>
  </events>"#,
    );
    let e = single_event_from_parser(&xml);
    assert_eq!(e.handle, "e0001");
    assert_eq!(e.event_type, Some(EventType::Marriage));
    let date = e.date.as_ref().expect("date should be set");
    assert_eq!(date.year, 1850);
    assert_eq!(date.month, Some(3));
    assert_eq!(date.day, Some(15));
    assert_eq!(date.quality, Some(DateQuality::Exact));
    assert_eq!(date.modifier, Some(DateModifier::About));
    assert_eq!(e.place.as_deref(), Some("pl0001"));
    assert_eq!(e.description.as_deref(), Some("Church ceremony"));
    assert_eq!(e.attributes.len(), 1);
    assert_eq!(e.attributes[0].attr_type, AttributeType::Cause);
    assert_eq!(e.attributes[0].value, "heart attack");
}

#[test]
fn parse_event_flat_type() {
    // The older flat form: <type>Birth</type> directly inside <event>.
    let xml = with_db(
        r#"  <events>
    <event handle="e0002">
      <type>Birth</type>
      <dateval val="1850"/>
    </event>
  </events>"#,
    );
    let e = single_event_from_parser(&xml);
    assert_eq!(e.event_type, Some(EventType::Birth));
    let date = e.date.as_ref().expect("date should be set");
    assert_eq!(date.year, 1850);
    assert_eq!(date.month, None);
    assert_eq!(date.day, None);
}

#[test]
fn parse_event_minimal() {
    let xml = with_db(
        r#"  <events>
    <event handle="e0003"/>
  </events>"#,
    );
    let e = single_event_from_parser(&xml);
    assert_eq!(e.handle, "e0003");
    assert_eq!(e.event_type, None);
    assert!(e.date.is_none());
    assert!(e.place.is_none());
}

#[test]
fn parse_event_malformed_xml() {
    let xml = with_db(
        r#"  <events>
    <event handle="e0004">
      <eventtype>
  </events>"#,
    );
    let result = parse_graph(&xml);
    assert!(matches!(result, Err(Error::XmlParseError { .. })));
}

#[test]
fn events_detail_soft_refs_and_id() {
    let xml = with_db(
        r#"  <events>
    <event handle="e0005" id="E0005">
      <citationref hlink="c0001"/>
      <noteref hlink="n0001"/>
      <tagref hlink="t0001"/>
      <mediaref hlink="o0001"/>
    </event>
    <event handle="e0006">
      <type>Death</type>
    </event>
  </events>"#,
    );
    let es = parse_events_detail(&xml).unwrap();
    assert_eq!(es.len(), 2);
    assert_eq!(es[0].gramps_id.as_deref(), Some("E0005"));
    assert_eq!(es[0].citations, vec!["c0001".to_string()]);
    assert_eq!(es[0].notes, vec!["n0001".to_string()]);
    assert_eq!(es[0].tags, vec!["t0001".to_string()]);
    assert_eq!(es[0].media, vec!["o0001".to_string()]);
    assert_eq!(es[1].handle, "e0006");
    assert_eq!(es[1].event_type, Some(EventType::Death));
}

#[test]
fn events_detail_none_without_section() {
    let xml = with_db("  <people/>");
    let es = parse_events_detail(&xml).unwrap();
    assert!(es.is_empty());
}
