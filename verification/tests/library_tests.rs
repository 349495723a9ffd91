use gramps_reader::dsu::Dsu;
use gramps_reader::extract::{unescape_text, EventScan, FamilyScan, PersonScan};
use gramps_reader::integrate::{DiffRow, Selection};
use gramps_reader::merge::{merge_diff_viz, RowKind};
use gramps_reader::report::{build_json_report, csv_header};
use gramps_reader::serialization_map::SerializationMap;
use gramps_reader::tally::{PairTally, SizeTally};
use gramps_reader::text::{decimal_string, parse_year, push_padded, trim};
use gramps_reader::walks::longest_walks;
use gramps_reader::xml::XmlTag;
use gramps_reader::xml_reader::XmlEvent;
use gramps_reader::xml_writer::{
    date_from_unix_seconds, derive_namespace, escape_xml, is_leap, write_section_text, GraphXmlWriter,
    SerializationError,
};

fn tag(name: &str, attrs: &[(&str, &str)]) -> XmlTag {
    XmlTag {
        name: name.as_bytes().to_vec(),
        attributes: attrs.iter().map(|(k, v)| (k.as_bytes().to_vec(), v.as_bytes().to_vec())).collect(),
    }
}

#[test]
fn calendar_dates() {
    assert_eq!(date_from_unix_seconds(0), "1970-01-01");
    assert_eq!(date_from_unix_seconds(86399), "1970-01-01");
    assert_eq!(date_from_unix_seconds(86400 * 365), "1971-01-01");
    assert_eq!(date_from_unix_seconds(68256000), "1972-03-01");
    assert_eq!(date_from_unix_seconds(951782400), "2000-02-29");
    assert_eq!(date_from_unix_seconds(1735603200), "2024-12-31");
    assert_eq!(date_from_unix_seconds(4107542400), "2100-03-01");
}

#[test]
fn leap_years() {
    assert!(is_leap(2000));
    assert!(is_leap(2024));
    assert!(!is_leap(1900));
    assert!(!is_leap(2023));
    assert!(is_leap(-4));
}

#[test]
fn namespaces() {
    assert_eq!(derive_namespace("5.0.1"), "http://gramps-project.org/xml/1.7.0/");
    assert_eq!(derive_namespace("5.1.6"), "http://gramps-project.org/xml/1.7.1/");
    assert_eq!(derive_namespace("5.2.0"), "http://gramps-project.org/xml/1.7.2/");
    assert_eq!(derive_namespace("6.0"), "http://gramps-project.org/xml/1.8.0/");
    assert_eq!(derive_namespace("9.4.1"), "http://gramps-project.org/xml/1.9.4/");
    assert_eq!(derive_namespace("7"), "http://gramps-project.org/xml/1.7/");
}

#[test]
fn escaping() {
    assert_eq!(escape_xml("a<b>&\"'c"), "a&lt;b&gt;&amp;&quot;&apos;c");
    assert_eq!(escape_xml("plain text"), "plain text");
    assert_eq!(escape_xml(""), "");
}

#[test]
fn section_framing() {
    let elements = vec!["<person/>".to_string(), "<person id=\"2\"/>".to_string()];
    assert_eq!(
        write_section_text("people", &elements),
        "  <people>\n    <person/>\n    <person id=\"2\"/>\n  </people>\n"
    );
    assert_eq!(write_section_text("people", &Vec::new()), "");
}

#[test]
fn writer_document_frame() {
    let w = GraphXmlWriter::new(SerializationMap::new(), "5.2.0");
    assert_eq!(w.namespace(), "http://gramps-project.org/xml/1.7.2/");
    let date = w.creation_date().to_string();
    assert_eq!(date.len(), 10);
    assert_eq!(&date[4..5], "-");
    assert_eq!(&date[7..8], "-");
    let start = w.document_start();
    assert!(start.starts_with("<?xml version=\"1.0\" encoding=\"UTF-8\"?>\n<database xmlns=\"http://gramps-project.org/xml/1.7.2/\">\n  <header>\n"));
    assert!(start.contains(&format!("    <created date=\"{date}\" version=\"5.2.0\"/>\n")));
    assert!(start.ends_with("      <resname>Generated by gramps-gen</resname>\n    </researcher>\n  </header>\n"));
    assert_eq!(w.document_end(), "</database>\n");
    assert_eq!(w.map(), &SerializationMap::new());
}

#[test]
fn serialization_error_texts() {
    assert_eq!(
        SerializationError::UnsupportedType("Widget".to_string()).describe(),
        "unsupported node type: Widget"
    );
    assert_eq!(
        SerializationError::MissingRequiredField { handle: "h1".to_string(), field: "gramps_id" }.describe(),
        "missing required field 'gramps_id' on node 'h1'"
    );
    assert_eq!(
        SerializationError::Io(std::io::ErrorKind::NotFound, "gone".to_string()).describe(),
        "I/O error (NotFound): gone"
    );
}

#[test]
fn text_helpers() {
    assert_eq!(trim("  a b \n"), "a b");
    assert_eq!(trim(" \t "), "");
    assert_eq!(parse_year("1850-03-15 00:00:00"), Some(1850));
    assert_eq!(parse_year("-2147483648"), None);
    assert_eq!(parse_year("2147483647"), Some(2147483647));
    assert_eq!(parse_year("2147483648"), None);
    assert_eq!(parse_year("+"), None);
    assert_eq!(decimal_string(0), "0");
    assert_eq!(decimal_string(90210), "90210");
    let mut s = String::from("y=");
    push_padded(&mut s, 7, 3);
    assert_eq!(s, "y=007");
    let mut s = String::new();
    push_padded(&mut s, 12345, 2);
    assert_eq!(s, "12345");
}

#[test]
fn decoding_and_unescaping() {
    assert_eq!(unescape_text(&[0x68, 0xc3, 0xa9]).as_deref(), Some("h\u{e9}"));
    assert_eq!(unescape_text(&[0xff, 0x00]), None);
    assert_eq!(unescape_text(b"a&amp;b&lt;c&#65;").as_deref(), Some("a&b<cA"));
    assert_eq!(unescape_text(b"no refs").as_deref(), Some("no refs"));
    assert_eq!(unescape_text(b"&nope;"), None);
    assert_eq!(unescape_text(b"x &gt; y").as_deref(), Some("x > y"));
    assert_eq!(unescape_text(&[0xc3]), None);
}

#[test]
fn extraction_reads_raw_type_text() {
    let xml = "<events><event handle=\"e1\"><eventtype><type> A &amp; B </type></eventtype></event></events>";
    let es = gramps_reader::extract_events(xml).unwrap();
    assert_eq!(es[0].event_type.as_deref(), Some("A &amp; B"));
}

#[test]
fn family_scan_steps() {
    let mut s = FamilyScan::new();
    s.step(&XmlEvent::Start(tag("x:family", &[("x:handle", "f1")])));
    s.step(&XmlEvent::Empty(tag("father", &[("hlink", "p1")])));
    s.step(&XmlEvent::Empty(tag("childref", &[("hlink", "c1")])));
    s.step(&XmlEvent::Empty(tag("childref", &[])));
    s.step(&XmlEvent::Empty(tag("family", &[("handle", "f2")])));
    s.step(&XmlEvent::End(b"family".to_vec()));
    s.step(&XmlEvent::End(b"family".to_vec()));
    let fs = s.finish();
    assert_eq!(fs.len(), 2);
    assert_eq!(fs[0].handle, "f2");
    assert_eq!(fs[1].handle, "f1");
    assert_eq!(fs[1].father_handle.as_deref(), Some("p1"));
    assert_eq!(fs[1].child_handles, vec!["c1"]);
}

#[test]
fn event_scan_steps_with_text() {
    let mut s = EventScan::new();
    let start = XmlEvent::Start(tag("event", &[("handle", "e1")]));
    assert!(!s.wants_text(&start));
    s.step(&start, None);
    s.step(&XmlEvent::Start(tag("eventtype", &[])), None);
    let ty = XmlEvent::Start(tag("type", &[]));
    assert!(s.wants_text(&ty));
    s.step(&ty, Some("  Burial ".to_string()));
    s.step(&XmlEvent::Empty(tag("dateval", &[("val", "1901-05")])), None);
    s.step(&XmlEvent::End(b"event".to_vec()), None);
    let es = s.finish();
    assert_eq!(es.len(), 1);
    assert_eq!(es[0].event_type.as_deref(), Some("Burial"));
    assert_eq!(es[0].date_val.as_deref(), Some("1901-05"));
    assert_eq!(es[0].date_year, Some(1901));
}

#[test]
fn person_scan_steps_with_text() {
    let mut s = PersonScan::new();
    s.step(&XmlEvent::Start(tag("person", &[("handle", "p1")])), None);
    s.step(&XmlEvent::Start(tag("name", &[])), None);
    let first = XmlEvent::Start(tag("first", &[]));
    assert!(s.wants_text(&first));
    s.step(&first, Some(" Ada ".to_string()));
    s.step(&XmlEvent::End(b"name".to_vec()), None);
    s.step(&XmlEvent::Start(tag("gender", &[])), None);
    s.step(&XmlEvent::Text(b"F".to_vec()), Some("F".to_string()));
    s.step(&XmlEvent::End(b"gender".to_vec()), None);
    s.step(&XmlEvent::Start(tag("birth", &[])), None);
    s.step(&XmlEvent::Empty(tag("dateval", &[("val", "1815-12-10")])), None);
    s.step(&XmlEvent::End(b"birth".to_vec()), None);
    s.step(&XmlEvent::End(b"person".to_vec()), None);
    let ps = s.finish();
    assert_eq!(ps.len(), 1);
    assert_eq!(ps[0].given_name.as_deref(), Some("Ada"));
    assert_eq!(ps[0].surname, None);
    assert_eq!(ps[0].gender.as_deref(), Some("F"));
    assert_eq!(ps[0].birth_year, Some(1815));
}

#[test]
fn dsu_laws_on_values() {
    let mut d = Dsu::new();
    d.union("a", "b");
    let r = d.find("a");
    assert_eq!(d.find(&r), r);
    assert_eq!(d.find("b"), r);
    d.union("c", "d");
    assert_ne!(d.find("a"), d.find("c"));
    d.union("b", "d");
    assert_eq!(d.find("c"), d.find("a"));
    d.make_set("a");
    assert_eq!(d.find("d"), d.find("a"));
}

#[test]
fn walks_and_tallies() {
    let g = longest_walks(4, &vec![(0, 1), (1, 2), (0, 2)], 10);
    assert_eq!(g, vec![0, 1, 2, 0]);
    let cyc = longest_walks(2, &vec![(0, 1), (1, 0)], 5);
    assert!(cyc.iter().all(|x| *x <= 5));
    let mut t = SizeTally::new();
    assert!(t.is_empty());
    t.bump(3);
    t.bump(3);
    t.bump(1);
    assert_eq!(t.get(3), Some(2));
    assert_eq!(t.get(2), None);
    let mut p = PairTally::new();
    p.bump((2, 1));
    assert_eq!(p.get((2, 1)), Some(1));
    assert_eq!(p.get((1, 2)), None);
}

fn person_row(a: Option<&str>, b: Option<&str>) -> DiffRow {
    DiffRow {
        classification: "Modified".to_string(),
        item_type: "Person".to_string(),
        handle_a: a.map(String::from),
        handle_b: b.map(String::from),
        confidence: 0.75f64.to_bits(),
        ..DiffRow::default()
    }
}

fn selection(h: &str, name: &str) -> Selection {
    Selection {
        handle: h.to_string(),
        name: name.to_string(),
        birth_date: Some("1900".to_string()),
        death_date: None,
        gender: "female".to_string(),
        family_group: 7,
    }
}

#[test]
fn json_report_content() {
    let rows = merge_diff_viz(
        vec![person_row(Some("H1"), None), person_row(Some("H2"), None)],
        vec![selection("H1", "One"), selection("H9", "Nine")],
    );
    assert_eq!(rows.len(), 3);
    let report = build_json_report(&rows, "diff.csv", "sel.json");
    assert_eq!(report.diff_file, "diff.csv");
    assert_eq!(report.selection_file, "sel.json");
    assert_eq!(report.row_count, 3);
    assert_eq!(report.matched_count, 1);
    assert_eq!(report.matches[0].row_kind, RowKind::Matched);
    assert_eq!(report.matches[0].side, "a");
    assert_eq!(report.matches[0].diff.handle_a.as_deref(), Some("H1"));
    assert_eq!(f64::from_bits(report.matches[0].diff.confidence), 0.75);
    assert_eq!(report.matches[0].selection.as_ref().unwrap().name, "One");
    assert!(report.matches[1].selection.is_none());
    let viz = report.matches[2].selection.as_ref().unwrap();
    assert_eq!(viz.name, "Nine");
    assert_eq!(viz.family_group, 7);
    assert_eq!(viz.birth_date.as_deref(), Some("1900"));
}

#[test]
fn csv_header_columns() {
    let h = csv_header();
    assert_eq!(h.len(), 21);
    assert_eq!(h[0], "classification");
    assert_eq!(h[13], "similarity");
    assert_eq!(h[14], "side");
    assert_eq!(h[20], "viz_family_group");
}

#[test]
fn written_dates_and_numerals_read_back() {
    for secs in [0u64, 951782400, 1735603200, 4107542400] {
        let d = date_from_unix_seconds(secs);
        let y: i32 = d[0..4].parse().unwrap();
        assert_eq!(parse_year(&d), Some(y));
    }
    for n in [0usize, 7, 1850, 2147483647] {
        assert_eq!(parse_year(&decimal_string(n)), Some(n as i32));
    }
}

#[test]
fn sections_follow_types_in_order() {
    let map = SerializationMap::new();
    for (i, section) in map.section_order.iter().enumerate() {
        let info = map.type_for_section(section).unwrap();
        assert_eq!(&map.type_map.entries()[i].1, info);
    }
}
