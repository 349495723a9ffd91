use gramps_reader::dates::{
    date_element_text, parse_dateval, DateModifier, DateQuality, DateRecord,
};
use gramps_reader::serialization_map::SerializationMap;
use gramps_reader::text::trim;
use gramps_reader::xml::XmlTag;
use gramps_reader::xml_writer::{escape_xml, GraphXmlWriter};

fn document(version: &str) -> String {
    let w = GraphXmlWriter::new(SerializationMap::new(), version);
    let mut s = w.document_start();
    s.push_str(&w.document_end());
    s
}

#[test]
fn xml_xml_header_content() {
    let xml = document("5.2.0");
    assert!(xml.contains("<created date="));
    assert!(xml.contains(r#"version="5.2.0""#));
    assert!(xml.contains("<resname>Generated by gramps-gen</resname>"));
}

#[test]
fn xml_xml_header_version_parameter() {
    let xml = document("5.1.6");
    assert!(xml.contains(r#"version="5.1.6""#));
    assert!(!xml.contains(r#"version="5.2.0""#));
}

#[test]
fn xml_namespace_52() {
    let xml = document("5.2.0");
    assert!(xml.contains("http://gramps-project.org/xml/1.7.2/"));
}

#[test]
fn xml_xml_namespace_51() {
    let xml = document("5.1.6");
    assert!(xml.contains("http://gramps-project.org/xml/1.7.1/"));
}

#[test]
fn xml_escapes_special_characters() {
    let xml = escape_xml("AT&T test <value>");
    assert!(xml.contains("AT&amp;T"));
    assert!(xml.contains("&lt;value&gt;"));
    assert_eq!(xml, "AT&amp;T test &lt;value&gt;");
}

#[test]
fn escape_covers_all_five_characters() {
    assert_eq!(escape_xml(r#"a&b<c>d"e'f"#), "a&amp;b&lt;c&gt;d&quot;e&apos;f");
    assert_eq!(escape_xml("plain"), "plain");
    assert_eq!(escape_xml(""), "");
}

fn unescape(s: &str) -> String {
    s.replace("&lt;", "<")
        .replace("&gt;", ">")
        .replace("&quot;", "\"")
        .replace("&apos;", "'")
        .replace("&amp;", "&")
}

#[test]
fn escape_round_trips_concrete_values() {
    for s in ["AT&T", "<a href=\"x\">'q'</a>", "&amp;", "", "tom & jerry > 1"] {
        let e = escape_xml(s);
        assert!(!e.contains('<') && !e.contains('>') && !e.contains('"') && !e.contains('\''));
        assert_eq!(unescape(&e), s);
    }
}

fn tag(attrs: &[(&str, &str)]) -> XmlTag {
    XmlTag {
        name: b"dateval".to_vec(),
        attributes: attrs
            .iter()
            .map(|(k, v)| (k.as_bytes().to_vec(), v.as_bytes().to_vec()))
            .collect(),
    }
}

fn date(year: i32, month: Option<i32>, day: Option<i32>, text: Option<&str>) -> DateRecord {
    DateRecord {
        year,
        month,
        day,
        quality: None,
        modifier: None,
        text: text.map(|t| t.to_string()),
    }
}

/// Write a date as an element line, take back the `val` attribute as it
/// stands in the line, and read it as a `<dateval>` again.
fn roundtrip_date(d: DateRecord) -> DateRecord {
    let line = date_element_text("dateval", &Some(d));
    let start = line.find("val=\"").unwrap() + 5;
    let end = line[start..].find('"').unwrap() + start;
    let val = &line[start..end];
    parse_dateval(&tag(&[("val", val)])).expect("date read back")
}

fn assert_structured(rt: &DateRecord, year: i32, month: Option<i32>, day: Option<i32>) {
    assert_eq!(rt.year, year, "year mismatch");
    assert_eq!(rt.month, month, "month mismatch");
    assert_eq!(rt.day, day, "day mismatch");
}

#[test]
fn structured_full_ymd_round_trips() {
    let rt = roundtrip_date(date(1868, Some(9), Some(20), None));
    assert_structured(&rt, 1868, Some(9), Some(20));
    assert_eq!(rt.text.as_deref(), Some("1868-09-20"));
}

#[test]
fn structured_year_month_round_trips() {
    let rt = roundtrip_date(date(1890, Some(6), Some(15), None));
    assert_structured(&rt, 1890, Some(6), Some(15));
}

#[test]
fn structured_year_only_round_trips() {
    let rt = roundtrip_date(date(1871, None, None, None));
    assert_structured(&rt, 1871, None, None);
}

#[test]
fn modifier_text_survives_verbatim() {
    for val in ["abt 1868", "before 1900", "between 1800 and 1850", "1868/1869"] {
        let rt = roundtrip_date(date(0, None, None, Some(val)));
        assert_eq!(rt.text.as_deref(), Some(val), "text not preserved for {val:?}");
    }
}

#[test]
fn date_round_trip_property_preserves_structured_fields() {
    let mut n: u32 = 0;
    for year in (1500..=2100).step_by(7) {
        for k in 0..4 {
            n = n.wrapping_mul(1103515245).wrapping_add(12345);
            let month = if k > 0 { Some((n % 12 + 1) as i32) } else { None };
            let day = if k > 1 { Some((n / 12 % 28 + 1) as i32) } else { None };
            let rt = roundtrip_date(date(year, month, day, None));
            assert_structured(&rt, year, month, day);
        }
    }
}

#[test]
fn date_element_line_format() {
    assert_eq!(
        date_element_text("dateval", &Some(date(1868, Some(9), Some(20), None))),
        "      <dateval val=\"1868-09-20\"/>\n"
    );
    assert_eq!(
        date_element_text("dateval", &Some(date(42, Some(3), None, None))),
        "      <dateval val=\"0042-03\"/>\n"
    );
    assert_eq!(
        date_element_text("dateval", &Some(date(-5, None, None, None))),
        "      <dateval val=\"-005\"/>\n"
    );
    assert_eq!(
        date_element_text("dateval", &Some(date(1900, None, Some(4), None))),
        "      <dateval val=\"1900\"/>\n"
    );
    assert_eq!(
        date_element_text("dateval", &Some(date(0, None, None, Some("a<b")))),
        "      <dateval val=\"a&lt;b\"/>\n"
    );
    assert_eq!(date_element_text("dateval", &None), "");
}

#[test]
fn dateval_reads_quality_and_modifier() {
    let d = parse_dateval(&tag(&[("val", "1850-03-15 00:00:00"), ("quality", " Estimated "), ("type", "ABOUT")]))
        .unwrap();
    assert_eq!(d.year, 1850);
    assert_eq!(d.month, Some(3));
    assert_eq!(d.day, Some(15));
    assert_eq!(d.quality, Some(DateQuality::Estimated));
    assert_eq!(d.modifier, Some(DateModifier::About));
    assert_eq!(d.text.as_deref(), Some("1850-03-15 00:00:00"));
}

#[test]
fn dateval_defaults_and_prefixed_keys() {
    let d = parse_dateval(&tag(&[("ns:val", "1850")])).unwrap();
    assert_eq!(d.year, 1850);
    assert_eq!(d.month, None);
    assert_eq!(d.quality, Some(DateQuality::Exact));
    assert_eq!(d.modifier, Some(DateModifier::NoModifier));
    let d = parse_dateval(&tag(&[("val", "1850"), ("quality", "guess"), ("type", "none")])).unwrap();
    assert_eq!(d.quality, Some(DateQuality::Exact));
    assert_eq!(d.modifier, Some(DateModifier::NoModifier));
}

#[test]
fn dateval_without_val_is_none() {
    assert!(parse_dateval(&tag(&[])).is_none());
    assert!(parse_dateval(&tag(&[("quality", "exact")])).is_none());
}

#[test]
fn dateval_later_val_wins_and_bad_fields() {
    let d = parse_dateval(&tag(&[("val", "1700"), ("val", "1801-xx-07")])).unwrap();
    assert_eq!(d.year, 1801);
    assert_eq!(d.month, None);
    assert_eq!(d.day, Some(7));
    let d = parse_dateval(&tag(&[("val", "-1850")])).unwrap();
    assert_eq!(d.year, 0);
    assert_eq!(d.month, None);
    assert_eq!(d.text.as_deref(), Some("-1850"));
}

#[test]
fn trim_uses_unicode_whitespace() {
    assert_eq!(trim("\u{3000}a\u{85}"), "a");
    assert_eq!(trim("\u{2028} b \u{a0}"), "b");
    assert_eq!(trim("\u{200b}a"), "\u{200b}a");
    assert_eq!(trim(" \t\n"), "");
}
