use gramps_reader::error::Error;
use gramps_reader::person_detail::parse_people_detail;
use gramps_reader::person_records::PersonDetail;
use gramps_reader::typed_values::{AttributeType, EventRoleType, FamilyRelType, LdsOrdType, NameType, UrlType};

fn with_db(body: &str) -> String {
    format!(
        r#"<?xml version="1.0" encoding="UTF-8"?>
<database xmlns="http://gramps-project.org/xml/1.7.2/">
  <header><created version="5.2"/></header>
{body}
</database>"#,
    )
}

fn persons_from(xml: &str) -> Vec<PersonDetail> {
    parse_people_detail(xml).unwrap()
}

fn single_person(xml: &str) -> PersonDetail {
    let mut ps = persons_from(xml);
    assert_eq!(ps.len(), 1, "expected exactly one person");
    ps.remove(0)
}

#[test]
fn parse_person_full() {
    let xml = with_db(
        r#"  <people>
    <person handle="p0001">
      <gender>M</gender>
      <name>
        <first>John</first>
        <surname>Smith</surname>
      </name>
      <eventref hlink="e0001" role="Primary"/>
      <eventref hlink="e0002"/>
    </person>
  </people>"#,
    );
    let p = single_person(&xml);
    assert_eq!(p.handle, "p0001");
    assert_eq!(p.primary_name.first_name.as_deref(), Some("John"));
    assert_eq!(p.primary_name.surnames.len(), 1);
    assert_eq!(p.primary_name.surnames[0].surname.as_deref(), Some("Smith"));
    assert_eq!(p.gender, 1);
    assert_eq!(p.event_refs.len(), 2);
    assert_eq!(p.event_refs[0].target, "e0001");
    assert_eq!(p.event_refs[0].role, Some(EventRoleType::Primary));
    assert_eq!(p.event_refs[1].target, "e0002");
}

#[test]
fn parse_person_minimal() {
    let xml = with_db(
        r#"  <people>
    <person handle="p0002"/>
  </people>"#,
    );
    let p = single_person(&xml);
    assert_eq!(p.handle, "p0002");
    assert!(p.primary_name.first_name.is_none());
    assert!(p.event_refs.is_empty());
}

#[test]
fn parse_person_alternate_names() {
    let xml = with_db(
        r#"  <people>
    <person handle="p0003">
      <gender>F</gender>
      <name>
        <first>Jane</first>
        <surname>Doe</surname>
      </name>
      <name type="aka">
        <first>Janey</first>
        <surname>Doe</surname>
      </name>
    </person>
  </people>"#,
    );
    let p = single_person(&xml);
    assert_eq!(p.handle, "p0003");
    assert_eq!(p.primary_name.first_name.as_deref(), Some("Jane"));
    assert_eq!(p.primary_name.surnames[0].surname.as_deref(), Some("Doe"));
    assert_eq!(p.alternate_names.len(), 1);
    assert_eq!(p.alternate_names[0].first_name.as_deref(), Some("Janey"));
    assert_eq!(p.alternate_names[0].name_type, Some(NameType::AlsoKnownAs));
    assert_eq!(p.gender, 2);
}

#[test]
fn parse_person_attributes() {
    let xml = with_db(
        r#"  <people>
    <person handle="p0004">
      <gender>M</gender>
      <name>
        <first>John</first>
        <surname>Smith</surname>
      </name>
      <attribute type="Profession" value="Farmer"/>
    </person>
  </people>"#,
    );
    let p = single_person(&xml);
    assert_eq!(p.attributes.len(), 1);
    assert_eq!(p.attributes[0].value, "Farmer");
    assert_eq!(p.attributes[0].attr_type, AttributeType::Profession);
}

#[test]
fn parse_person_urls() {
    let xml = with_db(
        r#"  <people>
    <person handle="p0005">
      <gender>M</gender>
      <name>
        <first>John</first>
        <surname>Smith</surname>
      </name>
      <url href="https://example.com" type="Web Home"/>
    </person>
  </people>"#,
    );
    let p = single_person(&xml);
    assert_eq!(p.urls.len(), 1);
    assert_eq!(p.urls[0].href.as_deref(), Some("https://example.com"));
    assert_eq!(p.urls[0].url_type, Some(UrlType::WebHome));
}

#[test]
fn parse_person_addresses() {
    let xml = with_db(
        r#"  <people>
    <person handle="p0006">
      <gender>M</gender>
      <name>
        <first>John</first>
        <surname>Smith</surname>
      </name>
      <address>
        <location>
          <city>Springfield</city>
          <country>USA</country>
        </location>
      </address>
    </person>
  </people>"#,
    );
    let p = single_person(&xml);
    assert_eq!(p.addresses.len(), 1);
    assert_eq!(p.addresses[0].city.as_deref(), Some("Springfield"));
    assert_eq!(p.addresses[0].country.as_deref(), Some("USA"));
}

#[test]
fn parse_person_refs() {
    let xml = with_db(
        r#"  <people>
    <person handle="p0007">
      <gender>M</gender>
      <name>
        <first>John</first>
        <surname>Smith</surname>
      </name>
      <citationref hlink="c0001"/>
      <noteref hlink="n0001"/>
      <tagref hlink="t0001"/>
    </person>
  </people>"#,
    );
    let p = single_person(&xml);
    assert_eq!(p.citations, vec!["c0001"]);
    assert_eq!(p.notes, vec!["n0001"]);
    assert_eq!(p.tags, vec!["t0001"]);
}

#[test]
fn parse_person_personref() {
    let xml = with_db(
        r#"  <people>
    <person handle="p0008">
      <gender>M</gender>
      <name>
        <first>John</first>
        <surname>Smith</surname>
      </name>
      <personref hlink="p0009" relation="Birth"/>
    </person>
  </people>"#,
    );
    let p = single_person(&xml);
    assert_eq!(p.person_refs.len(), 1);
    assert_eq!(p.person_refs[0].target, "p0009");
    assert_eq!(p.person_refs[0].relation, Some(FamilyRelType::Birth));
}

#[test]
fn parse_persons_multiple() {
    let xml = with_db(
        r#"  <people>
    <person handle="p1">
      <gender>M</gender>
      <name><first>Alice</first><surname>A</surname></name>
    </person>
    <person handle="p2">
      <gender>F</gender>
      <name><first>Bob</first><surname>B</surname></name>
    </person>
  </people>"#,
    );
    let ps = persons_from(&xml);
    assert_eq!(ps.len(), 2);
    let mut handles: Vec<&str> = ps.iter().map(|p| p.handle.as_str()).collect();
    handles.sort();
    assert_eq!(handles, vec!["p1", "p2"]);
}

#[test]
fn parse_persons_empty() {
    let xml = with_db(r#"  <people></people>"#);
    let ps = persons_from(&xml);
    assert!(ps.is_empty());
}

#[test]
fn parse_person_namespace_prefixed() {
    let xml = r#"<?xml version="1.0" encoding="UTF-8"?>
<ns:database xmlns:ns="http://gramps-project.org/xml/1.7.2/">
  <ns:header><ns:created ns:version="5.2"/></ns:header>
  <ns:people>
    <ns:person ns:handle="p0001">
      <ns:gender>M</ns:gender>
      <ns:name>
        <ns:first>John</ns:first>
        <ns:surname>Smith</ns:surname>
      </ns:name>
    </ns:person>
  </ns:people>
</ns:database>"#;
    let p = single_person(xml);
    assert_eq!(p.handle, "p0001");
    assert_eq!(p.primary_name.first_name.as_deref(), Some("John"));
}

#[test]
fn parse_person_malformed_xml() {
    let xml = with_db(r#"  <people><person handle="p1"><name></person></people>"#);
    let result = parse_people_detail(&xml);
    assert!(result.is_err(), "expected error for malformed XML");
}

#[test]
fn parse_no_people_section() {
    let xml = with_db("  <tags></tags>");
    let result = parse_people_detail(&xml);
    assert!(result.is_ok());
    assert_eq!(result.unwrap().len(), 0);
}

#[test]
fn parse_person_lds_ord() {
    let xml = with_db(
        r#"  <people>
    <person handle="p0010">
      <gender>M</gender>
      <name>
        <first>John</first>
        <surname>Smith</surname>
      </name>
      <lds_ord type="Baptism" status="completed" temple="SLC"/>
    </person>
  </people>"#,
    );
    let p = single_person(&xml);
    assert_eq!(p.lds_ords.len(), 1);
    assert_eq!(p.lds_ords[0].ord_type, Some(LdsOrdType::Baptism));
    assert_eq!(p.lds_ords[0].status.as_deref(), Some("completed"));
    assert_eq!(p.lds_ords[0].temple.as_deref(), Some("SLC"));
}

#[test]
fn parse_person_empty_handle() {
    let xml = with_db(
        r#"  <people>
    <person handle="">
      <gender>M</gender>
      <name><first>No</first><surname>Handle</surname></name>
    </person>
  </people>"#,
    );
    let p = single_person(&xml);
    assert!(p.handle.is_empty());
    assert_eq!(p.primary_name.first_name.as_deref(), Some("No"));
}

#[test]
fn parse_person_media_ref() {
    let xml = with_db(
        r#"  <people>
    <person handle="p0011">
      <gender>M</gender>
      <name><first>John</first><surname>Smith</surname></name>
      <mediaref hlink="m0001"/>
    </person>
  </people>"#,
    );
    let p = single_person(&xml);
    assert_eq!(p.media.len(), 1);
    assert_eq!(p.media[0], "m0001");
}

#[test]
fn person_detail_surname_attributes_and_nested_attribute() {
    let xml = with_db(
        r#"  <people>
    <person handle="p1" id="I1">
      <name type="Birth"><first>A</first><surname prefix="van" prim="true" origintype="Taken">Dijk</surname><surname prefix="de"/></name>
      <attribute><type>Caste</type><value>x</value></attribute>
      <url href="h" type="ftp"><desc>home</desc></url>
      <address><location><street>Main</street><phone>12</phone></location></address>
      <gender>u</gender>
    </person>
  </people>"#,
    );
    let p = single_person(&xml);
    assert_eq!(p.gramps_id.as_deref(), Some("I1"));
    assert_eq!(p.gender, 3);
    assert_eq!(p.primary_name.name_type, Some(NameType::Birth));
    let s = &p.primary_name.surnames;
    assert_eq!(s.len(), 1);
    assert_eq!(s[0].surname.as_deref(), Some("Dijk"));
    assert_eq!(s[0].prefix.as_deref(), Some("van"));
    assert_eq!(s[0].primary, Some(true));
    assert_eq!(p.attributes.len(), 1);
    assert_eq!(p.attributes[0].attr_type, AttributeType::Caste);
    assert_eq!(p.attributes[0].value, "x");
    assert_eq!(p.urls.len(), 1);
    assert_eq!(p.urls[0].url_type, Some(UrlType::FTP));
    assert_eq!(p.urls[0].desc.as_deref(), Some("home"));
    assert_eq!(p.addresses[0].street.as_deref(), Some("Main"));
    assert_eq!(p.addresses[0].phone.as_deref(), Some("12"));
}

#[test]
fn person_detail_unterminated_person_is_an_error() {
    match parse_people_detail("<database><people><person handle=\"p\">") {
        Err(Error::XmlParseError { .. }) => {}
        _ => panic!("expected XmlParseError"),
    }
}
