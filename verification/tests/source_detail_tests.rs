use gramps_reader::parser::parse_graph;
use gramps_reader::error::Error;
use gramps_reader::source_detail::{parse_sources_detail, SourceDetail};
use gramps_reader::typed_values::{parse_repository_type, parse_source_media_type, RepositoryType, SourceMediaType};

fn with_db(body: &str) -> String {
    format!(
        r#"<?xml version="1.0" encoding="UTF-8"?>
<database xmlns="http://gramps-project.org/xml/1.7.2/">
  <header><created version="5.2"/></header>
{body}
</database>"#,
    )
}

fn single_source_from_parser(xml: &str) -> SourceDetail {
    let mut ss = parse_sources_detail(xml).unwrap();
    assert_eq!(ss.len(), 1, "expected exactly one source");
    ss.remove(0)
}

#[test]
fn parse_source_full() {
    let xml = with_db(
        r#"  <sources>
    <source handle="s0001">
      <title>Marriage Records of Springfield</title>
      <author>Jane Clerk</author>
      <pubinfo>City Hall, 1850</pubinfo>
      <reporef hlink="r0001" callnumber="AB-123" mediatype="Book"/>
      <noteref hlink="n0001"/>
      <tagref hlink="t0001"/>
      <mediaref hlink="m0001"/>
      <attribute type="Description" value="microfilm copy"/>
    </source>
  </sources>"#,
    );
    let s = single_source_from_parser(&xml);
    assert_eq!(s.handle, "s0001");
    assert_eq!(s.title, "Marriage Records of Springfield");
    assert_eq!(s.author.as_deref(), Some("Jane Clerk"));
    assert_eq!(s.pubinfo.as_deref(), Some("City Hall, 1850"));
    assert_eq!(s.repo_refs.len(), 1);
    assert_eq!(s.repo_refs[0].target, "r0001");
    assert_eq!(s.repo_refs[0].call_number.as_deref(), Some("AB-123"));
    assert_eq!(s.repo_refs[0].media_type, Some(SourceMediaType::Book));
    assert_eq!(s.notes, vec!["n0001"]);
    assert_eq!(s.tags, vec!["t0001"]);
    assert_eq!(s.media.len(), 1);
    assert_eq!(s.media[0], "m0001");
    assert_eq!(s.attributes.len(), 1);
    assert_eq!(s.attributes[0].value, "microfilm copy");
}

#[test]
fn parse_source_minimal() {
    let xml = with_db(
        r#"  <sources>
    <source handle="s0002"/>
  </sources>"#,
    );
    let s = single_source_from_parser(&xml);
    assert_eq!(s.handle, "s0002");
    assert!(s.title.is_empty());
    assert!(s.author.is_none());
    assert!(s.repo_refs.is_empty());
}

#[test]
fn parse_source_malformed_xml() {
    let xml = with_db(
        r#"  <sources>
    <source handle="s0003">
      <title>Broken
  </sources>"#,
    );
    let result = parse_graph(&xml);
    assert!(matches!(result, Err(Error::XmlParseError { .. })));
}

#[test]
fn sources_detail_reporef_without_hlink_and_unknown_media() {
    let xml = with_db(
        r#"  <sources>
    <source handle="s0004">
      <reporef callnumber="X" mediatype="scroll"/>
      <reporef hlink="r0002" mediatype=" Microfilm "/>
      <reporef hlink="r0003" mediatype=" FILM "/>
    </source>
  </sources>"#,
    );
    let s = single_source_from_parser(&xml);
    assert_eq!(s.repo_refs.len(), 3);
    assert_eq!(s.repo_refs[0].target, "");
    assert_eq!(s.repo_refs[0].call_number.as_deref(), Some("X"));
    assert_eq!(s.repo_refs[0].media_type, None);
    assert_eq!(s.repo_refs[1].media_type, None);
    assert_eq!(s.repo_refs[2].media_type, Some(SourceMediaType::Film));
}

#[test]
fn source_media_and_repository_type_tables() {
    assert_eq!(parse_source_media_type("cd"), Some(SourceMediaType::CD));
    assert_eq!(parse_source_media_type(" Map "), Some(SourceMediaType::MapSheet));
    assert_eq!(parse_source_media_type("tape"), None);
    assert_eq!(parse_repository_type("Court House"), Some(RepositoryType::CourtHouse));
    assert_eq!(parse_repository_type("historical_society"), Some(RepositoryType::HistoricalSociety));
    assert_eq!(parse_repository_type("bank"), None);
}
