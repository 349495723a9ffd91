use gramps_reader::parser::parse_graph;
use gramps_reader::error::Error;
use gramps_reader::repository_detail::{parse_repositories_detail, RepositoryDetail};
use gramps_reader::typed_values::{RepositoryType, UrlType};

fn with_db(body: &str) -> String {
    format!(
        r#"<?xml version="1.0" encoding="UTF-8"?>
<database xmlns="http://gramps-project.org/xml/1.7.2/">
  <header><created version="5.2"/></header>
{body}
</database>"#,
    )
}

fn single_repository_from_parser(xml: &str) -> RepositoryDetail {
    let mut rs = parse_repositories_detail(xml).unwrap();
    assert_eq!(rs.len(), 1, "expected exactly one repository");
    rs.remove(0)
}

#[test]
fn parse_repository_full() {
    let xml = with_db(
        r#"  <repositories>
    <repository handle="r0001">
      <name>Springfield Public Library</name>
      <type>Library</type>
      <address>
        <location>
          <city>Springfield</city>
          <country>USA</country>
        </location>
      </address>
      <url href="https://library.example.com" type="Web Home"/>
      <noteref hlink="n0001"/>
      <tagref hlink="t0001"/>
      <mediaref hlink="m0001"/>
    </repository>
  </repositories>"#,
    );
    let r = single_repository_from_parser(&xml);
    assert_eq!(r.handle, "r0001");
    assert_eq!(r.name.as_deref(), Some("Springfield Public Library"));
    assert_eq!(r.repo_type, Some(RepositoryType::Library));
    assert_eq!(r.addresses.len(), 1);
    assert_eq!(r.addresses[0].city.as_deref(), Some("Springfield"));
    assert_eq!(r.addresses[0].country.as_deref(), Some("USA"));
    assert_eq!(r.urls.len(), 1);
    assert_eq!(r.urls[0].href.as_deref(), Some("https://library.example.com"));
    assert_eq!(r.urls[0].url_type, Some(UrlType::WebHome));
    assert_eq!(r.notes, vec!["n0001"]);
    assert_eq!(r.tags, vec!["t0001"]);
    assert_eq!(r.media.len(), 1);
    assert_eq!(r.media[0], "m0001");
}

#[test]
fn parse_repository_minimal() {
    let xml = with_db(
        r#"  <repositories>
    <repository handle="r0002"/>
  </repositories>"#,
    );
    let r = single_repository_from_parser(&xml);
    assert_eq!(r.handle, "r0002");
    assert!(r.name.is_none());
    assert!(r.repo_type.is_none());
    assert!(r.addresses.is_empty());
    assert!(r.urls.is_empty());
}

#[test]
fn parse_repository_malformed_xml() {
    let xml = with_db(
        r#"  <repositories>
    <repository handle="r0003">
      <name>Broken
  </repositories>"#,
    );
    let result = parse_graph(&xml);
    assert!(matches!(result, Err(Error::XmlParseError { .. })));
}

#[test]
fn repositories_detail_url_element_and_unknown_type() {
    // A <url> with children takes its type at its end tag and keeps its
    // description; an empty <url> without href is dropped; an unknown type
    // text leaves no type.
    let xml = with_db(
        r#"  <repositories>
    <repository handle="r0004" id="R0004">
      <type>Bank</type>
      <url href="ftp://files.example.com" type="FTP"><desc>Files</desc></url>
      <url type="Email"/>
      <address><location><street>1 Main St</street><phone>555</phone></location></address>
    </repository>
  </repositories>"#,
    );
    let r = single_repository_from_parser(&xml);
    assert_eq!(r.gramps_id.as_deref(), Some("R0004"));
    assert_eq!(r.repo_type, None);
    assert_eq!(r.urls.len(), 1);
    assert_eq!(r.urls[0].href.as_deref(), Some("ftp://files.example.com"));
    assert_eq!(r.urls[0].url_type, Some(UrlType::FTP));
    assert_eq!(r.urls[0].desc.as_deref(), Some("Files"));
    assert_eq!(r.addresses.len(), 1);
    assert_eq!(r.addresses[0].street.as_deref(), Some("1 Main St"));
    assert_eq!(r.addresses[0].phone.as_deref(), Some("555"));
    assert!(r.addresses[0].city.is_none());
}
