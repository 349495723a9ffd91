use gramps_reader::citation_detail::{parse_citations_detail, CitationDetail};
use gramps_reader::error::Error;
use gramps_reader::parser::parse_graph;

fn with_db(body: &str) -> String {
    format!(
        r#"<?xml version="1.0" encoding="UTF-8"?>
<database xmlns="http://gramps-project.org/xml/1.7.2/">
  <header><created version="5.2"/></header>
{body}
</database>"#,
    )
}

fn single_citation_from_parser(xml: &str) -> CitationDetail {
    let mut cs = parse_citations_detail(xml).unwrap();
    assert_eq!(cs.len(), 1, "expected exactly one citation");
    cs.remove(0)
}

#[test]
fn parse_citation_full() {
    let xml = with_db(
        r#"  <citations>
    <citation handle="c0001">
      <sourceref hlink="s0001"/>
      <page>p. 42</page>
      <confidence>2</confidence>
      <noteref hlink="n0001"/>
      <tagref hlink="t0001"/>
      <mediaref hlink="m0001"/>
    </citation>
  </citations>"#,
    );
    let c = single_citation_from_parser(&xml);
    assert_eq!(c.handle, "c0001");
    assert_eq!(c.source.as_deref(), Some("s0001"));
    assert_eq!(c.page.as_deref(), Some("p. 42"));
    assert_eq!(c.confidence, Some(2));
    assert_eq!(c.notes, vec!["n0001"]);
    assert_eq!(c.tags, vec!["t0001"]);
    assert_eq!(c.media.len(), 1);
    assert_eq!(c.media[0], "m0001");
}

#[test]
fn parse_citation_minimal() {
    let xml = with_db(
        r#"  <citations>
    <citation handle="c0002"/>
  </citations>"#,
    );
    let c = single_citation_from_parser(&xml);
    assert_eq!(c.handle, "c0002");
    assert!(c.source.as_deref().unwrap_or("").is_empty());
    assert!(c.page.is_none());
    assert!(c.confidence.is_none());
}

#[test]
fn parse_citation_malformed_xml() {
    let xml = with_db(
        r#"  <citations>
    <citation handle="c0003">
      <page>Broken
  </citations>"#,
    );
    let result = parse_graph(&xml);
    assert!(matches!(result, Err(Error::XmlParseError { .. })));
}

#[test]
fn citations_detail_unreadable_confidence() {
    let xml = with_db(
        r#"  <citations>
    <citation handle="c0004"><confidence>high</confidence></citation>
    <citation handle="c0005"><confidence> -3 </confidence></citation>
  </citations>"#,
    );
    let cs = parse_citations_detail(&xml).unwrap();
    assert_eq!(cs.len(), 2);
    assert_eq!(cs[0].confidence, None);
    assert_eq!(cs[1].confidence, Some(-3));
}
