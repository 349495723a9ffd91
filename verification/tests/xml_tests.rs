use gramps_reader::xml::{read_handle_attr, read_hlink_attr, strip_prefix, XmlTag};

/// A tag with the given raw name and attributes, as the reader gives it.
fn start_event(name: &str, attrs: &[(&str, &str)]) -> XmlTag {
    XmlTag {
        name: name.as_bytes().to_vec(),
        attributes: attrs.iter().map(|(k, v)| (k.as_bytes().to_vec(), v.as_bytes().to_vec())).collect(),
    }
}

#[test]
fn strip_prefix_with_prefix() {
    assert_eq!(strip_prefix(b"ns:person"), b"person");
}

#[test]
fn strip_prefix_without_prefix() {
    assert_eq!(strip_prefix(b"person"), b"person");
}

#[test]
fn strip_prefix_empty() {
    assert_eq!(strip_prefix(b""), b"");
}

#[test]
fn strip_prefix_just_colon() {
    assert_eq!(strip_prefix(b":"), b"");
}

#[test]
fn strip_prefix_last_colon_wins() {
    assert_eq!(strip_prefix(b"a:b:c"), b"c");
}

#[test]
fn read_handle_attr_plain() {
    let e = start_event("person", &[("handle", "p0001")]);
    assert_eq!(read_handle_attr(&e).as_deref(), Some("p0001"));
}

#[test]
fn read_handle_attr_namespace_prefixed() {
    let e = start_event("ns:person", &[("ns:handle", "p0001")]);
    assert_eq!(read_handle_attr(&e).as_deref(), Some("p0001"));
}

#[test]
fn read_handle_attr_missing() {
    let e = start_event("person", &[]);
    assert_eq!(read_handle_attr(&e), None);
}

#[test]
fn read_handle_attr_not_handle() {
    let e = start_event("person", &[("id", "xyz")]);
    assert_eq!(read_handle_attr(&e), None);
}

#[test]
fn read_hlink_attr_plain() {
    let e = start_event("father", &[("hlink", "p0001")]);
    assert_eq!(read_hlink_attr(&e).as_deref(), Some("p0001"));
}

#[test]
fn read_hlink_attr_namespace_prefixed() {
    let e = start_event("ns:father", &[("ns:hlink", "p0001")]);
    assert_eq!(read_hlink_attr(&e).as_deref(), Some("p0001"));
}

#[test]
fn read_hlink_attr_self_closing() {
    let e = start_event("childref", &[("hlink", "p0002")]);
    assert_eq!(read_hlink_attr(&e).as_deref(), Some("p0002"));
}

#[test]
fn read_hlink_attr_missing() {
    let e = start_event("father", &[]);
    assert_eq!(read_hlink_attr(&e), None);
}

#[test]
fn read_handle_attr_first_of_two() {
    let e = start_event("person", &[("handle", "first"), ("ns:handle", "second")]);
    assert_eq!(read_handle_attr(&e).as_deref(), Some("first"));
}

#[test]
fn read_handle_attr_invalid_utf8_is_replaced() {
    let e = XmlTag { name: b"person".to_vec(), attributes: vec![(b"handle".to_vec(), vec![b'p', 0xff])] };
    assert_eq!(read_handle_attr(&e).as_deref(), Some("p\u{fffd}"));
}
