//! Reading persons in full detail from Gramps XML: names with their
//! surnames (prefix, primary flag, origin), gender, attributes, LDS
//! ordinances, addresses, URLs, and the references a person holds (events
//! with roles, other persons with relations, citations, notes, tags,
//! media).
//!
//! Inside a `<person>` element every event is folded into a person parse
//! state by `person_step`; the document scan (`detail_step`) tracks the
//! sections and hands the events of each person to it.

use vstd::prelude::*;
use crate::dates::lowered_trim;
use crate::error::Error;
use crate::extract::{handle_or_empty, unended_error, unended_message, unescape_text, unescaped_text};
use crate::graph_names::{
    kw_address, kw_attribute, kw_city, kw_citationref, kw_country, kw_county, kw_desc, kw_href,
    kw_id, kw_lds_ord, kw_locality, kw_location, kw_mediaref, kw_noteref, kw_people, kw_personref,
    kw_phone, kw_plac, kw_postal, kw_prefix, kw_prim, kw_origintype, kw_relation, kw_role,
    kw_state, kw_status, kw_street, kw_tagref, kw_temple, kw_url, kw_value, spec_kw_address,
    spec_kw_attribute, spec_kw_city, spec_kw_citationref, spec_kw_country, spec_kw_county,
    spec_kw_desc, spec_kw_href, spec_kw_id, spec_kw_lds_ord, spec_kw_locality, spec_kw_location,
    spec_kw_mediaref, spec_kw_noteref, spec_kw_people, spec_kw_personref, spec_kw_phone,
    spec_kw_plac, spec_kw_postal, spec_kw_prefix, spec_kw_prim, spec_kw_origintype,
    spec_kw_relation, spec_kw_role, spec_kw_state, spec_kw_status, spec_kw_street,
    spec_kw_tagref, spec_kw_temple, spec_kw_url, spec_kw_value,
};
use crate::names::{
    kw_eventref, kw_first, kw_gender, kw_name, kw_person, kw_surname, kw_type, spec_kw_eventref,
    spec_kw_first, spec_kw_gender, spec_kw_hlink, spec_kw_name, spec_kw_person, spec_kw_surname,
    spec_kw_type,
};
use crate::text::{str_chars, strings_equal, to_uppercase, trim, trimmed, raised};
use crate::types::opt_text;
use crate::person_records::{
    empty_location, empty_name, empty_surname, empty_url, AttributeRecord, AttributeView,
    EventRefRecord, EventRefView, LdsOrdRecord, LdsOrdView, LocationRecord, LocationView, NameRecord,
    NameView, PersonDetail, PersonDetailView, PersonRefRecord, PersonRefView, SurnameRecord,
    SurnameView, UrlRecord, UrlView,
};
use crate::typed_values::{
    attribute_type_of, event_role_of, family_rel_of, lds_ord_type_of, name_origin_of, name_type_of,
    parse_attribute_type, parse_event_role, parse_family_rel, parse_lds_ord_type, parse_name_origin,
    parse_name_type, parse_url_type, url_type_of, AttributeType, EventRoleType, FamilyRelType,
    LdsOrdType, NameOriginType, NameType, UrlType,
};
use crate::xml::{
    attr_text, bytes_eq, key_is, key_matches, local_name, lossy_utf8, read_attr, read_handle_attr,
    read_hlink_attr, strip_prefix, utf8_lossy, XmlTag, XmlTagView,
};
use crate::xml_reader::{xml_next_event, XmlCall, XmlCursor, XmlEvent, XmlEventView};

verus! {

// ---------------------------------------------------------------------------
// Reading attributes
// ---------------------------------------------------------------------------

/// The value of the last attribute named `kw` (bare or namespace-prefixed).
pub open spec fn attr_last(attrs: Seq<(Seq<u8>, Seq<u8>)>, kw: Seq<u8>) -> Option<Seq<char>>
    decreases attrs.len(),
{
    if attrs.len() == 0 {
        None
    } else if key_is(attrs.last().0, kw) {
        Some(lossy_utf8(attrs.last().1))
    } else {
        attr_last(attrs.drop_last(), kw)
    }
}

/// The text of an optional value, or the empty text.
pub open spec fn text_or_empty(v: Option<Seq<char>>) -> Seq<char> {
    match v {
        Some(t) => t,
        None => Seq::empty(),
    }
}

/// A `bool` as `str::parse` reads it: exactly `true` or `false`.
pub open spec fn bool_text(v: Option<Seq<char>>) -> Option<bool> {
    match v {
        Some(t) => if t == seq!['t', 'r', 'u', 'e'] {
            Some(true)
        } else if t == seq!['f', 'a', 'l', 's', 'e'] {
            Some(false)
        } else {
            None
        },
        None => None,
    }
}

/// The gender number of a text: trimmed and uppercased, `M` is 1, `F` is
/// 2, `U` is 3, anything else 0.
pub open spec fn gender_of(t: Seq<char>) -> i32 {
    let u = raised(trimmed(t));
    if u == seq!['M'] {
        1
    } else if u == seq!['F'] {
        2
    } else if u == seq!['U'] {
        3
    } else {
        0
    }
}

pub open spec fn opt_name_type(v: Option<Seq<char>>) -> Option<NameType> {
    match v {
        Some(t) => name_type_of(t),
        None => None,
    }
}

pub open spec fn opt_name_origin(v: Option<Seq<char>>) -> Option<NameOriginType> {
    match v {
        Some(t) => name_origin_of(t),
        None => None,
    }
}

pub open spec fn opt_role(v: Option<Seq<char>>) -> Option<EventRoleType> {
    match v {
        Some(t) => event_role_of(t),
        None => None,
    }
}

pub open spec fn opt_relation(v: Option<Seq<char>>) -> Option<FamilyRelType> {
    match v {
        Some(t) => family_rel_of(t),
        None => None,
    }
}

pub open spec fn opt_url_type(v: Option<Seq<char>>) -> Option<UrlType> {
    match v {
        Some(t) => url_type_of(t),
        None => None,
    }
}

pub open spec fn opt_lds_type(v: Option<Seq<char>>) -> Option<LdsOrdType> {
    match v {
        Some(t) => Some(lds_ord_type_of(t)),
        None => None,
    }
}

// ---------------------------------------------------------------------------
// The person parse
// ---------------------------------------------------------------------------





/// A person with the handle and id of its start tag and nothing else.
pub open spec fn new_person(tag: XmlTagView) -> PersonDetailView {
    PersonDetailView {
        handle: handle_or_empty(tag),
        gramps_id: attr_text(tag, spec_kw_id()),
        gender: 0,
        primary_name: empty_name(),
        alternate_names: Seq::empty(),
        attributes: Seq::empty(),
        lds_ords: Seq::empty(),
        addresses: Seq::empty(),
        urls: Seq::empty(),
        event_refs: Seq::empty(),
        person_refs: Seq::empty(),
        citations: Seq::empty(),
        notes: Seq::empty(),
        tags: Seq::empty(),
        media: Seq::empty(),
    }
}

/// Which elements of a person are being read.
#[derive(Clone, Copy)]
pub struct ParseFlags {
    pub in_name: bool,
    pub in_gender: bool,
    pub in_attribute: bool,
    pub in_address: bool,
    pub in_url: bool,
    pub in_surname: bool,
    pub in_first: bool,
    pub in_attr_type: bool,
    pub in_attr_value: bool,
    pub in_location: bool,
    pub in_city: bool,
    pub in_country: bool,
    pub in_county: bool,
    pub in_state: bool,
    pub in_street: bool,
    pub in_postal: bool,
    pub in_locality: bool,
    pub in_phone: bool,
    pub in_url_desc: bool,
}

/// No element being read.
pub open spec fn no_flags() -> ParseFlags {
    ParseFlags { in_name: false, in_gender: false, in_attribute: false, in_address: false, in_url: false, in_surname: false, in_first: false, in_attr_type: false, in_attr_value: false, in_location: false, in_city: false, in_country: false, in_county: false, in_state: false, in_street: false, in_postal: false, in_locality: false, in_phone: false, in_url_desc: false }
}

/// The state of reading one person: the person so far, the number of
/// names seen (counted up to two), which element's text is being read,
/// and the name, surname, attribute, address location and URL being read.
pub struct PersonParseView {
    pub person: PersonDetailView,
    pub names_seen: nat,
    pub flags: ParseFlags,
    pub name: NameView,
    pub surname: SurnameView,
    pub attr_type: Seq<char>,
    pub attr_value: Seq<char>,
    pub location: LocationView,
    pub url: UrlView,
    pub url_type: Option<Seq<char>>,
}

/// The state at a person's start tag.
pub open spec fn new_person_parse(tag: XmlTagView) -> PersonParseView { PersonParseView { person: new_person(tag), names_seen: 0, name: empty_name(), surname: empty_surname(), attr_type: Seq::empty(), attr_value: Seq::empty(), location: empty_location(), url: empty_url(), url_type: None, flags: no_flags() } }

/// The person with one more attribute of type text `t` and value `v`.
pub open spec fn push_attribute(p: PersonDetailView, t: Seq<char>, v: Seq<char>) -> PersonDetailView {
    PersonDetailView {
        attributes: p.attributes.push(AttributeView { attr_type: attribute_type_of(t), value: v }),
        ..p
    }
}

/// The LDS ordinance of an `<lds_ord>` tag's attributes.
pub open spec fn lds_of(a: Seq<(Seq<u8>, Seq<u8>)>) -> LdsOrdView {
    LdsOrdView {
        ord_type: opt_lds_type(attr_last(a, spec_kw_type())),
        status: attr_last(a, spec_kw_status()),
        temple: attr_last(a, spec_kw_temple()),
        place_handle: attr_last(a, spec_kw_plac()),
    }
}

/// Whether a local name is one of the eight location fields.
pub open spec fn location_field(n: Seq<u8>) -> bool {
    n == spec_kw_city() || n == spec_kw_country() || n == spec_kw_county() || n == spec_kw_state()
        || n == spec_kw_street() || n == spec_kw_postal() || n == spec_kw_locality() || n
        == spec_kw_phone()
}

/// The reading flags of the location fields after a start (`on`) or end
/// of the location field `n`.
/// The flags after a start (`on`) or end of the location field `n`.
pub open spec fn location_flags(f: ParseFlags, n: Seq<u8>, on: bool) -> ParseFlags {
    if n == spec_kw_city() {
        ParseFlags { in_city: on, ..f }
    } else if n == spec_kw_country() {
        ParseFlags { in_country: on, ..f }
    } else if n == spec_kw_county() {
        ParseFlags { in_county: on, ..f }
    } else if n == spec_kw_state() {
        ParseFlags { in_state: on, ..f }
    } else if n == spec_kw_street() {
        ParseFlags { in_street: on, ..f }
    } else if n == spec_kw_postal() {
        ParseFlags { in_postal: on, ..f }
    } else if n == spec_kw_locality() {
        ParseFlags { in_locality: on, ..f }
    } else {
        ParseFlags { in_phone: on, ..f }
    }
}

/// The state with other reading flags.
pub open spec fn with_flags(s: PersonParseView, f: ParseFlags) -> PersonParseView {
    PersonParseView { flags: f, ..s }
}

/// The start of a `<name>`: a new name of the tag's type, a fresh surname.
pub open spec fn start_name(s: PersonParseView, a: Seq<(Seq<u8>, Seq<u8>)>) -> PersonParseView {
    PersonParseView {
        names_seen: if s.names_seen >= 2 { 2 } else { s.names_seen + 1 },
        name: NameView { name_type: opt_name_type(attr_last(a, spec_kw_type())), ..empty_name() },
        surname: empty_surname(),
        flags: ParseFlags { in_name: true, ..s.flags },
        ..s
    }
}

/// The start of a `<surname>` inside a name.
pub open spec fn start_surname(s: PersonParseView, a: Seq<(Seq<u8>, Seq<u8>)>) -> PersonParseView {
    PersonParseView {
        surname: SurnameView {
            surname: None,
            prefix: attr_last(a, spec_kw_prefix()),
            primary: bool_text(attr_last(a, spec_kw_prim())),
            origin_type: opt_name_origin(attr_last(a, spec_kw_origintype())),
        },
        flags: ParseFlags { in_surname: true, ..s.flags },
        ..s
    }
}

/// The start of an `<attribute>`: its `type` and `value` attributes are
/// taken; when both are given the attribute is recorded at once.
pub open spec fn start_attribute(s: PersonParseView, a: Seq<(Seq<u8>, Seq<u8>)>) -> PersonParseView {
    let t = text_or_empty(attr_last(a, spec_kw_type()));
    let v = text_or_empty(attr_last(a, spec_kw_value()));
    if t.len() > 0 && v.len() > 0 {
        PersonParseView {
            attr_type: t,
            attr_value: v,
            person: push_attribute(s.person, t, v),
            flags: ParseFlags { in_attribute: false, ..s.flags },
            ..s
        }
    } else {
        PersonParseView { attr_type: t, attr_value: v, flags: ParseFlags { in_attribute: true, ..s.flags }, ..s }
    }
}

/// An LDS ordinance recorded from a tag's attributes.
pub open spec fn add_lds(s: PersonParseView, a: Seq<(Seq<u8>, Seq<u8>)>) -> PersonParseView {
    PersonParseView { person: PersonDetailView { lds_ords: s.person.lds_ords.push(lds_of(a)), ..s.person }, ..s }
}

/// The start of an `<address>`: a fresh location.
pub open spec fn start_address(s: PersonParseView) -> PersonParseView {
    PersonParseView { location: empty_location(), flags: ParseFlags { in_address: true, ..s.flags }, ..s }
}

/// The start of a `<url>`: its `href`, and its `type` kept until its end.
pub open spec fn start_url(s: PersonParseView, a: Seq<(Seq<u8>, Seq<u8>)>) -> PersonParseView {
    PersonParseView {
        url: UrlView { href: attr_last(a, spec_kw_href()), ..empty_url() },
        url_type: attr_last(a, spec_kw_type()),
        flags: ParseFlags { in_url: true, ..s.flags },
        ..s
    }
}

/// A start tag inside a person.
pub open spec fn person_start(s: PersonParseView, tag: XmlTagView) -> PersonParseView {
    let n = local_name(tag.0);
    let a = tag.1;
    let f = s.flags;
    if n == spec_kw_name() {
        start_name(s, a)
    } else if n == spec_kw_surname() && f.in_name {
        start_surname(s, a)
    } else if n == spec_kw_first() && f.in_name {
        with_flags(s, ParseFlags { in_first: true, ..f })
    } else if n == spec_kw_gender() {
        with_flags(s, ParseFlags { in_gender: true, ..f })
    } else if n == spec_kw_attribute() {
        start_attribute(s, a)
    } else if n == spec_kw_type() && f.in_attribute {
        with_flags(s, ParseFlags { in_attr_type: true, ..f })
    } else if n == spec_kw_value() && f.in_attribute {
        with_flags(s, ParseFlags { in_attr_value: true, ..f })
    } else if n == spec_kw_lds_ord() {
        add_lds(s, a)
    } else if n == spec_kw_address() {
        start_address(s)
    } else if n == spec_kw_location() && f.in_address {
        with_flags(s, ParseFlags { in_location: true, ..f })
    } else if location_field(n) && f.in_location {
        with_flags(s, location_flags(f, n, true))
    } else if n == spec_kw_url() {
        start_url(s, a)
    } else if n == spec_kw_desc() && f.in_url {
        with_flags(s, ParseFlags { in_url_desc: true, ..f })
    } else {
        s
    }
}

/// The person with one more event reference.
pub open spec fn with_event_ref(p: PersonDetailView, e: EventRefView) -> PersonDetailView {
    PersonDetailView { event_refs: p.event_refs.push(e), ..p }
}

/// The person with one more person reference.
pub open spec fn with_person_ref(p: PersonDetailView, r: PersonRefView) -> PersonDetailView {
    PersonDetailView { person_refs: p.person_refs.push(r), ..p }
}

/// The person with one more URL.
pub open spec fn with_url(p: PersonDetailView, u: UrlView) -> PersonDetailView {
    PersonDetailView { urls: p.urls.push(u), ..p }
}

/// The person after a simple reference element (`citationref`, `noteref`,
/// `tagref`, `mediaref`) with target `h`.
pub open spec fn with_simple_ref(p: PersonDetailView, n: Seq<u8>, h: Seq<char>) -> PersonDetailView {
    if n == spec_kw_citationref() {
        PersonDetailView { citations: p.citations.push(h), ..p }
    } else if n == spec_kw_noteref() {
        PersonDetailView { notes: p.notes.push(h), ..p }
    } else if n == spec_kw_tagref() {
        PersonDetailView { tags: p.tags.push(h), ..p }
    } else {
        PersonDetailView { media: p.media.push(h), ..p }
    }
}

/// Whether a local name is one of the simple reference elements.
pub open spec fn simple_ref(n: Seq<u8>) -> bool {
    n == spec_kw_citationref() || n == spec_kw_noteref() || n == spec_kw_tagref() || n == spec_kw_mediaref()
}

/// The person after an empty-element tag inside it.
pub open spec fn empty_person(p: PersonDetailView, tag: XmlTagView) -> PersonDetailView {
    let n = local_name(tag.0);
    let a = tag.1;
    let h = attr_text(tag, spec_kw_hlink());
    if n == spec_kw_eventref() {
        with_event_ref(p, EventRefView { target: text_or_empty(h), role: opt_role(attr_last(a, spec_kw_role())) })
    } else if simple_ref(n) {
        match h {
            Some(x) => with_simple_ref(p, n, x),
            None => p,
        }
    } else if n == spec_kw_personref() {
        with_person_ref(
            p,
            PersonRefView { target: text_or_empty(h), relation: opt_relation(attr_last(a, spec_kw_relation())) },
        )
    } else if n == spec_kw_attribute() {
        let t = text_or_empty(attr_last(a, spec_kw_type()));
        let v = text_or_empty(attr_last(a, spec_kw_value()));
        if t.len() > 0 || v.len() > 0 {
            push_attribute(p, t, v)
        } else {
            p
        }
    } else if n == spec_kw_url() {
        let href = text_or_empty(attr_last(a, spec_kw_href()));
        if href.len() > 0 {
            with_url(p, UrlView { href: Some(href), url_type: opt_url_type(attr_last(a, spec_kw_type())), desc: None })
        } else {
            p
        }
    } else if n == spec_kw_lds_ord() {
        PersonDetailView { lds_ords: p.lds_ords.push(lds_of(a)), ..p }
    } else {
        p
    }
}

/// An empty-element tag inside a person: only the person changes.
pub open spec fn person_empty(s: PersonParseView, tag: XmlTagView) -> PersonParseView {
    PersonParseView { person: empty_person(s.person, tag), ..s }
}

/// The location after text `t` is read for the field whose flag is set.
pub open spec fn location_text(l: LocationView, f: ParseFlags, t: Seq<char>) -> LocationView {
    if f.in_city {
        LocationView { city: Some(t), ..l }
    } else if f.in_country {
        LocationView { country: Some(t), ..l }
    } else if f.in_county {
        LocationView { county: Some(t), ..l }
    } else if f.in_state {
        LocationView { state: Some(t), ..l }
    } else if f.in_street {
        LocationView { street: Some(t), ..l }
    } else if f.in_postal {
        LocationView { postal: Some(t), ..l }
    } else if f.in_locality {
        LocationView { locality: Some(t), ..l }
    } else {
        LocationView { phone: Some(t), ..l }
    }
}

/// Whether one of the location fields is being read.
pub open spec fn in_location_field(f: ParseFlags) -> bool {
    f.in_city || f.in_country || f.in_county || f.in_state || f.in_street || f.in_postal || f.in_locality
        || f.in_phone
}

/// The trimmed, non-empty text `t` of a text event inside a person: it
/// goes to the first element being read, in this order: gender, given
/// name, surname, the location fields, attribute type and value, URL
/// description.
pub open spec fn person_text(s: PersonParseView, t: Seq<char>) -> PersonParseView {
    let f = s.flags;
    if f.in_gender {
        PersonParseView { person: PersonDetailView { gender: gender_of(t), ..s.person }, ..s }
    } else if f.in_first {
        PersonParseView { name: NameView { first_name: Some(t), ..s.name }, ..s }
    } else if f.in_surname {
        PersonParseView { surname: SurnameView { surname: Some(t), ..s.surname }, ..s }
    } else if in_location_field(f) {
        PersonParseView { location: location_text(s.location, f, t), ..s }
    } else if f.in_attr_type {
        PersonParseView { attr_type: t, ..s }
    } else if f.in_attr_value {
        PersonParseView { attr_value: t, ..s }
    } else if f.in_url_desc {
        PersonParseView { url: UrlView { desc: Some(t), ..s.url }, ..s }
    } else {
        s
    }
}

/// The name being read with its pending surname added, when that surname
/// has a text or a prefix.
pub open spec fn closed_name(s: PersonParseView) -> NameView {
    if s.surname.surname is Some || s.surname.prefix is Some {
        NameView { surnames: s.name.surnames.push(s.surname), ..s.name }
    } else {
        s.name
    }
}

/// The state after the end of a name being read: the name, with its
/// pending surname, becomes the primary name (the first name) or one more
/// alternate name.
pub open spec fn end_name(s: PersonParseView) -> PersonParseView {
    filed_name(PersonParseView { name: closed_name(s), ..s })
}

/// The name being read filed into the person: as the primary name when it
/// is the first name, else as one more alternate name; the name flags
/// cleared.
pub open spec fn filed_name(s: PersonParseView) -> PersonParseView {
    let g = PersonParseView {
        flags: ParseFlags { in_name: false, in_first: false, in_surname: false, ..s.flags },
        ..s
    };
    if s.names_seen == 1 {
        PersonParseView { person: PersonDetailView { primary_name: s.name, ..s.person }, ..g }
    } else {
        PersonParseView { person: PersonDetailView { alternate_names: s.person.alternate_names.push(s.name), ..s.person }, ..g }
    }
}

/// The end of a `<surname>` being read: it joins the name.
pub open spec fn end_surname(s: PersonParseView) -> PersonParseView {
    PersonParseView {
        name: NameView { surnames: s.name.surnames.push(s.surname), ..s.name },
        surname: empty_surname(),
        flags: ParseFlags { in_surname: false, ..s.flags },
        ..s
    }
}

/// The end of an `<attribute>`: the type and value read are recorded when
/// either is not empty.
pub open spec fn end_attribute(s: PersonParseView) -> PersonParseView {
    PersonParseView {
        person: if s.attr_type.len() > 0 || s.attr_value.len() > 0 {
            push_attribute(s.person, s.attr_type, s.attr_value)
        } else {
            s.person
        },
        flags: ParseFlags { in_attribute: false, in_attr_type: false, in_attr_value: false, ..s.flags },
        ..s
    }
}

/// The end of an `<address>`: its location is recorded.
pub open spec fn end_address(s: PersonParseView) -> PersonParseView {
    PersonParseView {
        person: PersonDetailView { addresses: s.person.addresses.push(s.location), ..s.person },
        flags: ParseFlags { in_address: false, in_location: false, ..s.flags },
        ..s
    }
}

/// The URL being read with the type kept from its start tag.
pub open spec fn closed_url(s: PersonParseView) -> UrlView {
    match s.url_type {
        Some(t) => UrlView { url_type: url_type_of(t), ..s.url },
        None => s.url,
    }
}

/// The end of a `<url>`: the URL is recorded.
pub open spec fn end_url(s: PersonParseView) -> PersonParseView {
    PersonParseView {
        person: with_url(s.person, closed_url(s)),
        url: closed_url(s),
        url_type: None,
        flags: ParseFlags { in_url: false, in_url_desc: false, ..s.flags },
        ..s
    }
}

/// An end tag of local name `n` inside a person (other than the person's
/// own end).
pub open spec fn person_end(s: PersonParseView, n: Seq<u8>) -> PersonParseView {
    let f = s.flags;
    if n == spec_kw_name() {
        if f.in_name {
            end_name(s)
        } else {
            s
        }
    } else if n == spec_kw_surname() {
        if f.in_surname {
            end_surname(s)
        } else {
            s
        }
    } else if n == spec_kw_first() {
        with_flags(s, ParseFlags { in_first: false, ..f })
    } else if n == spec_kw_gender() {
        with_flags(s, ParseFlags { in_gender: false, ..f })
    } else if n == spec_kw_attribute() {
        end_attribute(s)
    } else if n == spec_kw_type() && f.in_attr_type {
        with_flags(s, ParseFlags { in_attr_type: false, ..f })
    } else if n == spec_kw_value() && f.in_attr_value {
        with_flags(s, ParseFlags { in_attr_value: false, ..f })
    } else if n == spec_kw_address() {
        end_address(s)
    } else if n == spec_kw_location() {
        with_flags(s, ParseFlags { in_location: false, ..f })
    } else if location_field(n) {
        with_flags(s, location_flags(f, n, false))
    } else if n == spec_kw_url() {
        end_url(s)
    } else if n == spec_kw_desc() {
        with_flags(s, ParseFlags { in_url_desc: false, ..f })
    } else {
        s
    }
}

/// One event inside a person (other than the person's end tag).
pub open spec fn person_step(s: PersonParseView, ev: XmlEventView) -> PersonParseView {
    match ev {
        XmlEventView::Start(tag) => person_start(s, tag),
        XmlEventView::Empty(tag) => person_empty(s, tag),
        XmlEventView::Text(raw) => match unescaped_text(raw) {
            Some(t) => if trimmed(t).len() > 0 {
                person_text(s, trimmed(t))
            } else {
                s
            },
            None => s,
        },
        XmlEventView::End(name) => person_end(s, local_name(name)),
        _ => s,
    }
}

// ---------------------------------------------------------------------------
// The document scan
// ---------------------------------------------------------------------------

/// Whether a local name is one of the top-level section elements.
pub open spec fn detail_section(n: Seq<u8>) -> bool {
    n == crate::names::spec_kw_header() || n == crate::graph_names::spec_kw_tags()
        || n == crate::graph_names::spec_kw_events() || n == spec_kw_people()
        || n == crate::graph_names::spec_kw_families() || n == crate::graph_names::spec_kw_citations()
        || n == crate::graph_names::spec_kw_sources() || n == crate::graph_names::spec_kw_places()
        || n == crate::graph_names::spec_kw_objects() || n == crate::graph_names::spec_kw_repositories()
        || n == crate::graph_names::spec_kw_notes()
}

/// Abstract state of the document scan: whether the current section is
/// `<people>`, the person being read, and the persons read so far.
pub struct DetailScanView {
    pub in_people: bool,
    pub current: Option<PersonParseView>,
    pub persons: Seq<PersonDetailView>,
}

pub open spec fn detail_scan_start() -> DetailScanView {
    DetailScanView { in_people: false, current: None, persons: Seq::empty() }
}

/// One step of the document scan.
pub open spec fn detail_step(s: DetailScanView, ev: XmlEventView) -> DetailScanView {
    match s.current {
        Some(pp) => match ev {
            XmlEventView::End(name) => if local_name(name) == spec_kw_person() {
                DetailScanView { persons: s.persons.push(pp.person), current: None, ..s }
            } else {
                DetailScanView { current: Some(person_step(pp, ev)), ..s }
            },
            _ => DetailScanView { current: Some(person_step(pp, ev)), ..s },
        },
        None => match ev {
            XmlEventView::Start(tag) => {
                let n = local_name(tag.0);
                if detail_section(n) {
                    DetailScanView { in_people: n == spec_kw_people(), ..s }
                } else if n == spec_kw_person() && s.in_people {
                    DetailScanView { current: Some(new_person_parse(tag)), ..s }
                } else {
                    s
                }
            },
            XmlEventView::Empty(tag) => if local_name(tag.0) == spec_kw_person() && s.in_people {
                DetailScanView { persons: s.persons.push(new_person(tag)), ..s }
            } else {
                s
            },
            XmlEventView::End(name) => if detail_section(local_name(name)) {
                DetailScanView { in_people: false, ..s }
            } else {
                s
            },
            _ => s,
        },
    }
}

/// The message when the document ends inside a person.
pub open spec fn person_eof_message() -> Seq<char> {
    "unexpected end of file while parsing person"@
}

/// The persons read from a document: the scan run over the events the
/// reader returns for `input` after `calls`, from state `s`, taking at
/// most `fuel` events other than the end.
pub open spec fn scan_detail(input: Seq<char>, calls: Seq<XmlCall>, s: DetailScanView, fuel: nat) -> Result<
    Seq<PersonDetailView>,
    Seq<char>,
>
    decreases fuel,
{
    match xml_next_event(input, calls) {
        Err(m) => Err(m),
        Ok(XmlEventView::Eof) => if s.current is Some {
            Err(person_eof_message())
        } else {
            Ok(s.persons)
        },
        Ok(ev) => if fuel == 0 {
            Err(unended_message())
        } else {
            scan_detail(input, calls.push(XmlCall::NextEvent), detail_step(s, ev), (fuel - 1) as nat)
        },
    }
}


// ---------------------------------------------------------------------------
// Executable reading
// ---------------------------------------------------------------------------

pub(crate) fn read_attr_last(tag: &XmlTag, kw: &[u8]) -> (r: Option<String>)
    ensures
        opt_text(r) == attr_last(tag@.1, kw@),
{
    let ghost av = tag@.1;
    let mut i: usize = tag.attributes.len();
    assert(av.take(av.len() as int) =~= av);
    while i > 0
        invariant
            av == tag@.1,
            i <= tag.attributes.len(),
            attr_last(av, kw@) == attr_last(av.take(i as int), kw@),
        decreases i,
    {
        let (k, v) = &tag.attributes[i - 1];
        assert(av[i - 1] == (k@, v@));
        assert(av.take(i as int).last() == av[i - 1]);
        assert(av.take(i as int).drop_last() =~= av.take(i - 1));
        if key_matches(k.as_slice(), kw) {
            return Some(utf8_lossy(v.as_slice()));
        }
        i = i - 1;
    }
    assert(av.take(0) =~= Seq::<(Seq<u8>, Seq<u8>)>::empty());
    None
}

pub(crate) fn or_empty(v: Option<String>) -> (r: String)
    ensures
        r@ == text_or_empty(opt_text(v)),
{
    match v {
        Some(t) => t,
        None => String::new(),
    }
}

fn parse_bool(v: Option<String>) -> (r: Option<bool>)
    ensures
        r == bool_text(opt_text(v)),
{
    match v {
        Some(t) => {
            let cs = str_chars(t.as_str());
            let a: [char; 4] = ['t', 'r', 'u', 'e'];
            let b: [char; 5] = ['f', 'a', 'l', 's', 'e'];
            assert(a@ =~= seq!['t', 'r', 'u', 'e']);
            assert(b@ =~= seq!['f', 'a', 'l', 's', 'e']);
            if crate::text::chars_eq(cs.as_slice(), a.as_slice()) {
                Some(true)
            } else if crate::text::chars_eq(cs.as_slice(), b.as_slice()) {
                Some(false)
            } else {
                None
            }
        },
        None => None,
    }
}

fn parse_gender(t: &str) -> (r: i32)
    ensures
        r == gender_of(t@),
{
    let tt = trim(t);
    let u = to_uppercase(tt.as_str());
    let cs = str_chars(u.as_str());
    let m: [char; 1] = ['M'];
    let f: [char; 1] = ['F'];
    let x: [char; 1] = ['U'];
    assert(m@ =~= seq!['M']);
    assert(f@ =~= seq!['F']);
    assert(x@ =~= seq!['U']);
    if crate::text::chars_eq(cs.as_slice(), m.as_slice()) {
        1
    } else if crate::text::chars_eq(cs.as_slice(), f.as_slice()) {
        2
    } else if crate::text::chars_eq(cs.as_slice(), x.as_slice()) {
        3
    } else {
        0
    }
}

fn opt_parse_name_type(v: Option<String>) -> (r: Option<NameType>)
    ensures
        r == opt_name_type(opt_text(v)),
{
    match v {
        Some(t) => parse_name_type(t.as_str()),
        None => None,
    }
}

fn opt_parse_name_origin(v: Option<String>) -> (r: Option<NameOriginType>)
    ensures
        r == opt_name_origin(opt_text(v)),
{
    match v {
        Some(t) => parse_name_origin(t.as_str()),
        None => None,
    }
}

pub(crate) fn opt_parse_role(v: Option<String>) -> (r: Option<EventRoleType>)
    ensures
        r == opt_role(opt_text(v)),
{
    match v {
        Some(t) => parse_event_role(t.as_str()),
        None => None,
    }
}

fn opt_parse_relation(v: Option<String>) -> (r: Option<FamilyRelType>)
    ensures
        r == opt_relation(opt_text(v)),
{
    match v {
        Some(t) => parse_family_rel(t.as_str()),
        None => None,
    }
}

fn opt_parse_url_type(v: Option<String>) -> (r: Option<UrlType>)
    ensures
        r == opt_url_type(opt_text(v)),
{
    match v {
        Some(t) => parse_url_type(t.as_str()),
        None => None,
    }
}

fn read_lds(tag: &XmlTag) -> (r: LdsOrdRecord)
    ensures
        r@ == lds_of(tag@.1),
{
    let t = read_attr_last(tag, kw_type().as_slice());
    let ord_type = match t {
        Some(x) => Some(parse_lds_ord_type(x.as_str())),
        None => None,
    };
    LdsOrdRecord::new(
        ord_type,
        read_attr_last(tag, kw_status().as_slice()),
        read_attr_last(tag, kw_temple().as_slice()),
        read_attr_last(tag, kw_plac().as_slice()),
    )
}

fn new_person_record(tag: &XmlTag) -> (r: PersonDetail)
    ensures
        r@ == new_person(tag@),
{
    let handle = match read_handle_attr(tag) {
        Some(h) => h,
        None => String::new(),
    };
    let gramps_id = read_attr(tag, kw_id().as_slice());
    PersonDetail::new(handle, gramps_id)
}

fn add_attribute(p: PersonDetail, t: &String, v: &String) -> (r: PersonDetail)
    ensures
        r@ == push_attribute(p@, t@, v@),
{
    let a = AttributeRecord::new(parse_attribute_type(t.as_str()), v.clone());
    p.push_attribute(a)
}

fn is_location_field(n: &[u8]) -> (b: bool)
    ensures
        b == location_field(n@),
{
    bytes_eq(n, kw_city().as_slice()) || bytes_eq(n, kw_country().as_slice()) || bytes_eq(n, kw_county().as_slice())
        || bytes_eq(n, kw_state().as_slice()) || bytes_eq(n, kw_street().as_slice()) || bytes_eq(
        n,
        kw_postal().as_slice(),
    ) || bytes_eq(n, kw_locality().as_slice()) || bytes_eq(n, kw_phone().as_slice())
}

fn set_location_flags(f: ParseFlags, n: &[u8], on: bool) -> (r: ParseFlags)
    ensures
        r == location_flags(f, n@, on),
{
    if bytes_eq(n, kw_city().as_slice()) {
        ParseFlags { in_city: on, ..f }
    } else if bytes_eq(n, kw_country().as_slice()) {
        ParseFlags { in_country: on, ..f }
    } else if bytes_eq(n, kw_county().as_slice()) {
        ParseFlags { in_county: on, ..f }
    } else if bytes_eq(n, kw_state().as_slice()) {
        ParseFlags { in_state: on, ..f }
    } else if bytes_eq(n, kw_street().as_slice()) {
        ParseFlags { in_street: on, ..f }
    } else if bytes_eq(n, kw_postal().as_slice()) {
        ParseFlags { in_postal: on, ..f }
    } else if bytes_eq(n, kw_locality().as_slice()) {
        ParseFlags { in_locality: on, ..f }
    } else {
        ParseFlags { in_phone: on, ..f }
    }
}

/// The state of reading one person.
pub struct PersonParse {
    person: PersonDetail,
    names_seen: u8,
    flags: ParseFlags,
    name: NameRecord,
    surname: SurnameRecord,
    attr_type: String,
    attr_value: String,
    location: LocationRecord,
    url: UrlRecord,
    url_type: Option<String>,
}

impl View for PersonParse {
    type V = PersonParseView;

    closed spec fn view(&self) -> PersonParseView {
        PersonParseView {
            person: self.person@,
            names_seen: self.names_seen as nat,
            flags: self.flags,
            name: self.name@,
            surname: self.surname@,
            attr_type: self.attr_type@,
            attr_value: self.attr_value@,
            location: self.location@,
            url: self.url@,
            url_type: opt_text(self.url_type),
        }
    }
}

fn empty_person_exec(p: PersonDetail, tag: &XmlTag) -> (r: PersonDetail)
    ensures
        r@ == empty_person(p@, tag@),
{
    let n = strip_prefix(tag.name.as_slice());
    if bytes_eq(n, kw_eventref().as_slice()) {
        let target = or_empty(read_hlink_attr(tag));
        let role = opt_parse_role(read_attr_last(tag, kw_role().as_slice()));
        p.push_event_ref(EventRefRecord::new(target, role))
    } else if bytes_eq(n, kw_citationref().as_slice()) || bytes_eq(n, kw_noteref().as_slice()) || bytes_eq(
        n,
        kw_tagref().as_slice(),
    ) || bytes_eq(n, kw_mediaref().as_slice()) {
        match read_hlink_attr(tag) {
            Some(h) => {
                if bytes_eq(n, kw_citationref().as_slice()) {
                    p.push_citation(h)
                } else if bytes_eq(n, kw_noteref().as_slice()) {
                    p.push_note(h)
                } else if bytes_eq(n, kw_tagref().as_slice()) {
                    p.push_tag(h)
                } else {
                    p.push_media(h)
                }
            },
            None => p,
        }
    } else if bytes_eq(n, kw_personref().as_slice()) {
        let target = or_empty(read_hlink_attr(tag));
        let relation = opt_parse_relation(read_attr_last(tag, kw_relation().as_slice()));
        p.push_person_ref(PersonRefRecord::new(target, relation))
    } else if bytes_eq(n, kw_attribute().as_slice()) {
        let t = or_empty(read_attr_last(tag, kw_type().as_slice()));
        let v = or_empty(read_attr_last(tag, kw_value().as_slice()));
        if !t.as_str().is_empty() || !v.as_str().is_empty() {
            add_attribute(p, &t, &v)
        } else {
            p
        }
    } else if bytes_eq(n, kw_url().as_slice()) {
        let href = or_empty(read_attr_last(tag, kw_href().as_slice()));
        if !href.as_str().is_empty() {
            let ut = opt_parse_url_type(read_attr_last(tag, kw_type().as_slice()));
            p.push_url(UrlRecord::new(Some(href), ut, None))
        } else {
            p
        }
    } else if bytes_eq(n, kw_lds_ord().as_slice()) {
        p.push_lds_ord(read_lds(tag))
    } else {
        p
    }
}

fn location_text_exec(l: LocationRecord, f: ParseFlags, t: String) -> (r: LocationRecord)
    requires
        in_location_field(f),
    ensures
        r@ == location_text(l@, f, t@),
{
    if f.in_city {
        l.set_city(t)
    } else if f.in_country {
        l.set_country(t)
    } else if f.in_county {
        l.set_county(t)
    } else if f.in_state {
        l.set_state(t)
    } else if f.in_street {
        l.set_street(t)
    } else if f.in_postal {
        l.set_postal(t)
    } else if f.in_locality {
        l.set_locality(t)
    } else {
        l.set_phone(t)
    }
}

fn attribute_person(p: PersonDetail, t: &String, v: &String) -> (r: PersonDetail)
    ensures
        r@ == (if t@.len() > 0 || v@.len() > 0 {
            push_attribute(p@, t@, v@)
        } else {
            p@
        }),
{
    if !t.as_str().is_empty() || !v.as_str().is_empty() {
        add_attribute(p, t, v)
    } else {
        p
    }
}

impl PersonParse {
    /// The state at a person's start tag.
    pub fn new(tag: &XmlTag) -> (r: Self)
        ensures
            r@ == new_person_parse(tag@),
    {
        PersonParse {
            person: new_person_record(tag),
            names_seen: 0,
            flags: ParseFlags {
                in_name: false,
                in_gender: false,
                in_attribute: false,
                in_address: false,
                in_url: false,
                in_surname: false,
                in_first: false,
                in_attr_type: false,
                in_attr_value: false,
                in_location: false,
                in_city: false,
                in_country: false,
                in_county: false,
                in_state: false,
                in_street: false,
                in_postal: false,
                in_locality: false,
                in_phone: false,
                in_url_desc: false,
            },
            name: NameRecord::new(None),
            surname: SurnameRecord::empty(),
            attr_type: String::new(),
            attr_value: String::new(),
            location: LocationRecord::empty(),
            url: UrlRecord::new(None, None, None),
            url_type: None,
        }
    }

    fn set_flags(self, f: ParseFlags) -> (r: Self)
        ensures
            r@ == with_flags(self@, f),
    {
        let mut s = self;
        s.flags = f;
        s
    }

    fn start_name(self, tag: &XmlTag) -> (r: Self)
        ensures
            r@ == start_name(self@, tag@.1),
    {
        let mut s = self;
        s.names_seen = if s.names_seen >= 2 { 2 } else { s.names_seen + 1 };
        s.name = NameRecord::new(opt_parse_name_type(read_attr_last(tag, kw_type().as_slice())));
        s.surname = SurnameRecord::empty();
        s.flags = ParseFlags { in_name: true, ..s.flags };
        s
    }

    fn start_surname(self, tag: &XmlTag) -> (r: Self)
        ensures
            r@ == start_surname(self@, tag@.1),
    {
        let mut s = self;
        s.surname = SurnameRecord::new(
            read_attr_last(tag, kw_prefix().as_slice()),
            parse_bool(read_attr_last(tag, kw_prim().as_slice())),
            opt_parse_name_origin(read_attr_last(tag, kw_origintype().as_slice())),
        );
        s.flags = ParseFlags { in_surname: true, ..s.flags };
        s
    }

    fn start_attribute(self, tag: &XmlTag) -> (r: Self)
        ensures
            r@ == start_attribute(self@, tag@.1),
    {
        let mut s = self;
        let t = or_empty(read_attr_last(tag, kw_type().as_slice()));
        let v = or_empty(read_attr_last(tag, kw_value().as_slice()));
        let both = !t.as_str().is_empty() && !v.as_str().is_empty();
        s.person = if both { add_attribute(s.person, &t, &v) } else { s.person };
        s.flags = ParseFlags { in_attribute: !both, ..s.flags };
        s.attr_type = t;
        s.attr_value = v;
        s
    }

    fn add_lds(self, tag: &XmlTag) -> (r: Self)
        ensures
            r@ == add_lds(self@, tag@.1),
    {
        let mut s = self;
        s.person = s.person.push_lds_ord(read_lds(tag));
        s
    }

    fn start_address(self) -> (r: Self)
        ensures
            r@ == start_address(self@),
    {
        let mut s = self;
        s.location = LocationRecord::empty();
        s.flags = ParseFlags { in_address: true, ..s.flags };
        s
    }

    fn start_url(self, tag: &XmlTag) -> (r: Self)
        ensures
            r@ == start_url(self@, tag@.1),
    {
        let mut s = self;
        s.url = UrlRecord::new(read_attr_last(tag, kw_href().as_slice()), None, None);
        s.url_type = read_attr_last(tag, kw_type().as_slice());
        s.flags = ParseFlags { in_url: true, ..s.flags };
        s
    }

    fn start(self, tag: &XmlTag) -> (r: Self)
        ensures
            r@ == person_start(self@, tag@),
    {
        let n = strip_prefix(tag.name.as_slice());
        let f = self.flags;
        if bytes_eq(n, kw_name().as_slice()) {
            self.start_name(tag)
        } else if bytes_eq(n, kw_surname().as_slice()) && f.in_name {
            self.start_surname(tag)
        } else if bytes_eq(n, kw_first().as_slice()) && f.in_name {
            self.set_flags(ParseFlags { in_first: true, ..f })
        } else if bytes_eq(n, kw_gender().as_slice()) {
            self.set_flags(ParseFlags { in_gender: true, ..f })
        } else if bytes_eq(n, kw_attribute().as_slice()) {
            self.start_attribute(tag)
        } else if bytes_eq(n, kw_type().as_slice()) && f.in_attribute {
            self.set_flags(ParseFlags { in_attr_type: true, ..f })
        } else if bytes_eq(n, kw_value().as_slice()) && f.in_attribute {
            self.set_flags(ParseFlags { in_attr_value: true, ..f })
        } else if bytes_eq(n, kw_lds_ord().as_slice()) {
            self.add_lds(tag)
        } else if bytes_eq(n, kw_address().as_slice()) {
            self.start_address()
        } else if bytes_eq(n, kw_location().as_slice()) && f.in_address {
            self.set_flags(ParseFlags { in_location: true, ..f })
        } else if is_location_field(n) && f.in_location {
            let g = set_location_flags(f, n, true);
            self.set_flags(g)
        } else if bytes_eq(n, kw_url().as_slice()) {
            self.start_url(tag)
        } else if bytes_eq(n, kw_desc().as_slice()) && f.in_url {
            self.set_flags(ParseFlags { in_url_desc: true, ..f })
        } else {
            self
        }
    }

    fn empty(self, tag: &XmlTag) -> (r: Self)
        ensures
            r@ == person_empty(self@, tag@),
    {
        let mut s = self;
        s.person = empty_person_exec(s.person, tag);
        s
    }

    fn text(self, t: String) -> (r: Self)
        ensures
            r@ == person_text(self@, t@),
    {
        let mut s = self;
        let f = s.flags;
        if f.in_gender {
            let g = parse_gender(t.as_str());
            s.person = s.person.set_gender(g);
        } else if f.in_first {
            s.name = s.name.set_first(t);
        } else if f.in_surname {
            s.surname = s.surname.set_surname(t);
        } else if f.in_city || f.in_country || f.in_county || f.in_state || f.in_street || f.in_postal
            || f.in_locality || f.in_phone {
            s.location = location_text_exec(s.location, f, t);
        } else if f.in_attr_type {
            s.attr_type = t;
        } else if f.in_attr_value {
            s.attr_value = t;
        } else if f.in_url_desc {
            s.url = s.url.set_desc(t);
        }
        s
    }

    fn close_surname(self) -> (r: Self)
        ensures
            r@ == (PersonParseView { name: closed_name(self@), ..self@ }),
    {
        let mut s = self;
        if s.surname.has_text_or_prefix() {
            let sn = s.surname.clone_record();
            s.name = s.name.push_surname(sn);
        }
        s
    }

    fn file_primary(self) -> (r: Self)
        ensures
            r@ == (PersonParseView { person: PersonDetailView { primary_name: self@.name, ..self@.person }, ..self@ }),
    {
        let mut s = self;
        let nm = s.name.clone_record();
        s.person = s.person.set_primary_name(nm);
        s
    }

    fn file_alternate(self) -> (r: Self)
        ensures
            r@ == (PersonParseView {
                person: PersonDetailView { alternate_names: self@.person.alternate_names.push(self@.name), ..self@.person },
                ..self@
            }),
    {
        let mut s = self;
        let nm = s.name.clone_record();
        s.person = s.person.push_alternate_name(nm);
        s
    }

    fn file_name(self) -> (r: Self)
        ensures
            r@ == filed_name(self@),
    {
        let mut s = self;
        s.flags = ParseFlags { in_name: false, in_first: false, in_surname: false, ..s.flags };
        if s.names_seen == 1 {
            s.file_primary()
        } else {
            s.file_alternate()
        }
    }

    fn end_name(self) -> (r: Self)
        ensures
            r@ == end_name(self@),
    {
        let s = self.close_surname();
        s.file_name()
    }

    fn end_surname(self) -> (r: Self)
        ensures
            r@ == end_surname(self@),
    {
        let mut s = self;
        let sn = s.surname.clone_record();
        s.surname = SurnameRecord::empty();
        s.name = s.name.push_surname(sn);
        s.flags = ParseFlags { in_surname: false, ..s.flags };
        s
    }

    fn end_attribute(self) -> (r: Self)
        ensures
            r@ == end_attribute(self@),
    {
        let mut s = self;
        s.person = attribute_person(s.person, &s.attr_type, &s.attr_value);
        s.flags = ParseFlags { in_attribute: false, in_attr_type: false, in_attr_value: false, ..s.flags };
        s
    }

    fn end_address(self) -> (r: Self)
        ensures
            r@ == end_address(self@),
    {
        let mut s = self;
        let l = s.location.clone_record();
        s.person = s.person.push_address(l);
        s.flags = ParseFlags { in_address: false, in_location: false, ..s.flags };
        s
    }

    fn closed_url_record(&self) -> (r: UrlRecord)
        ensures
            r@ == closed_url(self@),
    {
        match &self.url_type {
            Some(t) => self.url.clone_record().set_url_type(parse_url_type(t.as_str())),
            None => self.url.clone_record(),
        }
    }

    fn end_url(self) -> (r: Self)
        ensures
            r@ == end_url(self@),
    {
        let mut s = self;
        let u = s.closed_url_record();
        s.person = s.person.push_url(u.clone_record());
        s.url = u;
        s.url_type = None;
        s.flags = ParseFlags { in_url: false, in_url_desc: false, ..s.flags };
        s
    }

    fn end(self, n: &[u8]) -> (r: Self)
        ensures
            r@ == person_end(self@, n@),
    {
        let f = self.flags;
        if bytes_eq(n, kw_name().as_slice()) {
            if f.in_name {
                self.end_name()
            } else {
                self
            }
        } else if bytes_eq(n, kw_surname().as_slice()) {
            if f.in_surname {
                self.end_surname()
            } else {
                self
            }
        } else if bytes_eq(n, kw_first().as_slice()) {
            self.set_flags(ParseFlags { in_first: false, ..f })
        } else if bytes_eq(n, kw_gender().as_slice()) {
            self.set_flags(ParseFlags { in_gender: false, ..f })
        } else if bytes_eq(n, kw_attribute().as_slice()) {
            self.end_attribute()
        } else if bytes_eq(n, kw_type().as_slice()) && f.in_attr_type {
            self.set_flags(ParseFlags { in_attr_type: false, ..f })
        } else if bytes_eq(n, kw_value().as_slice()) && f.in_attr_value {
            self.set_flags(ParseFlags { in_attr_value: false, ..f })
        } else if bytes_eq(n, kw_address().as_slice()) {
            self.end_address()
        } else if bytes_eq(n, kw_location().as_slice()) {
            self.set_flags(ParseFlags { in_location: false, ..f })
        } else if is_location_field(n) {
            let g = set_location_flags(f, n, false);
            self.set_flags(g)
        } else if bytes_eq(n, kw_url().as_slice()) {
            self.end_url()
        } else if bytes_eq(n, kw_desc().as_slice()) {
            self.set_flags(ParseFlags { in_url_desc: false, ..f })
        } else {
            self
        }
    }

    /// Fold one event inside the person (other than its end tag) into the
    /// state (see `person_step`).
    pub fn step(self, ev: &XmlEvent) -> (r: Self)
        ensures
            r@ == person_step(self@, ev@),
    {
        match ev {
            XmlEvent::Start(tag) => self.start(tag),
            XmlEvent::Empty(tag) => self.empty(tag),
            XmlEvent::Text(raw) => {
                match unescape_text(raw.as_slice()) {
                    Some(t) => {
                        let tt = trim(t.as_str());
                        if !tt.as_str().is_empty() {
                            self.text(tt)
                        } else {
                            self
                        }
                    },
                    None => self,
                }
            },
            XmlEvent::End(name) => {
                let n = strip_prefix(name.as_slice());
                self.end(n)
            },
            _ => self,
        }
    }

    /// The person read.
    pub fn finish(self) -> (r: PersonDetail)
        ensures
            r@ == self@.person,
    {
        self.person
    }
}


// ---------------------------------------------------------------------------
// The document scan, executable
// ---------------------------------------------------------------------------

pub open spec fn persons_view(v: Seq<PersonDetail>) -> Seq<PersonDetailView> {
    v.map_values(|p: PersonDetail| p@)
}

pub(crate) fn is_detail_section(n: &[u8]) -> (b: bool)
    ensures
        b == detail_section(n@),
{
    bytes_eq(n, crate::names::kw_header().as_slice()) || bytes_eq(n, crate::graph_names::kw_tags().as_slice())
        || bytes_eq(n, crate::graph_names::kw_events().as_slice()) || bytes_eq(n, kw_people().as_slice())
        || bytes_eq(n, crate::graph_names::kw_families().as_slice()) || bytes_eq(
        n,
        crate::graph_names::kw_citations().as_slice(),
    ) || bytes_eq(n, crate::graph_names::kw_sources().as_slice()) || bytes_eq(
        n,
        crate::graph_names::kw_places().as_slice(),
    ) || bytes_eq(n, crate::graph_names::kw_objects().as_slice()) || bytes_eq(
        n,
        crate::graph_names::kw_repositories().as_slice(),
    ) || bytes_eq(n, crate::graph_names::kw_notes().as_slice())
}

/// The state of the document scan.
pub struct DetailScan {
    in_people: bool,
    current: Option<PersonParse>,
    persons: Vec<PersonDetail>,
}

impl View for DetailScan {
    type V = DetailScanView;

    closed spec fn view(&self) -> DetailScanView {
        DetailScanView {
            in_people: self.in_people,
            current: match self.current {
                Some(p) => Some(p@),
                None => None,
            },
            persons: persons_view(self.persons@),
        }
    }
}

impl DetailScan {
    /// A scan that has read nothing.
    pub fn new() -> (r: Self)
        ensures
            r@ == detail_scan_start(),
    {
        let r = DetailScan { in_people: false, current: None, persons: Vec::new() };
        assert(r@.persons =~= Seq::<PersonDetailView>::empty());
        r
    }

    /// Whether a person is being read.
    pub fn in_person(&self) -> (b: bool)
        ensures
            b == self@.current is Some,
    {
        self.current.is_some()
    }

    /// Fold one event into the scan (see `detail_step`).
    pub fn step(self, ev: &XmlEvent) -> (r: Self)
        ensures
            r@ == detail_step(self@, ev@),
    {
        let DetailScan { in_people, current, persons } = self;
        let mut persons = persons;
        match current {
            Some(pp) => {
                let is_end = match ev {
                    XmlEvent::End(name) => bytes_eq(strip_prefix(name.as_slice()), kw_person().as_slice()),
                    _ => false,
                };
                if is_end {
                    let p = pp.finish();
                    let ghost before = persons_view(persons@);
                    persons.push(p);
                    assert(persons_view(persons@) =~= before.push(p@));
                    DetailScan { in_people, current: None, persons }
                } else {
                    DetailScan { in_people, current: Some(pp.step(ev)), persons }
                }
            },
            None => {
                match ev {
                    XmlEvent::Start(tag) => {
                        let n = strip_prefix(tag.name.as_slice());
                        if is_detail_section(n) {
                            DetailScan { in_people: bytes_eq(n, kw_people().as_slice()), current: None, persons }
                        } else if bytes_eq(n, kw_person().as_slice()) && in_people {
                            DetailScan { in_people, current: Some(PersonParse::new(tag)), persons }
                        } else {
                            DetailScan { in_people, current: None, persons }
                        }
                    },
                    XmlEvent::Empty(tag) => {
                        let n = strip_prefix(tag.name.as_slice());
                        if bytes_eq(n, kw_person().as_slice()) && in_people {
                            let p = new_person_record(tag);
                            let ghost before = persons_view(persons@);
                            persons.push(p);
                            assert(persons_view(persons@) =~= before.push(p@));
                        }
                        DetailScan { in_people, current: None, persons }
                    },
                    XmlEvent::End(name) => {
                        let n = strip_prefix(name.as_slice());
                        let ip = if is_detail_section(n) { false } else { in_people };
                        DetailScan { in_people: ip, current: None, persons }
                    },
                    _ => DetailScan { in_people, current: None, persons },
                }
            },
        }
    }

    /// The persons read so far.
    pub fn finish(self) -> (r: Vec<PersonDetail>)
        ensures
            persons_view(r@) == self@.persons,
    {
        self.persons
    }
}

fn person_eof_error() -> (e: Error)
    ensures
        e matches Error::XmlParseError { message } && message@ == person_eof_message(),
{
    let mut m = String::new();
    crate::text::push_str(&mut m, "unexpected end of file while parsing person");
    assert(m@ =~= person_eof_message());
    Error::XmlParseError { message: m }
}

/// Read all persons of a Gramps XML document in full detail (see
/// `detail_step` and `person_step`): names, gender, attributes, LDS
/// ordinances, addresses, URLs and references. A reader error becomes an
/// `XmlParseError` with the reader's message; a document that ends inside a
/// person is an `XmlParseError` too.
pub fn parse_people_detail(content: &str) -> (r: Result<Vec<PersonDetail>, Error>)
    ensures
        match scan_detail(content@, Seq::empty(), detail_scan_start(), content.len() as nat) {
            Ok(ps) => r matches Ok(v) && persons_view(v@) == ps,
            Err(m) => r matches Err(Error::XmlParseError { message }) && message@ == m,
        },
{
    let mut cursor = XmlCursor::new(content);
    let mut scan = DetailScan::new();
    let mut fuel: usize = content.len();
    loop
        invariant
            cursor.input() == content@,
            scan_detail(content@, Seq::empty(), detail_scan_start(), content.len() as nat)
                == scan_detail(content@, cursor.calls(), scan@, fuel as nat),
        decreases fuel,
    {
        match cursor.next_event() {
            Err(m) => {
                return Err(Error::XmlParseError { message: m });
            },
            Ok(XmlEvent::Eof) => {
                if scan.in_person() {
                    return Err(person_eof_error());
                }
                return Ok(scan.finish());
            },
            Ok(ev) => {
                if fuel == 0 {
                    return Err(unended_error());
                }
                fuel = fuel - 1;
                scan = scan.step(&ev);
            },
        }
    }
}

} // verus!
