//! Reading places in full detail from Gramps XML: the place's name, the
//! places it is enclosed by, its attributes, and the citations, notes, tags
//! and media it refers to.
//!
//! Inside a `<place>` element every event of the reader is folded into a
//! place parse state by `place_detail_step`; the document scan
//! (`places_step`) tracks the sections and hands the events of each
//! `<place>` to it.

use vstd::prelude::*;
use crate::error::Error;
use crate::extract::{handle_or_empty, unended_error, unended_message};
use crate::graph_names::{
    kw_attribute, kw_citationref, kw_id, kw_mediaref, kw_noteref, kw_place, kw_placeref, kw_places,
    kw_tagref, kw_value, spec_kw_attribute, spec_kw_citationref, spec_kw_id, spec_kw_mediaref,
    spec_kw_noteref, spec_kw_place, spec_kw_placeref, spec_kw_places, spec_kw_tagref, spec_kw_value,
};
use crate::names::{kw_name, kw_type, spec_kw_hlink, spec_kw_name, spec_kw_type};
use crate::person_detail::{attr_last, detail_section, is_detail_section, or_empty, read_attr_last, text_or_empty};
use crate::person_records::{texts_view, AttributeRecord, AttributeView};
use crate::typed_values::{attribute_type_of, parse_attribute_type};
use crate::types::opt_text;
use crate::xml::{attr_text, bytes_eq, local_name, read_attr, read_handle_attr, read_hlink_attr, strip_prefix, XmlTag, XmlTagView};
use crate::xml_reader::{xml_next_event, XmlCall, XmlCursor, XmlEvent, XmlEventView};

verus! {

/// A place in full detail.
#[derive(Debug, Clone)]
pub struct PlaceDetail {
    pub handle: String,
    pub gramps_id: Option<String>,
    pub name: Option<String>,
    pub place_refs: Vec<String>,
    pub attributes: Vec<AttributeRecord>,
    pub citations: Vec<String>,
    pub notes: Vec<String>,
    pub tags: Vec<String>,
    pub media: Vec<String>,
}

pub struct PlaceDetailView {
    pub handle: Seq<char>,
    pub gramps_id: Option<Seq<char>>,
    pub name: Option<Seq<char>>,
    pub place_refs: Seq<Seq<char>>,
    pub attributes: Seq<AttributeView>,
    pub citations: Seq<Seq<char>>,
    pub notes: Seq<Seq<char>>,
    pub tags: Seq<Seq<char>>,
    pub media: Seq<Seq<char>>,
}

impl View for PlaceDetail {
    type V = PlaceDetailView;

    open spec fn view(&self) -> PlaceDetailView {
        PlaceDetailView {
            handle: self.handle@,
            gramps_id: opt_text(self.gramps_id),
            name: opt_text(self.name),
            place_refs: texts_view(self.place_refs@),
            attributes: self.attributes@.map_values(|a: AttributeRecord| a@),
            citations: texts_view(self.citations@),
            notes: texts_view(self.notes@),
            tags: texts_view(self.tags@),
            media: texts_view(self.media@),
        }
    }
}

impl PlaceDetail {
    /// A place with a handle and id and nothing else.
    pub fn new(handle: String, gramps_id: Option<String>) -> (r: Self)
        ensures
            r@ == (PlaceDetailView {
                handle: handle@,
                gramps_id: opt_text(gramps_id),
                name: None,
                place_refs: Seq::empty(),
                attributes: Seq::empty(),
                citations: Seq::empty(),
                notes: Seq::empty(),
                tags: Seq::empty(),
                media: Seq::empty(),
            }),
    {
        let r = PlaceDetail {
            handle,
            gramps_id,
            name: None,
            place_refs: Vec::new(),
            attributes: Vec::new(),
            citations: Vec::new(),
            notes: Vec::new(),
            tags: Vec::new(),
            media: Vec::new(),
        };
        assert(r@.place_refs =~= Seq::<Seq<char>>::empty());
        assert(r@.attributes =~= Seq::<AttributeView>::empty());
        assert(r@.citations =~= Seq::<Seq<char>>::empty());
        assert(r@.notes =~= Seq::<Seq<char>>::empty());
        assert(r@.tags =~= Seq::<Seq<char>>::empty());
        assert(r@.media =~= Seq::<Seq<char>>::empty());
        r
    }

    pub fn set_name(self, t: String) -> (r: Self)
        ensures
            r@ == (PlaceDetailView { name: Some(t@), ..self@ }),
    {
        let mut s = self;
        s.name = Some(t);
        s
    }

    pub fn push_place_ref(self, x: String) -> (r: Self)
        ensures
            r@ == (PlaceDetailView { place_refs: self@.place_refs.push(x@), ..self@ }),
    {
        let mut s = self;
        s.place_refs.push(x);
        assert(s@.place_refs =~= self@.place_refs.push(x@));
        s
    }

    pub fn push_attribute(self, x: AttributeRecord) -> (r: Self)
        ensures
            r@ == (PlaceDetailView { attributes: self@.attributes.push(x@), ..self@ }),
    {
        let mut s = self;
        s.attributes.push(x);
        assert(s@.attributes =~= self@.attributes.push(x@));
        s
    }

    pub fn push_citation(self, x: String) -> (r: Self)
        ensures
            r@ == (PlaceDetailView { citations: self@.citations.push(x@), ..self@ }),
    {
        let mut s = self;
        s.citations.push(x);
        assert(s@.citations =~= self@.citations.push(x@));
        s
    }

    pub fn push_note(self, x: String) -> (r: Self)
        ensures
            r@ == (PlaceDetailView { notes: self@.notes.push(x@), ..self@ }),
    {
        let mut s = self;
        s.notes.push(x);
        assert(s@.notes =~= self@.notes.push(x@));
        s
    }

    pub fn push_tag(self, x: String) -> (r: Self)
        ensures
            r@ == (PlaceDetailView { tags: self@.tags.push(x@), ..self@ }),
    {
        let mut s = self;
        s.tags.push(x);
        assert(s@.tags =~= self@.tags.push(x@));
        s
    }

    pub fn push_media(self, x: String) -> (r: Self)
        ensures
            r@ == (PlaceDetailView { media: self@.media.push(x@), ..self@ }),
    {
        let mut s = self;
        s.media.push(x);
        assert(s@.media =~= self@.media.push(x@));
        s
    }
}

/// The state of reading one place: the place so far and the type and value
/// of the attribute whose start tag was read last.
pub struct PlaceParseView {
    pub place: PlaceDetailView,
    pub attr_type: Seq<char>,
    pub attr_value: Seq<char>,
}

/// A place with the handle and id of its start tag and nothing else.
pub open spec fn new_place_detail(tag: XmlTagView) -> PlaceDetailView {
    PlaceDetailView {
        handle: handle_or_empty(tag),
        gramps_id: attr_text(tag, spec_kw_id()),
        name: None,
        place_refs: Seq::empty(),
        attributes: Seq::empty(),
        citations: Seq::empty(),
        notes: Seq::empty(),
        tags: Seq::empty(),
        media: Seq::empty(),
    }
}

/// The state at a place's start tag.
pub open spec fn new_place_parse(tag: XmlTagView) -> PlaceParseView {
    PlaceParseView { place: new_place_detail(tag), attr_type: Seq::empty(), attr_value: Seq::empty() }
}

/// The place with one more attribute of type text `t` and value `v`.
pub open spec fn place_attribute(p: PlaceDetailView, t: Seq<char>, v: Seq<char>) -> PlaceDetailView {
    PlaceDetailView { attributes: p.attributes.push(AttributeView { attr_type: attribute_type_of(t), value: v }), ..p }
}

/// The place after a `<name>` tag: its last `value` attribute, when it has
/// one, is the place's name.
pub open spec fn with_place_name(p: PlaceDetailView, a: Seq<(Seq<u8>, Seq<u8>)>) -> PlaceDetailView {
    match attr_last(a, spec_kw_value()) {
        Some(v) => PlaceDetailView { name: Some(v), ..p },
        None => p,
    }
}

/// A start tag inside a place. An `<attribute>` start tag with both a type
/// and a value adds the attribute at once; otherwise its type and value
/// wait for its end tag.
pub open spec fn place_start(s: PlaceParseView, tag: XmlTagView) -> PlaceParseView {
    let n = local_name(tag.0);
    if n == spec_kw_name() {
        PlaceParseView { place: with_place_name(s.place, tag.1), ..s }
    } else if n == spec_kw_attribute() {
        let t = text_or_empty(attr_last(tag.1, spec_kw_type()));
        let v = text_or_empty(attr_last(tag.1, spec_kw_value()));
        if t.len() > 0 && v.len() > 0 {
            PlaceParseView { place: place_attribute(s.place, t, v), attr_type: Seq::empty(), attr_value: Seq::empty() }
        } else {
            PlaceParseView { attr_type: t, attr_value: v, ..s }
        }
    } else {
        s
    }
}

/// Whether a local name is one of the reference elements of a place.
pub open spec fn place_ref_element(n: Seq<u8>) -> bool {
    n == spec_kw_placeref() || n == spec_kw_citationref() || n == spec_kw_noteref() || n == spec_kw_tagref()
        || n == spec_kw_mediaref()
}

/// The place after a reference element with target `h`.
pub open spec fn with_place_ref(p: PlaceDetailView, n: Seq<u8>, h: Seq<char>) -> PlaceDetailView {
    if n == spec_kw_placeref() {
        PlaceDetailView { place_refs: p.place_refs.push(h), ..p }
    } else if n == spec_kw_citationref() {
        PlaceDetailView { citations: p.citations.push(h), ..p }
    } else if n == spec_kw_noteref() {
        PlaceDetailView { notes: p.notes.push(h), ..p }
    } else if n == spec_kw_tagref() {
        PlaceDetailView { tags: p.tags.push(h), ..p }
    } else {
        PlaceDetailView { media: p.media.push(h), ..p }
    }
}

/// The place after an empty-element tag inside it.
pub open spec fn empty_place(p: PlaceDetailView, tag: XmlTagView) -> PlaceDetailView {
    let n = local_name(tag.0);
    let a = tag.1;
    if n == spec_kw_name() {
        with_place_name(p, a)
    } else if place_ref_element(n) {
        match attr_text(tag, spec_kw_hlink()) {
            Some(h) => with_place_ref(p, n, h),
            None => p,
        }
    } else if n == spec_kw_attribute() {
        let t = text_or_empty(attr_last(a, spec_kw_type()));
        let v = text_or_empty(attr_last(a, spec_kw_value()));
        if t.len() > 0 || v.len() > 0 {
            place_attribute(p, t, v)
        } else {
            p
        }
    } else {
        p
    }
}

/// An end tag of local name `n` inside a place (other than its own end):
/// the end of an `<attribute>` adds the waiting attribute when it has a
/// type or a value.
pub open spec fn place_end(s: PlaceParseView, n: Seq<u8>) -> PlaceParseView {
    if n == spec_kw_attribute() {
        PlaceParseView {
            place: if s.attr_type.len() > 0 || s.attr_value.len() > 0 {
                place_attribute(s.place, s.attr_type, s.attr_value)
            } else {
                s.place
            },
            attr_type: Seq::empty(),
            attr_value: Seq::empty(),
        }
    } else {
        s
    }
}

/// One reader event inside a place (other than its end tag).
pub open spec fn place_detail_step(s: PlaceParseView, ev: XmlEventView) -> PlaceParseView {
    match ev {
        XmlEventView::Start(tag) => place_start(s, tag),
        XmlEventView::Empty(tag) => PlaceParseView { place: empty_place(s.place, tag), ..s },
        XmlEventView::End(name) => place_end(s, local_name(name)),
        _ => s,
    }
}

/// Abstract state of the document scan for places.
pub struct PlacesScanView {
    pub in_places: bool,
    pub current: Option<PlaceParseView>,
    pub places: Seq<PlaceDetailView>,
}

pub open spec fn places_scan_start() -> PlacesScanView {
    PlacesScanView { in_places: false, current: None, places: Seq::empty() }
}

/// One step of the document scan for places.
pub open spec fn places_step(s: PlacesScanView, ev: XmlEventView) -> PlacesScanView {
    match s.current {
        Some(pp) => match ev {
            XmlEventView::End(name) => if local_name(name) == spec_kw_place() {
                PlacesScanView { places: s.places.push(pp.place), current: None, ..s }
            } else {
                PlacesScanView { current: Some(place_detail_step(pp, ev)), ..s }
            },
            _ => PlacesScanView { current: Some(place_detail_step(pp, ev)), ..s },
        },
        None => match ev {
            XmlEventView::Start(tag) => {
                let n = local_name(tag.0);
                if detail_section(n) {
                    PlacesScanView { in_places: n == spec_kw_places(), ..s }
                } else if n == spec_kw_place() && s.in_places {
                    PlacesScanView { current: Some(new_place_parse(tag)), ..s }
                } else {
                    s
                }
            },
            XmlEventView::Empty(tag) => if local_name(tag.0) == spec_kw_place() && s.in_places {
                PlacesScanView { places: s.places.push(new_place_detail(tag)), ..s }
            } else {
                s
            },
            XmlEventView::End(name) => if detail_section(local_name(name)) {
                PlacesScanView { in_places: false, ..s }
            } else {
                s
            },
            _ => s,
        },
    }
}

/// The message when the document ends inside a place.
pub open spec fn place_eof_message() -> Seq<char> {
    "unexpected end of file while parsing place"@
}

/// The places read from a document: the scan run over the reader's events
/// for `input` after `calls`, from state `s`, taking at most `fuel` of them
/// other than the end.
pub open spec fn scan_places_detail(input: Seq<char>, calls: Seq<XmlCall>, s: PlacesScanView, fuel: nat) -> Result<
    Seq<PlaceDetailView>,
    Seq<char>,
>
    decreases fuel,
{
    match xml_next_event(input, calls) {
        Err(m) => Err(m),
        Ok(XmlEventView::Eof) => if s.current is Some {
            Err(place_eof_message())
        } else {
            Ok(s.places)
        },
        Ok(ev) => if fuel == 0 {
            Err(unended_message())
        } else {
            scan_places_detail(input, calls.push(XmlCall::NextEvent), places_step(s, ev), (fuel - 1) as nat)
        },
    }
}

// ---------------------------------------------------------------------------
// Executable reading
// ---------------------------------------------------------------------------

fn add_place_attribute(p: PlaceDetail, t: &String, v: &String) -> (r: PlaceDetail)
    ensures
        r@ == place_attribute(p@, t@, v@),
{
    p.push_attribute(AttributeRecord::new(parse_attribute_type(t.as_str()), v.clone()))
}

fn place_name_exec(p: PlaceDetail, tag: &XmlTag) -> (r: PlaceDetail)
    ensures
        r@ == with_place_name(p@, tag@.1),
{
    match read_attr_last(tag, kw_value().as_slice()) {
        Some(v) => p.set_name(v),
        None => p,
    }
}

fn empty_place_exec(p: PlaceDetail, tag: &XmlTag) -> (r: PlaceDetail)
    ensures
        r@ == empty_place(p@, tag@),
{
    let n = strip_prefix(tag.name.as_slice());
    if bytes_eq(n, kw_name().as_slice()) {
        place_name_exec(p, tag)
    } else if bytes_eq(n, kw_placeref().as_slice()) || bytes_eq(n, kw_citationref().as_slice()) || bytes_eq(
        n,
        kw_noteref().as_slice(),
    ) || bytes_eq(n, kw_tagref().as_slice()) || bytes_eq(n, kw_mediaref().as_slice()) {
        match read_hlink_attr(tag) {
            Some(h) => {
                if bytes_eq(n, kw_placeref().as_slice()) {
                    p.push_place_ref(h)
                } else if bytes_eq(n, kw_citationref().as_slice()) {
                    p.push_citation(h)
                } else if bytes_eq(n, kw_noteref().as_slice()) {
                    p.push_note(h)
                } else if bytes_eq(n, kw_tagref().as_slice()) {
                    p.push_tag(h)
                } else {
                    p.push_media(h)
                }
            },
            None => p,
        }
    } else if bytes_eq(n, kw_attribute().as_slice()) {
        let t = or_empty(read_attr_last(tag, kw_type().as_slice()));
        let v = or_empty(read_attr_last(tag, kw_value().as_slice()));
        if !t.as_str().is_empty() || !v.as_str().is_empty() {
            add_place_attribute(p, &t, &v)
        } else {
            p
        }
    } else {
        p
    }
}

/// The state of reading one place.
pub struct PlaceParse {
    place: PlaceDetail,
    attr_type: String,
    attr_value: String,
}

impl View for PlaceParse {
    type V = PlaceParseView;

    closed spec fn view(&self) -> PlaceParseView {
        PlaceParseView { place: self.place@, attr_type: self.attr_type@, attr_value: self.attr_value@ }
    }
}

impl PlaceParse {
    /// The state at a place's start tag.
    pub fn new(tag: &XmlTag) -> (r: Self)
        ensures
            r@ == new_place_parse(tag@),
    {
        let handle = match read_handle_attr(tag) {
            Some(h) => h,
            None => String::new(),
        };
        let gramps_id = read_attr(tag, kw_id().as_slice());
        PlaceParse { place: PlaceDetail::new(handle, gramps_id), attr_type: String::new(), attr_value: String::new() }
    }

    fn start(self, tag: &XmlTag) -> (r: Self)
        ensures
            r@ == place_start(self@, tag@),
    {
        let PlaceParse { place, attr_type, attr_value } = self;
        let n = strip_prefix(tag.name.as_slice());
        if bytes_eq(n, kw_name().as_slice()) {
            PlaceParse { place: place_name_exec(place, tag), attr_type, attr_value }
        } else if bytes_eq(n, kw_attribute().as_slice()) {
            let t = or_empty(read_attr_last(tag, kw_type().as_slice()));
            let v = or_empty(read_attr_last(tag, kw_value().as_slice()));
            if !t.as_str().is_empty() && !v.as_str().is_empty() {
                let place = add_place_attribute(place, &t, &v);
                PlaceParse { place, attr_type: String::new(), attr_value: String::new() }
            } else {
                PlaceParse { place, attr_type: t, attr_value: v }
            }
        } else {
            PlaceParse { place, attr_type, attr_value }
        }
    }

    fn end(self, n: &[u8]) -> (r: Self)
        ensures
            r@ == place_end(self@, n@),
    {
        if bytes_eq(n, kw_attribute().as_slice()) {
            let PlaceParse { place, attr_type, attr_value } = self;
            let place = if !attr_type.as_str().is_empty() || !attr_value.as_str().is_empty() {
                add_place_attribute(place, &attr_type, &attr_value)
            } else {
                place
            };
            PlaceParse { place, attr_type: String::new(), attr_value: String::new() }
        } else {
            self
        }
    }

    /// Fold one reader event inside the place (other than its end tag)
    /// into the state (see `place_detail_step`).
    pub fn step(self, ev: &XmlEvent) -> (r: Self)
        ensures
            r@ == place_detail_step(self@, ev@),
    {
        match ev {
            XmlEvent::Start(tag) => self.start(tag),
            XmlEvent::Empty(tag) => {
                let PlaceParse { place, attr_type, attr_value } = self;
                PlaceParse { place: empty_place_exec(place, tag), attr_type, attr_value }
            },
            XmlEvent::End(name) => {
                let n = strip_prefix(name.as_slice());
                self.end(n)
            },
            _ => self,
        }
    }

    /// The place read.
    pub fn finish(self) -> (r: PlaceDetail)
        ensures
            r@ == self@.place,
    {
        self.place
    }
}

pub open spec fn places_view(v: Seq<PlaceDetail>) -> Seq<PlaceDetailView> {
    v.map_values(|p: PlaceDetail| p@)
}

/// The state of the document scan for places.
pub struct PlacesScan {
    in_places: bool,
    current: Option<PlaceParse>,
    places: Vec<PlaceDetail>,
}

impl View for PlacesScan {
    type V = PlacesScanView;

    closed spec fn view(&self) -> PlacesScanView {
        PlacesScanView {
            in_places: self.in_places,
            current: match self.current {
                Some(p) => Some(p@),
                None => None,
            },
            places: places_view(self.places@),
        }
    }
}

impl PlacesScan {
    /// A scan that has read nothing.
    pub fn new() -> (r: Self)
        ensures
            r@ == places_scan_start(),
    {
        let r = PlacesScan { in_places: false, current: None, places: Vec::new() };
        assert(r@.places =~= Seq::<PlaceDetailView>::empty());
        r
    }

    /// Whether a place is being read.
    pub fn in_place(&self) -> (b: bool)
        ensures
            b == self@.current is Some,
    {
        self.current.is_some()
    }

    /// Fold one reader event into the scan (see `places_step`).
    pub fn step(self, ev: &XmlEvent) -> (r: Self)
        ensures
            r@ == places_step(self@, ev@),
    {
        let PlacesScan { in_places, current, places } = self;
        let mut places = places;
        match current {
            Some(pp) => {
                let is_end = match ev {
                    XmlEvent::End(name) => bytes_eq(strip_prefix(name.as_slice()), kw_place().as_slice()),
                    _ => false,
                };
                if is_end {
                    let p = pp.finish();
                    let ghost before = places_view(places@);
                    places.push(p);
                    assert(places_view(places@) =~= before.push(p@));
                    PlacesScan { in_places, current: None, places }
                } else {
                    PlacesScan { in_places, current: Some(pp.step(ev)), places }
                }
            },
            None => {
                match ev {
                    XmlEvent::Start(tag) => {
                        let n = strip_prefix(tag.name.as_slice());
                        if is_detail_section(n) {
                            PlacesScan { in_places: bytes_eq(n, kw_places().as_slice()), current: None, places }
                        } else if bytes_eq(n, kw_place().as_slice()) && in_places {
                            PlacesScan { in_places, current: Some(PlaceParse::new(tag)), places }
                        } else {
                            PlacesScan { in_places, current: None, places }
                        }
                    },
                    XmlEvent::Empty(tag) => {
                        let n = strip_prefix(tag.name.as_slice());
                        if bytes_eq(n, kw_place().as_slice()) && in_places {
                            let p = PlaceParse::new(tag).finish();
                            let ghost before = places_view(places@);
                            places.push(p);
                            assert(places_view(places@) =~= before.push(p@));
                        }
                        PlacesScan { in_places, current: None, places }
                    },
                    XmlEvent::End(name) => {
                        let n = strip_prefix(name.as_slice());
                        let fl = if is_detail_section(n) { false } else { in_places };
                        PlacesScan { in_places: fl, current: None, places }
                    },
                    _ => PlacesScan { in_places, current: None, places },
                }
            },
        }
    }

    /// The places read so far.
    pub fn finish(self) -> (r: Vec<PlaceDetail>)
        ensures
            places_view(r@) == self@.places,
    {
        self.places
    }
}

fn place_eof_error() -> (e: Error)
    ensures
        e matches Error::XmlParseError { message } && message@ == place_eof_message(),
{
    let mut m = String::new();
    crate::text::push_str(&mut m, "unexpected end of file while parsing place");
    assert(m@ =~= place_eof_message());
    Error::XmlParseError { message: m }
}

/// Read all places of a Gramps XML document in full detail (see
/// `places_step` and `place_detail_step`). A reader error becomes an
/// `XmlParseError` with the reader's message; a document that ends inside
/// a place is an `XmlParseError` too.
pub fn parse_places_detail(content: &str) -> (r: Result<Vec<PlaceDetail>, Error>)
    ensures
        match scan_places_detail(content@, Seq::empty(), places_scan_start(), content.len() as nat) {
            Ok(ps) => r matches Ok(v) && places_view(v@) == ps,
            Err(m) => r matches Err(Error::XmlParseError { message }) && message@ == m,
        },
{
    let mut cursor = XmlCursor::new(content);
    let mut scan = PlacesScan::new();
    let mut fuel: usize = content.len();
    loop
        invariant
            cursor.input() == content@,
            scan_places_detail(content@, Seq::empty(), places_scan_start(), content.len() as nat)
                == scan_places_detail(content@, cursor.calls(), scan@, fuel as nat),
        decreases fuel,
    {
        match cursor.next_event() {
            Err(m) => {
                return Err(Error::XmlParseError { message: m });
            },
            Ok(XmlEvent::Eof) => {
                if scan.in_place() {
                    return Err(place_eof_error());
                }
                return Ok(scan.finish());
            },
            Ok(ev) => {
                if fuel == 0 {
                    return Err(unended_error());
                }
                fuel = fuel - 1;
                scan = scan.step(&ev);
            },
        }
    }
}

} // verus!
