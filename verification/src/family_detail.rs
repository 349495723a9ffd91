//! Reading families in full detail from Gramps XML: father and mother,
//! child references with relations, event references with roles,
//! attributes, and the citations, notes, tags and media a family refers
//! to.
//!
//! Inside a `<family>` element every event is folded into a family parse
//! state by `family_step`; the document scan (`families_step`) tracks the
//! sections and hands the events of each family to it.

use vstd::prelude::*;
use crate::error::Error;
use crate::extract::{handle_or_empty, unended_error, unended_message, unescape_text, unescaped_text};
use crate::graph_names::{
    kw_attribute, kw_citationref, kw_families, kw_id, kw_mediaref, kw_noteref, kw_relation, kw_role,
    kw_tagref, kw_value, spec_kw_attribute, spec_kw_citationref, spec_kw_families, spec_kw_id,
    spec_kw_mediaref, spec_kw_noteref, spec_kw_relation, spec_kw_role, spec_kw_tagref, spec_kw_value,
};
use crate::names::{
    kw_childref, kw_eventref, kw_family, kw_father, kw_mother, kw_type, spec_kw_childref,
    spec_kw_eventref, spec_kw_family, spec_kw_father, spec_kw_hlink, spec_kw_mother, spec_kw_type,
};
use crate::person_detail::{
    attr_last, detail_section, is_detail_section, opt_parse_role, opt_role, or_empty, read_attr_last,
    text_or_empty,
};
use crate::person_records::{
    AttributeRecord, AttributeView, ChildRefRecord, ChildRefView, EventRefRecord, EventRefView,
    FamilyDetail, FamilyDetailView,
};
use crate::text::{trim, trimmed};
use crate::typed_values::{attribute_type_of, child_rel_of, parse_attribute_type, parse_child_rel, ChildRefType};
use crate::xml::{attr_text, bytes_eq, local_name, read_attr, read_handle_attr, read_hlink_attr, strip_prefix, XmlTag, XmlTagView};
use crate::xml_reader::{xml_next_event, XmlCall, XmlCursor, XmlEvent, XmlEventView};

verus! {

/// Which elements of a family are being read.
#[derive(Clone, Copy)]
pub struct FamilyFlags {
    pub in_attribute: bool,
    pub in_attr_type: bool,
    pub in_attr_value: bool,
}

/// The state of reading one family: the family so far, which element's
/// text is being read, and the attribute type and value being read.
pub struct FamilyParseView {
    pub family: FamilyDetailView,
    pub flags: FamilyFlags,
    pub attr_type: Seq<char>,
    pub attr_value: Seq<char>,
}

/// A family with the handle and id of its start tag and nothing else.
pub open spec fn new_family(tag: XmlTagView) -> FamilyDetailView {
    FamilyDetailView {
        handle: handle_or_empty(tag),
        gramps_id: attr_text(tag, spec_kw_id()),
        father: None,
        mother: None,
        child_refs: Seq::empty(),
        event_refs: Seq::empty(),
        attributes: Seq::empty(),
        citations: Seq::empty(),
        notes: Seq::empty(),
        tags: Seq::empty(),
        media: Seq::empty(),
    }
}

/// The state at a family's start tag.
pub open spec fn new_family_parse(tag: XmlTagView) -> FamilyParseView {
    FamilyParseView {
        family: new_family(tag),
        flags: FamilyFlags { in_attribute: false, in_attr_type: false, in_attr_value: false },
        attr_type: Seq::empty(),
        attr_value: Seq::empty(),
    }
}

/// The family with one more attribute of type text `t` and value `v`.
pub open spec fn family_attribute(f: FamilyDetailView, t: Seq<char>, v: Seq<char>) -> FamilyDetailView {
    FamilyDetailView { attributes: f.attributes.push(AttributeView { attr_type: attribute_type_of(t), value: v }), ..f }
}

/// The family after a `<father>` or `<mother>` tag: its `hlink`, when it
/// has one, becomes the father or the mother.
pub open spec fn with_parent(f: FamilyDetailView, tag: XmlTagView) -> FamilyDetailView {
    match attr_text(tag, spec_kw_hlink()) {
        Some(h) => if local_name(tag.0) == spec_kw_father() {
            FamilyDetailView { father: Some(h), ..f }
        } else {
            FamilyDetailView { mother: Some(h), ..f }
        },
        None => f,
    }
}

/// Whether a local name is `father` or `mother`.
pub open spec fn parent_ref(n: Seq<u8>) -> bool {
    n == spec_kw_father() || n == spec_kw_mother()
}

/// The start of an `<attribute>` in a family.
pub open spec fn family_start_attribute(s: FamilyParseView, a: Seq<(Seq<u8>, Seq<u8>)>) -> FamilyParseView {
    let t = text_or_empty(attr_last(a, spec_kw_type()));
    let v = text_or_empty(attr_last(a, spec_kw_value()));
    if t.len() > 0 && v.len() > 0 {
        FamilyParseView {
            family: family_attribute(s.family, t, v),
            attr_type: t,
            attr_value: v,
            flags: FamilyFlags { in_attribute: false, ..s.flags },
        }
    } else {
        FamilyParseView { attr_type: t, attr_value: v, flags: FamilyFlags { in_attribute: true, ..s.flags }, ..s }
    }
}

/// A start tag inside a family.
pub open spec fn family_start(s: FamilyParseView, tag: XmlTagView) -> FamilyParseView {
    let n = local_name(tag.0);
    let f = s.flags;
    if parent_ref(n) {
        FamilyParseView { family: with_parent(s.family, tag), ..s }
    } else if n == spec_kw_attribute() {
        family_start_attribute(s, tag.1)
    } else if n == spec_kw_type() && f.in_attribute {
        FamilyParseView { flags: FamilyFlags { in_attr_type: true, ..f }, ..s }
    } else if n == spec_kw_value() && f.in_attribute {
        FamilyParseView { flags: FamilyFlags { in_attr_value: true, ..f }, ..s }
    } else {
        s
    }
}

/// Whether a local name is one of the simple reference elements.
pub open spec fn family_simple_ref(n: Seq<u8>) -> bool {
    n == spec_kw_citationref() || n == spec_kw_noteref() || n == spec_kw_tagref() || n == spec_kw_mediaref()
}

/// The family after a simple reference element with target `h`.
pub open spec fn with_family_ref(f: FamilyDetailView, n: Seq<u8>, h: Seq<char>) -> FamilyDetailView {
    if n == spec_kw_citationref() {
        FamilyDetailView { citations: f.citations.push(h), ..f }
    } else if n == spec_kw_noteref() {
        FamilyDetailView { notes: f.notes.push(h), ..f }
    } else if n == spec_kw_tagref() {
        FamilyDetailView { tags: f.tags.push(h), ..f }
    } else {
        FamilyDetailView { media: f.media.push(h), ..f }
    }
}

/// The optional relation of a child reference.
pub open spec fn opt_child_rel(v: Option<Seq<char>>) -> Option<ChildRefType> {
    match v {
        Some(t) => child_rel_of(t),
        None => None,
    }
}

/// The family after an empty-element tag inside it.
pub open spec fn empty_family(f: FamilyDetailView, tag: XmlTagView) -> FamilyDetailView {
    let n = local_name(tag.0);
    let a = tag.1;
    let h = attr_text(tag, spec_kw_hlink());
    if parent_ref(n) {
        with_parent(f, tag)
    } else if n == spec_kw_childref() {
        FamilyDetailView {
            child_refs: f.child_refs.push(
                ChildRefView { target: text_or_empty(h), relation: opt_child_rel(attr_last(a, spec_kw_relation())) },
            ),
            ..f
        }
    } else if n == spec_kw_eventref() {
        FamilyDetailView {
            event_refs: f.event_refs.push(
                EventRefView { target: text_or_empty(h), role: opt_role(attr_last(a, spec_kw_role())) },
            ),
            ..f
        }
    } else if family_simple_ref(n) {
        match h {
            Some(x) => with_family_ref(f, n, x),
            None => f,
        }
    } else if n == spec_kw_attribute() {
        let t = text_or_empty(attr_last(a, spec_kw_type()));
        let v = text_or_empty(attr_last(a, spec_kw_value()));
        if t.len() > 0 || v.len() > 0 {
            family_attribute(f, t, v)
        } else {
            f
        }
    } else {
        f
    }
}

/// The trimmed, non-empty text `t` of a text event inside a family: the
/// attribute type or value being read.
pub open spec fn family_text(s: FamilyParseView, t: Seq<char>) -> FamilyParseView {
    if s.flags.in_attr_type {
        FamilyParseView { attr_type: t, ..s }
    } else if s.flags.in_attr_value {
        FamilyParseView { attr_value: t, ..s }
    } else {
        s
    }
}

/// An end tag of local name `n` inside a family (other than its own end).
pub open spec fn family_end(s: FamilyParseView, n: Seq<u8>) -> FamilyParseView {
    let f = s.flags;
    if n == spec_kw_attribute() {
        FamilyParseView {
            family: if s.attr_type.len() > 0 || s.attr_value.len() > 0 {
                family_attribute(s.family, s.attr_type, s.attr_value)
            } else {
                s.family
            },
            flags: FamilyFlags { in_attribute: false, in_attr_type: false, in_attr_value: false },
            ..s
        }
    } else if n == spec_kw_type() && f.in_attr_type {
        FamilyParseView { flags: FamilyFlags { in_attr_type: false, ..f }, ..s }
    } else if n == spec_kw_value() && f.in_attr_value {
        FamilyParseView { flags: FamilyFlags { in_attr_value: false, ..f }, ..s }
    } else {
        s
    }
}

/// One event inside a family (other than its end tag).
pub open spec fn family_step(s: FamilyParseView, ev: XmlEventView) -> FamilyParseView {
    match ev {
        XmlEventView::Start(tag) => family_start(s, tag),
        XmlEventView::Empty(tag) => FamilyParseView { family: empty_family(s.family, tag), ..s },
        XmlEventView::Text(raw) => match unescaped_text(raw) {
            Some(t) => if trimmed(t).len() > 0 {
                family_text(s, trimmed(t))
            } else {
                s
            },
            None => s,
        },
        XmlEventView::End(name) => family_end(s, local_name(name)),
        _ => s,
    }
}

/// Abstract state of the document scan for families.
pub struct FamiliesScanView {
    pub in_families: bool,
    pub current: Option<FamilyParseView>,
    pub families: Seq<FamilyDetailView>,
}

pub open spec fn families_scan_start() -> FamiliesScanView {
    FamiliesScanView { in_families: false, current: None, families: Seq::empty() }
}

/// One step of the document scan for families.
pub open spec fn families_step(s: FamiliesScanView, ev: XmlEventView) -> FamiliesScanView {
    match s.current {
        Some(fp) => match ev {
            XmlEventView::End(name) => if local_name(name) == spec_kw_family() {
                FamiliesScanView { families: s.families.push(fp.family), current: None, ..s }
            } else {
                FamiliesScanView { current: Some(family_step(fp, ev)), ..s }
            },
            _ => FamiliesScanView { current: Some(family_step(fp, ev)), ..s },
        },
        None => match ev {
            XmlEventView::Start(tag) => {
                let n = local_name(tag.0);
                if detail_section(n) {
                    FamiliesScanView { in_families: n == spec_kw_families(), ..s }
                } else if n == spec_kw_family() && s.in_families {
                    FamiliesScanView { current: Some(new_family_parse(tag)), ..s }
                } else {
                    s
                }
            },
            XmlEventView::Empty(tag) => if local_name(tag.0) == spec_kw_family() && s.in_families {
                FamiliesScanView { families: s.families.push(new_family(tag)), ..s }
            } else {
                s
            },
            XmlEventView::End(name) => if detail_section(local_name(name)) {
                FamiliesScanView { in_families: false, ..s }
            } else {
                s
            },
            _ => s,
        },
    }
}

/// The message when the document ends inside a family.
pub open spec fn family_eof_message() -> Seq<char> {
    "unexpected end of file while parsing family"@
}

/// The families read from a document: the scan run over the events the
/// reader returns for `input` after `calls`, from state `s`, taking at
/// most `fuel` events other than the end.
pub open spec fn scan_families_detail(input: Seq<char>, calls: Seq<XmlCall>, s: FamiliesScanView, fuel: nat) -> Result<
    Seq<FamilyDetailView>,
    Seq<char>,
>
    decreases fuel,
{
    match xml_next_event(input, calls) {
        Err(m) => Err(m),
        Ok(XmlEventView::Eof) => if s.current is Some {
            Err(family_eof_message())
        } else {
            Ok(s.families)
        },
        Ok(ev) => if fuel == 0 {
            Err(unended_message())
        } else {
            scan_families_detail(input, calls.push(XmlCall::NextEvent), families_step(s, ev), (fuel - 1) as nat)
        },
    }
}

// ---------------------------------------------------------------------------
// Executable reading
// ---------------------------------------------------------------------------

fn add_family_attribute(f: FamilyDetail, t: &String, v: &String) -> (r: FamilyDetail)
    ensures
        r@ == family_attribute(f@, t@, v@),
{
    f.push_attribute(AttributeRecord::new(parse_attribute_type(t.as_str()), v.clone()))
}

fn is_parent_ref(n: &[u8]) -> (b: bool)
    ensures
        b == parent_ref(n@),
{
    bytes_eq(n, kw_father().as_slice()) || bytes_eq(n, kw_mother().as_slice())
}

fn parent_exec(f: FamilyDetail, tag: &XmlTag) -> (r: FamilyDetail)
    ensures
        r@ == with_parent(f@, tag@),
{
    match read_hlink_attr(tag) {
        Some(h) => if bytes_eq(strip_prefix(tag.name.as_slice()), kw_father().as_slice()) {
            f.set_father(h)
        } else {
            f.set_mother(h)
        },
        None => f,
    }
}

fn opt_parse_child_rel(v: Option<String>) -> (r: Option<ChildRefType>)
    ensures
        r == opt_child_rel(crate::types::opt_text(v)),
{
    match v {
        Some(t) => parse_child_rel(t.as_str()),
        None => None,
    }
}

fn empty_family_exec(f: FamilyDetail, tag: &XmlTag) -> (r: FamilyDetail)
    ensures
        r@ == empty_family(f@, tag@),
{
    let n = strip_prefix(tag.name.as_slice());
    if is_parent_ref(n) {
        parent_exec(f, tag)
    } else if bytes_eq(n, kw_childref().as_slice()) {
        let target = or_empty(read_hlink_attr(tag));
        let rel = opt_parse_child_rel(read_attr_last(tag, kw_relation().as_slice()));
        f.push_child_ref(ChildRefRecord::new(target, rel))
    } else if bytes_eq(n, kw_eventref().as_slice()) {
        let target = or_empty(read_hlink_attr(tag));
        let role = opt_parse_role(read_attr_last(tag, kw_role().as_slice()));
        f.push_event_ref(EventRefRecord::new(target, role))
    } else if bytes_eq(n, kw_citationref().as_slice()) || bytes_eq(n, kw_noteref().as_slice()) || bytes_eq(
        n,
        kw_tagref().as_slice(),
    ) || bytes_eq(n, kw_mediaref().as_slice()) {
        match read_hlink_attr(tag) {
            Some(h) => {
                if bytes_eq(n, kw_citationref().as_slice()) {
                    f.push_citation(h)
                } else if bytes_eq(n, kw_noteref().as_slice()) {
                    f.push_note(h)
                } else if bytes_eq(n, kw_tagref().as_slice()) {
                    f.push_tag(h)
                } else {
                    f.push_media(h)
                }
            },
            None => f,
        }
    } else if bytes_eq(n, kw_attribute().as_slice()) {
        let t = or_empty(read_attr_last(tag, kw_type().as_slice()));
        let v = or_empty(read_attr_last(tag, kw_value().as_slice()));
        if !t.as_str().is_empty() || !v.as_str().is_empty() {
            add_family_attribute(f, &t, &v)
        } else {
            f
        }
    } else {
        f
    }
}

/// The state of reading one family.
pub struct FamilyParse {
    family: FamilyDetail,
    flags: FamilyFlags,
    attr_type: String,
    attr_value: String,
}

impl View for FamilyParse {
    type V = FamilyParseView;

    closed spec fn view(&self) -> FamilyParseView {
        FamilyParseView {
            family: self.family@,
            flags: self.flags,
            attr_type: self.attr_type@,
            attr_value: self.attr_value@,
        }
    }
}

impl FamilyParse {
    /// The state at a family's start tag.
    pub fn new(tag: &XmlTag) -> (r: Self)
        ensures
            r@ == new_family_parse(tag@),
    {
        let handle = match read_handle_attr(tag) {
            Some(h) => h,
            None => String::new(),
        };
        let gramps_id = read_attr(tag, kw_id().as_slice());
        FamilyParse {
            family: FamilyDetail::new(handle, gramps_id),
            flags: FamilyFlags { in_attribute: false, in_attr_type: false, in_attr_value: false },
            attr_type: String::new(),
            attr_value: String::new(),
        }
    }

    fn start_attribute(self, tag: &XmlTag) -> (r: Self)
        ensures
            r@ == family_start_attribute(self@, tag@.1),
    {
        let mut s = self;
        let t = or_empty(read_attr_last(tag, kw_type().as_slice()));
        let v = or_empty(read_attr_last(tag, kw_value().as_slice()));
        let both = !t.as_str().is_empty() && !v.as_str().is_empty();
        s.family = if both { add_family_attribute(s.family, &t, &v) } else { s.family };
        s.flags = FamilyFlags { in_attribute: !both, ..s.flags };
        s.attr_type = t;
        s.attr_value = v;
        s
    }

    fn start(self, tag: &XmlTag) -> (r: Self)
        ensures
            r@ == family_start(self@, tag@),
    {
        let mut s = self;
        let n = strip_prefix(tag.name.as_slice());
        let f = s.flags;
        if is_parent_ref(n) {
            s.family = parent_exec(s.family, tag);
            s
        } else if bytes_eq(n, kw_attribute().as_slice()) {
            s.start_attribute(tag)
        } else if bytes_eq(n, kw_type().as_slice()) && f.in_attribute {
            s.flags = FamilyFlags { in_attr_type: true, ..f };
            s
        } else if bytes_eq(n, kw_value().as_slice()) && f.in_attribute {
            s.flags = FamilyFlags { in_attr_value: true, ..f };
            s
        } else {
            s
        }
    }

    fn end(self, n: &[u8]) -> (r: Self)
        ensures
            r@ == family_end(self@, n@),
    {
        let mut s = self;
        let f = s.flags;
        if bytes_eq(n, kw_attribute().as_slice()) {
            if !s.attr_type.as_str().is_empty() || !s.attr_value.as_str().is_empty() {
                s.family = add_family_attribute(s.family, &s.attr_type, &s.attr_value);
            }
            s.flags = FamilyFlags { in_attribute: false, in_attr_type: false, in_attr_value: false };
            s
        } else if bytes_eq(n, kw_type().as_slice()) && f.in_attr_type {
            s.flags = FamilyFlags { in_attr_type: false, ..f };
            s
        } else if bytes_eq(n, kw_value().as_slice()) && f.in_attr_value {
            s.flags = FamilyFlags { in_attr_value: false, ..f };
            s
        } else {
            s
        }
    }

    /// Fold one event inside the family (other than its end tag) into the
    /// state (see `family_step`).
    pub fn step(self, ev: &XmlEvent) -> (r: Self)
        ensures
            r@ == family_step(self@, ev@),
    {
        match ev {
            XmlEvent::Start(tag) => self.start(tag),
            XmlEvent::Empty(tag) => {
                let mut s = self;
                s.family = empty_family_exec(s.family, tag);
                s
            },
            XmlEvent::Text(raw) => {
                match unescape_text(raw.as_slice()) {
                    Some(t) => {
                        let tt = trim(t.as_str());
                        if !tt.as_str().is_empty() {
                            let mut s = self;
                            if s.flags.in_attr_type {
                                s.attr_type = tt;
                            } else if s.flags.in_attr_value {
                                s.attr_value = tt;
                            }
                            s
                        } else {
                            self
                        }
                    },
                    None => self,
                }
            },
            XmlEvent::End(name) => {
                let n = strip_prefix(name.as_slice());
                self.end(n)
            },
            _ => self,
        }
    }

    /// The family read.
    pub fn finish(self) -> (r: FamilyDetail)
        ensures
            r@ == self@.family,
    {
        self.family
    }
}

pub open spec fn families_view(v: Seq<FamilyDetail>) -> Seq<FamilyDetailView> {
    v.map_values(|f: FamilyDetail| f@)
}

/// The state of the document scan for families.
pub struct FamiliesScan {
    in_families: bool,
    current: Option<FamilyParse>,
    families: Vec<FamilyDetail>,
}

impl View for FamiliesScan {
    type V = FamiliesScanView;

    closed spec fn view(&self) -> FamiliesScanView {
        FamiliesScanView {
            in_families: self.in_families,
            current: match self.current {
                Some(f) => Some(f@),
                None => None,
            },
            families: families_view(self.families@),
        }
    }
}

impl FamiliesScan {
    /// A scan that has read nothing.
    pub fn new() -> (r: Self)
        ensures
            r@ == families_scan_start(),
    {
        let r = FamiliesScan { in_families: false, current: None, families: Vec::new() };
        assert(r@.families =~= Seq::<FamilyDetailView>::empty());
        r
    }

    /// Whether a family is being read.
    pub fn in_family(&self) -> (b: bool)
        ensures
            b == self@.current is Some,
    {
        self.current.is_some()
    }

    /// Fold one event into the scan (see `families_step`).
    pub fn step(self, ev: &XmlEvent) -> (r: Self)
        ensures
            r@ == families_step(self@, ev@),
    {
        let FamiliesScan { in_families, current, families } = self;
        let mut families = families;
        match current {
            Some(fp) => {
                let is_end = match ev {
                    XmlEvent::End(name) => bytes_eq(strip_prefix(name.as_slice()), kw_family().as_slice()),
                    _ => false,
                };
                if is_end {
                    let f = fp.finish();
                    let ghost before = families_view(families@);
                    families.push(f);
                    assert(families_view(families@) =~= before.push(f@));
                    FamiliesScan { in_families, current: None, families }
                } else {
                    FamiliesScan { in_families, current: Some(fp.step(ev)), families }
                }
            },
            None => {
                match ev {
                    XmlEvent::Start(tag) => {
                        let n = strip_prefix(tag.name.as_slice());
                        if is_detail_section(n) {
                            FamiliesScan { in_families: bytes_eq(n, kw_families().as_slice()), current: None, families }
                        } else if bytes_eq(n, kw_family().as_slice()) && in_families {
                            FamiliesScan { in_families, current: Some(FamilyParse::new(tag)), families }
                        } else {
                            FamiliesScan { in_families, current: None, families }
                        }
                    },
                    XmlEvent::Empty(tag) => {
                        let n = strip_prefix(tag.name.as_slice());
                        if bytes_eq(n, kw_family().as_slice()) && in_families {
                            let f = FamilyParse::new(tag).finish();
                            let ghost before = families_view(families@);
                            families.push(f);
                            assert(families_view(families@) =~= before.push(f@));
                        }
                        FamiliesScan { in_families, current: None, families }
                    },
                    XmlEvent::End(name) => {
                        let n = strip_prefix(name.as_slice());
                        let fl = if is_detail_section(n) { false } else { in_families };
                        FamiliesScan { in_families: fl, current: None, families }
                    },
                    _ => FamiliesScan { in_families, current: None, families },
                }
            },
        }
    }

    /// The families read so far.
    pub fn finish(self) -> (r: Vec<FamilyDetail>)
        ensures
            families_view(r@) == self@.families,
    {
        self.families
    }
}

fn family_eof_error() -> (e: Error)
    ensures
        e matches Error::XmlParseError { message } && message@ == family_eof_message(),
{
    let mut m = String::new();
    crate::text::push_str(&mut m, "unexpected end of file while parsing family");
    assert(m@ =~= family_eof_message());
    Error::XmlParseError { message: m }
}

/// Read all families of a Gramps XML document in full detail (see
/// `families_step` and `family_step`). A reader error becomes an
/// `XmlParseError` with the reader's message; a document that ends inside a
/// family is an `XmlParseError` too.
pub fn parse_families_detail(content: &str) -> (r: Result<Vec<FamilyDetail>, Error>)
    ensures
        match scan_families_detail(content@, Seq::empty(), families_scan_start(), content.len() as nat) {
            Ok(fs) => r matches Ok(v) && families_view(v@) == fs,
            Err(m) => r matches Err(Error::XmlParseError { message }) && message@ == m,
        },
{
    let mut cursor = XmlCursor::new(content);
    let mut scan = FamiliesScan::new();
    let mut fuel: usize = content.len();
    loop
        invariant
            cursor.input() == content@,
            scan_families_detail(content@, Seq::empty(), families_scan_start(), content.len() as nat)
                == scan_families_detail(content@, cursor.calls(), scan@, fuel as nat),
        decreases fuel,
    {
        match cursor.next_event() {
            Err(m) => {
                return Err(Error::XmlParseError { message: m });
            },
            Ok(XmlEvent::Eof) => {
                if scan.in_family() {
                    return Err(family_eof_error());
                }
                return Ok(scan.finish());
            },
            Ok(ev) => {
                if fuel == 0 {
                    return Err(unended_error());
                }
                fuel = fuel - 1;
                scan = scan.step(&ev);
            },
        }
    }
}

} // verus!
