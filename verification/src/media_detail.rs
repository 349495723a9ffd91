//! Reading media objects in full detail from Gramps XML: file path and
//! MIME type, description, checksum, attributes, and the notes, citations
//! and tags a media object refers to.
//!
//! Inside an `<object>` element every event of the reader is folded into a
//! media parse state by `media_detail_step`; the document scan
//! (`media_step`) tracks the sections and hands the events of each
//! `<object>` to it.

use vstd::prelude::*;
use crate::error::Error;
use crate::extract::{handle_or_empty, unended_error, unended_message, unescape_text, unescaped_text};
use crate::graph_names::{
    kw_attribute, kw_checksum, kw_citationref, kw_description, kw_file, kw_id, kw_mime, kw_noteref, kw_object,
    kw_objects, kw_src, kw_tagref, kw_value, spec_kw_attribute, spec_kw_checksum, spec_kw_citationref,
    spec_kw_description, spec_kw_file, spec_kw_id, spec_kw_mime, spec_kw_noteref, spec_kw_object, spec_kw_objects,
    spec_kw_src, spec_kw_tagref, spec_kw_value,
};
use crate::names::{kw_type, spec_kw_hlink, spec_kw_type};
use crate::person_detail::{attr_last, detail_section, is_detail_section, or_empty, read_attr_last, text_or_empty};
use crate::person_records::{texts_view, AttributeRecord, AttributeView};
use crate::text::{trim, trimmed};
use crate::typed_values::{attribute_type_of, parse_attribute_type, AttributeType};
use crate::types::opt_text;
use crate::xml::{attr_text, bytes_eq, local_name, read_attr, read_handle_attr, read_hlink_attr, strip_prefix, XmlTag, XmlTagView};
use crate::xml_reader::{xml_next_event, XmlCall, XmlCursor, XmlEvent, XmlEventView};

verus! {

/// A media object in full detail.
#[derive(Debug, Clone)]
pub struct MediaDetail {
    pub handle: String,
    pub gramps_id: Option<String>,
    pub path: Option<String>,
    pub mime_type: Option<String>,
    pub desc: Option<String>,
    pub checksum: Option<String>,
    pub attributes: Vec<AttributeRecord>,
    pub notes: Vec<String>,
    pub citations: Vec<String>,
    pub tags: Vec<String>,
}

pub struct MediaDetailView {
    pub handle: Seq<char>,
    pub gramps_id: Option<Seq<char>>,
    pub path: Option<Seq<char>>,
    pub mime_type: Option<Seq<char>>,
    pub desc: Option<Seq<char>>,
    pub checksum: Option<Seq<char>>,
    pub attributes: Seq<AttributeView>,
    pub notes: Seq<Seq<char>>,
    pub citations: Seq<Seq<char>>,
    pub tags: Seq<Seq<char>>,
}

impl View for MediaDetail {
    type V = MediaDetailView;

    open spec fn view(&self) -> MediaDetailView {
        MediaDetailView {
            handle: self.handle@,
            gramps_id: opt_text(self.gramps_id),
            path: opt_text(self.path),
            mime_type: opt_text(self.mime_type),
            desc: opt_text(self.desc),
            checksum: opt_text(self.checksum),
            attributes: self.attributes@.map_values(|a: AttributeRecord| a@),
            notes: texts_view(self.notes@),
            citations: texts_view(self.citations@),
            tags: texts_view(self.tags@),
        }
    }
}

impl MediaDetail {
    /// A media object with a handle and id and nothing else.
    pub fn new(handle: String, gramps_id: Option<String>) -> (r: Self)
        ensures
            r@ == (MediaDetailView {
                handle: handle@,
                gramps_id: opt_text(gramps_id),
                path: None,
                mime_type: None,
                desc: None,
                checksum: None,
                attributes: Seq::empty(),
                notes: Seq::empty(),
                citations: Seq::empty(),
                tags: Seq::empty(),
            }),
    {
        let r = MediaDetail {
            handle,
            gramps_id,
            path: None,
            mime_type: None,
            desc: None,
            checksum: None,
            attributes: Vec::new(),
            notes: Vec::new(),
            citations: Vec::new(),
            tags: Vec::new(),
        };
        assert(r@.attributes =~= Seq::<AttributeView>::empty());
        assert(r@.notes =~= Seq::<Seq<char>>::empty());
        assert(r@.citations =~= Seq::<Seq<char>>::empty());
        assert(r@.tags =~= Seq::<Seq<char>>::empty());
        r
    }

    pub fn set_path(self, t: String) -> (r: Self)
        ensures
            r@ == (MediaDetailView { path: Some(t@), ..self@ }),
    {
        let mut s = self;
        s.path = Some(t);
        s
    }

    pub fn set_mime_type(self, t: String) -> (r: Self)
        ensures
            r@ == (MediaDetailView { mime_type: Some(t@), ..self@ }),
    {
        let mut s = self;
        s.mime_type = Some(t);
        s
    }

    pub fn set_desc(self, t: String) -> (r: Self)
        ensures
            r@ == (MediaDetailView { desc: Some(t@), ..self@ }),
    {
        let mut s = self;
        s.desc = Some(t);
        s
    }

    pub fn set_checksum(self, t: String) -> (r: Self)
        ensures
            r@ == (MediaDetailView { checksum: Some(t@), ..self@ }),
    {
        let mut s = self;
        s.checksum = Some(t);
        s
    }

    pub fn push_attribute(self, x: AttributeRecord) -> (r: Self)
        ensures
            r@ == (MediaDetailView { attributes: self@.attributes.push(x@), ..self@ }),
    {
        let mut s = self;
        s.attributes.push(x);
        assert(s@.attributes =~= self@.attributes.push(x@));
        s
    }

    pub fn push_note(self, x: String) -> (r: Self)
        ensures
            r@ == (MediaDetailView { notes: self@.notes.push(x@), ..self@ }),
    {
        let mut s = self;
        s.notes.push(x);
        assert(s@.notes =~= self@.notes.push(x@));
        s
    }

    pub fn push_citation(self, x: String) -> (r: Self)
        ensures
            r@ == (MediaDetailView { citations: self@.citations.push(x@), ..self@ }),
    {
        let mut s = self;
        s.citations.push(x);
        assert(s@.citations =~= self@.citations.push(x@));
        s
    }

    pub fn push_tag(self, x: String) -> (r: Self)
        ensures
            r@ == (MediaDetailView { tags: self@.tags.push(x@), ..self@ }),
    {
        let mut s = self;
        s.tags.push(x);
        assert(s@.tags =~= self@.tags.push(x@));
        s
    }
}

/// The state of reading one media object: the object so far, whether its
/// description or checksum is being read, and the attribute being read.
pub struct MediaParseView {
    pub item: MediaDetailView,
    pub in_desc: bool,
    pub in_checksum: bool,
    pub in_attribute: bool,
    pub attr_type: AttributeType,
    pub attr_value: Seq<char>,
}

/// A media object with the handle and id of its start tag and nothing
/// else.
pub open spec fn new_media_detail(tag: XmlTagView) -> MediaDetailView {
    MediaDetailView {
        handle: handle_or_empty(tag),
        gramps_id: attr_text(tag, spec_kw_id()),
        path: None,
        mime_type: None,
        desc: None,
        checksum: None,
        attributes: Seq::empty(),
        notes: Seq::empty(),
        citations: Seq::empty(),
        tags: Seq::empty(),
    }
}

/// The state at a media object's start tag.
pub open spec fn new_media_parse(tag: XmlTagView) -> MediaParseView {
    MediaParseView {
        item: new_media_detail(tag),
        in_desc: false,
        in_checksum: false,
        in_attribute: false,
        attr_type: AttributeType::Custom,
        attr_value: Seq::empty(),
    }
}

/// The type of an `<attribute>` tag: the one its last `type` names, or
/// `Custom` without one.
pub open spec fn media_attr_type(a: Seq<(Seq<u8>, Seq<u8>)>) -> AttributeType {
    match attr_last(a, spec_kw_type()) {
        Some(t) => attribute_type_of(t),
        None => AttributeType::Custom,
    }
}

/// The media object with one more attribute.
pub open spec fn media_attribute(c: MediaDetailView, t: AttributeType, v: Seq<char>) -> MediaDetailView {
    MediaDetailView { attributes: c.attributes.push(AttributeView { attr_type: t, value: v }), ..c }
}

/// The media object after an empty-element tag inside it. A `<file>` sets
/// the path and MIME type from its last `src` and `mime`; an empty
/// `<attribute>` is always added.
pub open spec fn empty_media(c: MediaDetailView, tag: XmlTagView) -> MediaDetailView {
    let n = local_name(tag.0);
    let a = tag.1;
    if n == spec_kw_file() {
        let c1 = match attr_last(a, spec_kw_src()) {
            Some(p) => MediaDetailView { path: Some(p), ..c },
            None => c,
        };
        match attr_last(a, spec_kw_mime()) {
            Some(m) => MediaDetailView { mime_type: Some(m), ..c1 },
            None => c1,
        }
    } else if n == spec_kw_attribute() {
        media_attribute(c, media_attr_type(a), text_or_empty(attr_last(a, spec_kw_value())))
    } else {
        match attr_text(tag, spec_kw_hlink()) {
            Some(h) => if n == spec_kw_noteref() {
                MediaDetailView { notes: c.notes.push(h), ..c }
            } else if n == spec_kw_citationref() {
                MediaDetailView { citations: c.citations.push(h), ..c }
            } else if n == spec_kw_tagref() {
                MediaDetailView { tags: c.tags.push(h), ..c }
            } else {
                c
            },
            None => c,
        }
    }
}

/// The trimmed, non-empty text `t` of a text event inside a media object:
/// the description or the checksum.
pub open spec fn media_text(s: MediaParseView, t: Seq<char>) -> MediaParseView {
    if s.in_desc {
        MediaParseView { item: MediaDetailView { desc: Some(t), ..s.item }, ..s }
    } else if s.in_checksum {
        MediaParseView { item: MediaDetailView { checksum: Some(t), ..s.item }, ..s }
    } else {
        s
    }
}

/// A start tag inside a media object.
pub open spec fn media_start(s: MediaParseView, tag: XmlTagView) -> MediaParseView {
    let n = local_name(tag.0);
    if n == spec_kw_description() {
        MediaParseView { in_desc: true, ..s }
    } else if n == spec_kw_checksum() {
        MediaParseView { in_checksum: true, ..s }
    } else if n == spec_kw_attribute() {
        MediaParseView {
            in_attribute: true,
            attr_type: media_attr_type(tag.1),
            attr_value: text_or_empty(attr_last(tag.1, spec_kw_value())),
            ..s
        }
    } else {
        s
    }
}

/// An end tag of local name `n` inside a media object (other than its own
/// end): the end of an `<attribute>` whose start tag was read adds it.
pub open spec fn media_end(s: MediaParseView, n: Seq<u8>) -> MediaParseView {
    if n == spec_kw_description() {
        MediaParseView { in_desc: false, ..s }
    } else if n == spec_kw_checksum() {
        MediaParseView { in_checksum: false, ..s }
    } else if n == spec_kw_attribute() && s.in_attribute {
        MediaParseView { item: media_attribute(s.item, s.attr_type, s.attr_value), in_attribute: false, ..s }
    } else {
        s
    }
}

/// One reader event inside a media object (other than its end tag).
pub open spec fn media_detail_step(s: MediaParseView, ev: XmlEventView) -> MediaParseView {
    match ev {
        XmlEventView::Start(tag) => media_start(s, tag),
        XmlEventView::Empty(tag) => MediaParseView { item: empty_media(s.item, tag), ..s },
        XmlEventView::Text(raw) => match unescaped_text(raw) {
            Some(t) => if trimmed(t).len() > 0 {
                media_text(s, trimmed(t))
            } else {
                s
            },
            None => s,
        },
        XmlEventView::End(name) => media_end(s, local_name(name)),
        _ => s,
    }
}

/// Abstract state of the document scan for media.
pub struct MediaScanView {
    pub in_section: bool,
    pub current: Option<MediaParseView>,
    pub items: Seq<MediaDetailView>,
}

pub open spec fn media_scan_start() -> MediaScanView {
    MediaScanView { in_section: false, current: None, items: Seq::empty() }
}

/// One step of the document scan for media.
pub open spec fn media_step(s: MediaScanView, ev: XmlEventView) -> MediaScanView {
    match s.current {
        Some(cp) => match ev {
            XmlEventView::End(name) => if local_name(name) == spec_kw_object() {
                MediaScanView { items: s.items.push(cp.item), current: None, ..s }
            } else {
                MediaScanView { current: Some(media_detail_step(cp, ev)), ..s }
            },
            _ => MediaScanView { current: Some(media_detail_step(cp, ev)), ..s },
        },
        None => match ev {
            XmlEventView::Start(tag) => {
                let n = local_name(tag.0);
                if detail_section(n) {
                    MediaScanView { in_section: n == spec_kw_objects(), ..s }
                } else if n == spec_kw_object() && s.in_section {
                    MediaScanView { current: Some(new_media_parse(tag)), ..s }
                } else {
                    s
                }
            },
            XmlEventView::Empty(tag) => if local_name(tag.0) == spec_kw_object() && s.in_section {
                MediaScanView { items: s.items.push(new_media_detail(tag)), ..s }
            } else {
                s
            },
            XmlEventView::End(name) => if detail_section(local_name(name)) {
                MediaScanView { in_section: false, ..s }
            } else {
                s
            },
            _ => s,
        },
    }
}

/// The message when the document ends inside a media object.
pub open spec fn media_eof_message() -> Seq<char> {
    "unexpected end of file while parsing media object"@
}

/// The media read from a document: the scan run over the reader's
/// events for `input` after `calls`, from state `s`, taking at most `fuel`
/// of them other than the end.
pub open spec fn scan_media_detail(input: Seq<char>, calls: Seq<XmlCall>, s: MediaScanView, fuel: nat) -> Result<
    Seq<MediaDetailView>,
    Seq<char>,
>
    decreases fuel,
{
    match xml_next_event(input, calls) {
        Err(m) => Err(m),
        Ok(XmlEventView::Eof) => if s.current is Some {
            Err(media_eof_message())
        } else {
            Ok(s.items)
        },
        Ok(ev) => if fuel == 0 {
            Err(unended_message())
        } else {
            scan_media_detail(input, calls.push(XmlCall::NextEvent), media_step(s, ev), (fuel - 1) as nat)
        },
    }
}

// ---------------------------------------------------------------------------
// Executable reading
// ---------------------------------------------------------------------------

fn attr_type_exec(tag: &XmlTag) -> (r: AttributeType)
    ensures
        r == media_attr_type(tag@.1),
{
    match read_attr_last(tag, kw_type().as_slice()) {
        Some(t) => parse_attribute_type(t.as_str()),
        None => AttributeType::Custom,
    }
}

fn empty_media_exec(c: MediaDetail, tag: &XmlTag) -> (r: MediaDetail)
    ensures
        r@ == empty_media(c@, tag@),
{
    let n = strip_prefix(tag.name.as_slice());
    if bytes_eq(n, kw_file().as_slice()) {
        let c1 = match read_attr_last(tag, kw_src().as_slice()) {
            Some(p) => c.set_path(p),
            None => c,
        };
        match read_attr_last(tag, kw_mime().as_slice()) {
            Some(m) => c1.set_mime_type(m),
            None => c1,
        }
    } else if bytes_eq(n, kw_attribute().as_slice()) {
        let t = attr_type_exec(tag);
        let v = or_empty(read_attr_last(tag, kw_value().as_slice()));
        c.push_attribute(AttributeRecord::new(t, v))
    } else {
        match read_hlink_attr(tag) {
            Some(h) => {
                if bytes_eq(n, kw_noteref().as_slice()) {
                    c.push_note(h)
                } else if bytes_eq(n, kw_citationref().as_slice()) {
                    c.push_citation(h)
                } else if bytes_eq(n, kw_tagref().as_slice()) {
                    c.push_tag(h)
                } else {
                    c
                }
            },
            None => c,
        }
    }
}

/// The state of reading one media object.
pub struct MediaParse {
    item: MediaDetail,
    in_desc: bool,
    in_checksum: bool,
    in_attribute: bool,
    attr_type: AttributeType,
    attr_value: String,
}

impl View for MediaParse {
    type V = MediaParseView;

    closed spec fn view(&self) -> MediaParseView {
        MediaParseView {
            item: self.item@,
            in_desc: self.in_desc,
            in_checksum: self.in_checksum,
            in_attribute: self.in_attribute,
            attr_type: self.attr_type,
            attr_value: self.attr_value@,
        }
    }
}

impl MediaParse {
    /// The state at a media object's start tag.
    pub fn new(tag: &XmlTag) -> (r: Self)
        ensures
            r@ == new_media_parse(tag@),
    {
        let handle = match read_handle_attr(tag) {
            Some(h) => h,
            None => String::new(),
        };
        let gramps_id = read_attr(tag, kw_id().as_slice());
        MediaParse {
            item: MediaDetail::new(handle, gramps_id),
            in_desc: false,
            in_checksum: false,
            in_attribute: false,
            attr_type: AttributeType::Custom,
            attr_value: String::new(),
        }
    }

    fn start(self, tag: &XmlTag) -> (r: Self)
        ensures
            r@ == media_start(self@, tag@),
    {
        let MediaParse { item, in_desc, in_checksum, in_attribute, attr_type, attr_value } = self;
        let n = strip_prefix(tag.name.as_slice());
        if bytes_eq(n, kw_description().as_slice()) {
            MediaParse { item, in_desc: true, in_checksum, in_attribute, attr_type, attr_value }
        } else if bytes_eq(n, kw_checksum().as_slice()) {
            MediaParse { item, in_desc, in_checksum: true, in_attribute, attr_type, attr_value }
        } else if bytes_eq(n, kw_attribute().as_slice()) {
            let t = attr_type_exec(tag);
            let v = or_empty(read_attr_last(tag, kw_value().as_slice()));
            MediaParse { item, in_desc, in_checksum, in_attribute: true, attr_type: t, attr_value: v }
        } else {
            MediaParse { item, in_desc, in_checksum, in_attribute, attr_type, attr_value }
        }
    }

    fn end(self, n: &[u8]) -> (r: Self)
        ensures
            r@ == media_end(self@, n@),
    {
        let MediaParse { item, in_desc, in_checksum, in_attribute, attr_type, attr_value } = self;
        if bytes_eq(n, kw_description().as_slice()) {
            MediaParse { item, in_desc: false, in_checksum, in_attribute, attr_type, attr_value }
        } else if bytes_eq(n, kw_checksum().as_slice()) {
            MediaParse { item, in_desc, in_checksum: false, in_attribute, attr_type, attr_value }
        } else if bytes_eq(n, kw_attribute().as_slice()) && in_attribute {
            let item = item.push_attribute(AttributeRecord::new(attr_type, attr_value.clone()));
            MediaParse { item, in_desc, in_checksum, in_attribute: false, attr_type, attr_value }
        } else {
            MediaParse { item, in_desc, in_checksum, in_attribute, attr_type, attr_value }
        }
    }

    fn text(self, t: String) -> (r: Self)
        ensures
            r@ == media_text(self@, t@),
    {
        let MediaParse { item, in_desc, in_checksum, in_attribute, attr_type, attr_value } = self;
        if in_desc {
            MediaParse { item: item.set_desc(t), in_desc, in_checksum, in_attribute, attr_type, attr_value }
        } else if in_checksum {
            MediaParse { item: item.set_checksum(t), in_desc, in_checksum, in_attribute, attr_type, attr_value }
        } else {
            MediaParse { item, in_desc, in_checksum, in_attribute, attr_type, attr_value }
        }
    }

    /// Fold one reader event inside the media object (other than its end
    /// tag) into the state (see `media_detail_step`).
    pub fn step(self, ev: &XmlEvent) -> (r: Self)
        ensures
            r@ == media_detail_step(self@, ev@),
    {
        match ev {
            XmlEvent::Start(tag) => self.start(tag),
            XmlEvent::Empty(tag) => {
                let MediaParse { item, in_desc, in_checksum, in_attribute, attr_type, attr_value } = self;
                MediaParse { item: empty_media_exec(item, tag), in_desc, in_checksum, in_attribute, attr_type, attr_value }
            },
            XmlEvent::Text(raw) => {
                match unescape_text(raw.as_slice()) {
                    Some(t) => {
                        let tt = trim(t.as_str());
                        if !tt.as_str().is_empty() {
                            self.text(tt)
                        } else {
                            self
                        }
                    },
                    None => self,
                }
            },
            XmlEvent::End(name) => {
                let n = strip_prefix(name.as_slice());
                self.end(n)
            },
            _ => self,
        }
    }

    /// The media object read.
    pub fn finish(self) -> (r: MediaDetail)
        ensures
            r@ == self@.item,
    {
        self.item
    }
}

pub open spec fn media_view(v: Seq<MediaDetail>) -> Seq<MediaDetailView> {
    v.map_values(|c: MediaDetail| c@)
}

/// The state of the document scan for media.
pub struct MediaScan {
    in_section: bool,
    current: Option<MediaParse>,
    items: Vec<MediaDetail>,
}

impl View for MediaScan {
    type V = MediaScanView;

    closed spec fn view(&self) -> MediaScanView {
        MediaScanView {
            in_section: self.in_section,
            current: match self.current {
                Some(c) => Some(c@),
                None => None,
            },
            items: media_view(self.items@),
        }
    }
}

impl MediaScan {
    /// A scan that has read nothing.
    pub fn new() -> (r: Self)
        ensures
            r@ == media_scan_start(),
    {
        let r = MediaScan { in_section: false, current: None, items: Vec::new() };
        assert(r@.items =~= Seq::<MediaDetailView>::empty());
        r
    }

    /// Whether a media object is being read.
    pub fn in_media(&self) -> (b: bool)
        ensures
            b == self@.current is Some,
    {
        self.current.is_some()
    }

    /// Fold one reader event into the scan (see `media_step`).
    pub fn step(self, ev: &XmlEvent) -> (r: Self)
        ensures
            r@ == media_step(self@, ev@),
    {
        let MediaScan { in_section, current, items } = self;
        let mut items = items;
        match current {
            Some(cp) => {
                let is_end = match ev {
                    XmlEvent::End(name) => bytes_eq(strip_prefix(name.as_slice()), kw_object().as_slice()),
                    _ => false,
                };
                if is_end {
                    let c = cp.finish();
                    let ghost before = media_view(items@);
                    items.push(c);
                    assert(media_view(items@) =~= before.push(c@));
                    MediaScan { in_section, current: None, items }
                } else {
                    MediaScan { in_section, current: Some(cp.step(ev)), items }
                }
            },
            None => {
                match ev {
                    XmlEvent::Start(tag) => {
                        let n = strip_prefix(tag.name.as_slice());
                        if is_detail_section(n) {
                            MediaScan { in_section: bytes_eq(n, kw_objects().as_slice()), current: None, items }
                        } else if bytes_eq(n, kw_object().as_slice()) && in_section {
                            MediaScan { in_section, current: Some(MediaParse::new(tag)), items }
                        } else {
                            MediaScan { in_section, current: None, items }
                        }
                    },
                    XmlEvent::Empty(tag) => {
                        let n = strip_prefix(tag.name.as_slice());
                        if bytes_eq(n, kw_object().as_slice()) && in_section {
                            let c = MediaParse::new(tag).finish();
                            let ghost before = media_view(items@);
                            items.push(c);
                            assert(media_view(items@) =~= before.push(c@));
                        }
                        MediaScan { in_section, current: None, items }
                    },
                    XmlEvent::End(name) => {
                        let n = strip_prefix(name.as_slice());
                        let fl = if is_detail_section(n) { false } else { in_section };
                        MediaScan { in_section: fl, current: None, items }
                    },
                    _ => MediaScan { in_section, current: None, items },
                }
            },
        }
    }

    /// The media read so far.
    pub fn finish(self) -> (r: Vec<MediaDetail>)
        ensures
            media_view(r@) == self@.items,
    {
        self.items
    }
}

fn media_eof_error() -> (e: Error)
    ensures
        e matches Error::XmlParseError { message } && message@ == media_eof_message(),
{
    let mut m = String::new();
    crate::text::push_str(&mut m, "unexpected end of file while parsing media object");
    assert(m@ =~= media_eof_message());
    Error::XmlParseError { message: m }
}

/// Read all media of a Gramps XML document in full detail (see
/// `media_step` and `media_detail_step`). A reader error becomes an
/// `XmlParseError` with the reader's message; a document that ends inside
/// a media object is an `XmlParseError` too.
pub fn parse_media_detail(content: &str) -> (r: Result<Vec<MediaDetail>, Error>)
    ensures
        match scan_media_detail(content@, Seq::empty(), media_scan_start(), content.len() as nat) {
            Ok(cs) => r matches Ok(v) && media_view(v@) == cs,
            Err(m) => r matches Err(Error::XmlParseError { message }) && message@ == m,
        },
{
    let mut cursor = XmlCursor::new(content);
    let mut scan = MediaScan::new();
    let mut fuel: usize = content.len();
    loop
        invariant
            cursor.input() == content@,
            scan_media_detail(content@, Seq::empty(), media_scan_start(), content.len() as nat)
                == scan_media_detail(content@, cursor.calls(), scan@, fuel as nat),
        decreases fuel,
    {
        match cursor.next_event() {
            Err(m) => {
                return Err(Error::XmlParseError { message: m });
            },
            Ok(XmlEvent::Eof) => {
                if scan.in_media() {
                    return Err(media_eof_error());
                }
                return Ok(scan.finish());
            },
            Ok(ev) => {
                if fuel == 0 {
                    return Err(unended_error());
                }
                fuel = fuel - 1;
                scan = scan.step(&ev);
            },
        }
    }
}

} // verus!
