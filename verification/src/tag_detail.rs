//! Reading tags in full detail from Gramps XML: name, colour, priority,
//! and the tags a tag refers to.
//!
//! Inside a `<tag>` element every event of the reader is folded into a tag
//! parse state by `tag_detail_step`; the document scan (`tags_step`)
//! tracks the sections and hands the events of each `<tag>` to it.

use vstd::prelude::*;
use crate::error::Error;
use crate::extract::{handle_or_empty, unended_error, unended_message, unescape_text, unescaped_text};
use crate::graph_names::{
    kw_color, kw_id, kw_priority, kw_tag, kw_tagref, kw_tags, spec_kw_color, spec_kw_id, spec_kw_priority,
    spec_kw_tag, spec_kw_tagref, spec_kw_tags,
};
use crate::names::{kw_name, spec_kw_hlink, spec_kw_name};
use crate::person_detail::{detail_section, is_detail_section};
use crate::person_records::texts_view;
use crate::text::{parse_i32, parsed_i32, str_chars, trim, trimmed};
use crate::types::opt_text;
use crate::xml::{attr_text, bytes_eq, local_name, read_attr, read_handle_attr, read_hlink_attr, strip_prefix, XmlTag, XmlTagView};
use crate::xml_reader::{xml_next_event, XmlCall, XmlCursor, XmlEvent, XmlEventView};

verus! {

/// A tag in full detail.
#[derive(Debug, Clone)]
pub struct TagDetail {
    pub handle: String,
    pub gramps_id: Option<String>,
    pub name: String,
    pub color: Option<String>,
    pub priority: Option<i32>,
    pub tags: Vec<String>,
}

pub struct TagDetailView {
    pub handle: Seq<char>,
    pub gramps_id: Option<Seq<char>>,
    pub name: Seq<char>,
    pub color: Option<Seq<char>>,
    pub priority: Option<i32>,
    pub tags: Seq<Seq<char>>,
}

impl View for TagDetail {
    type V = TagDetailView;

    open spec fn view(&self) -> TagDetailView {
        TagDetailView {
            handle: self.handle@,
            gramps_id: opt_text(self.gramps_id),
            name: self.name@,
            color: opt_text(self.color),
            priority: self.priority,
            tags: texts_view(self.tags@),
        }
    }
}

impl TagDetail {
    /// A tag with a handle and id, an empty name, and nothing else.
    pub fn new(handle: String, gramps_id: Option<String>) -> (r: Self)
        ensures
            r@ == (TagDetailView {
                handle: handle@,
                gramps_id: opt_text(gramps_id),
                name: Seq::empty(),
                color: None,
                priority: None,
                tags: Seq::empty(),
            }),
    {
        let r = TagDetail { handle, gramps_id, name: String::new(), color: None, priority: None, tags: Vec::new() };
        assert(r@.tags =~= Seq::<Seq<char>>::empty());
        r
    }

    pub fn set_name(self, t: String) -> (r: Self)
        ensures
            r@ == (TagDetailView { name: t@, ..self@ }),
    {
        let mut s = self;
        s.name = t;
        s
    }

    pub fn set_color(self, t: String) -> (r: Self)
        ensures
            r@ == (TagDetailView { color: Some(t@), ..self@ }),
    {
        let mut s = self;
        s.color = Some(t);
        s
    }

    pub fn set_priority(self, p: i32) -> (r: Self)
        ensures
            r@ == (TagDetailView { priority: Some(p), ..self@ }),
    {
        let mut s = self;
        s.priority = Some(p);
        s
    }

    pub fn push_tag(self, x: String) -> (r: Self)
        ensures
            r@ == (TagDetailView { tags: self@.tags.push(x@), ..self@ }),
    {
        let mut s = self;
        s.tags.push(x);
        assert(s@.tags =~= self@.tags.push(x@));
        s
    }
}

/// The state of reading one tag: the tag so far and whether its name,
/// colour or priority is being read.
pub struct TagParseView {
    pub item: TagDetailView,
    pub in_name: bool,
    pub in_color: bool,
    pub in_priority: bool,
}

/// A tag with the handle and id of its start tag and nothing else.
pub open spec fn new_tag_detail(tag: XmlTagView) -> TagDetailView {
    TagDetailView {
        handle: handle_or_empty(tag),
        gramps_id: attr_text(tag, spec_kw_id()),
        name: Seq::empty(),
        color: None,
        priority: None,
        tags: Seq::empty(),
    }
}

/// The state at a tag's start tag.
pub open spec fn new_tag_parse(tag: XmlTagView) -> TagParseView {
    TagParseView { item: new_tag_detail(tag), in_name: false, in_color: false, in_priority: false }
}

/// The tag after an empty-element tag inside it: a `<tagref>` adds a tag.
pub open spec fn empty_tag(c: TagDetailView, tag: XmlTagView) -> TagDetailView {
    match attr_text(tag, spec_kw_hlink()) {
        Some(h) => if local_name(tag.0) == spec_kw_tagref() {
            TagDetailView { tags: c.tags.push(h), ..c }
        } else {
            c
        },
        None => c,
    }
}

/// The trimmed, non-empty text `t` of a text event inside a tag: the name,
/// the colour, or the priority (when it reads as a number).
pub open spec fn tag_text(s: TagParseView, t: Seq<char>) -> TagParseView {
    if s.in_name {
        TagParseView { item: TagDetailView { name: t, ..s.item }, ..s }
    } else if s.in_color {
        TagParseView { item: TagDetailView { color: Some(t), ..s.item }, ..s }
    } else if s.in_priority {
        match parsed_i32(t) {
            Some(p) => TagParseView { item: TagDetailView { priority: Some(p), ..s.item }, ..s },
            None => s,
        }
    } else {
        s
    }
}

/// One reader event inside a tag (other than its end tag).
pub open spec fn tag_detail_step(s: TagParseView, ev: XmlEventView) -> TagParseView {
    match ev {
        XmlEventView::Start(tag) => {
            let n = local_name(tag.0);
            if n == spec_kw_name() {
                TagParseView { in_name: true, ..s }
            } else if n == spec_kw_color() {
                TagParseView { in_color: true, ..s }
            } else if n == spec_kw_priority() {
                TagParseView { in_priority: true, ..s }
            } else {
                s
            }
        },
        XmlEventView::Empty(tag) => TagParseView { item: empty_tag(s.item, tag), ..s },
        XmlEventView::Text(raw) => match unescaped_text(raw) {
            Some(t) => if trimmed(t).len() > 0 {
                tag_text(s, trimmed(t))
            } else {
                s
            },
            None => s,
        },
        XmlEventView::End(name) => {
            let n = local_name(name);
            if n == spec_kw_name() {
                TagParseView { in_name: false, ..s }
            } else if n == spec_kw_color() {
                TagParseView { in_color: false, ..s }
            } else if n == spec_kw_priority() {
                TagParseView { in_priority: false, ..s }
            } else {
                s
            }
        },
        _ => s,
    }
}

/// Abstract state of the document scan for tags.
pub struct TagsScanView {
    pub in_section: bool,
    pub current: Option<TagParseView>,
    pub items: Seq<TagDetailView>,
}

pub open spec fn tags_scan_start() -> TagsScanView {
    TagsScanView { in_section: false, current: None, items: Seq::empty() }
}

/// One step of the document scan for tags.
pub open spec fn tags_step(s: TagsScanView, ev: XmlEventView) -> TagsScanView {
    match s.current {
        Some(cp) => match ev {
            XmlEventView::End(name) => if local_name(name) == spec_kw_tag() {
                TagsScanView { items: s.items.push(cp.item), current: None, ..s }
            } else {
                TagsScanView { current: Some(tag_detail_step(cp, ev)), ..s }
            },
            _ => TagsScanView { current: Some(tag_detail_step(cp, ev)), ..s },
        },
        None => match ev {
            XmlEventView::Start(tag) => {
                let n = local_name(tag.0);
                if detail_section(n) {
                    TagsScanView { in_section: n == spec_kw_tags(), ..s }
                } else if n == spec_kw_tag() && s.in_section {
                    TagsScanView { current: Some(new_tag_parse(tag)), ..s }
                } else {
                    s
                }
            },
            XmlEventView::Empty(tag) => if local_name(tag.0) == spec_kw_tag() && s.in_section {
                TagsScanView { items: s.items.push(new_tag_detail(tag)), ..s }
            } else {
                s
            },
            XmlEventView::End(name) => if detail_section(local_name(name)) {
                TagsScanView { in_section: false, ..s }
            } else {
                s
            },
            _ => s,
        },
    }
}

/// The message when the document ends inside a tag.
pub open spec fn tag_eof_message() -> Seq<char> {
    "unexpected end of file while parsing tag"@
}

/// The tags read from a document: the scan run over the reader's
/// events for `input` after `calls`, from state `s`, taking at most `fuel`
/// of them other than the end.
pub open spec fn scan_tags_detail(input: Seq<char>, calls: Seq<XmlCall>, s: TagsScanView, fuel: nat) -> Result<
    Seq<TagDetailView>,
    Seq<char>,
>
    decreases fuel,
{
    match xml_next_event(input, calls) {
        Err(m) => Err(m),
        Ok(XmlEventView::Eof) => if s.current is Some {
            Err(tag_eof_message())
        } else {
            Ok(s.items)
        },
        Ok(ev) => if fuel == 0 {
            Err(unended_message())
        } else {
            scan_tags_detail(input, calls.push(XmlCall::NextEvent), tags_step(s, ev), (fuel - 1) as nat)
        },
    }
}

// ---------------------------------------------------------------------------
// Executable reading
// ---------------------------------------------------------------------------

fn empty_tag_exec(c: TagDetail, tag: &XmlTag) -> (r: TagDetail)
    ensures
        r@ == empty_tag(c@, tag@),
{
    let n = strip_prefix(tag.name.as_slice());
    match read_hlink_attr(tag) {
        Some(h) => {
            if bytes_eq(n, kw_tagref().as_slice()) {
                c.push_tag(h)
            } else {
                c
            }
        },
        None => c,
    }
}

/// The state of reading one tag.
pub struct TagParse {
    item: TagDetail,
    in_name: bool,
    in_color: bool,
    in_priority: bool,
}

impl View for TagParse {
    type V = TagParseView;

    closed spec fn view(&self) -> TagParseView {
        TagParseView { item: self.item@, in_name: self.in_name, in_color: self.in_color, in_priority: self.in_priority }
    }
}

impl TagParse {
    /// The state at a tag's start tag.
    pub fn new(tag: &XmlTag) -> (r: Self)
        ensures
            r@ == new_tag_parse(tag@),
    {
        let handle = match read_handle_attr(tag) {
            Some(h) => h,
            None => String::new(),
        };
        let gramps_id = read_attr(tag, kw_id().as_slice());
        TagParse { item: TagDetail::new(handle, gramps_id), in_name: false, in_color: false, in_priority: false }
    }

    fn text(self, t: String) -> (r: Self)
        ensures
            r@ == tag_text(self@, t@),
    {
        let TagParse { item, in_name, in_color, in_priority } = self;
        if in_name {
            TagParse { item: item.set_name(t), in_name, in_color, in_priority }
        } else if in_color {
            TagParse { item: item.set_color(t), in_name, in_color, in_priority }
        } else if in_priority {
            let cs = str_chars(t.as_str());
            match parse_i32(cs.as_slice()) {
                Some(p) => TagParse { item: item.set_priority(p), in_name, in_color, in_priority },
                None => TagParse { item, in_name, in_color, in_priority },
            }
        } else {
            TagParse { item, in_name, in_color, in_priority }
        }
    }

    /// Fold one reader event inside the tag (other than its end tag) into
    /// the state (see `tag_detail_step`).
    pub fn step(self, ev: &XmlEvent) -> (r: Self)
        ensures
            r@ == tag_detail_step(self@, ev@),
    {
        let TagParse { item, in_name, in_color, in_priority } = self;
        match ev {
            XmlEvent::Start(tag) => {
                let n = strip_prefix(tag.name.as_slice());
                if bytes_eq(n, kw_name().as_slice()) {
                    TagParse { item, in_name: true, in_color, in_priority }
                } else if bytes_eq(n, kw_color().as_slice()) {
                    TagParse { item, in_name, in_color: true, in_priority }
                } else if bytes_eq(n, kw_priority().as_slice()) {
                    TagParse { item, in_name, in_color, in_priority: true }
                } else {
                    TagParse { item, in_name, in_color, in_priority }
                }
            },
            XmlEvent::Empty(tag) => TagParse { item: empty_tag_exec(item, tag), in_name, in_color, in_priority },
            XmlEvent::Text(raw) => {
                let s = TagParse { item, in_name, in_color, in_priority };
                match unescape_text(raw.as_slice()) {
                    Some(t) => {
                        let tt = trim(t.as_str());
                        if !tt.as_str().is_empty() {
                            s.text(tt)
                        } else {
                            s
                        }
                    },
                    None => s,
                }
            },
            XmlEvent::End(name) => {
                let n = strip_prefix(name.as_slice());
                if bytes_eq(n, kw_name().as_slice()) {
                    TagParse { item, in_name: false, in_color, in_priority }
                } else if bytes_eq(n, kw_color().as_slice()) {
                    TagParse { item, in_name, in_color: false, in_priority }
                } else if bytes_eq(n, kw_priority().as_slice()) {
                    TagParse { item, in_name, in_color, in_priority: false }
                } else {
                    TagParse { item, in_name, in_color, in_priority }
                }
            },
            _ => TagParse { item, in_name, in_color, in_priority },
        }
    }

    /// The tag read.
    pub fn finish(self) -> (r: TagDetail)
        ensures
            r@ == self@.item,
    {
        self.item
    }
}

pub open spec fn tags_view(v: Seq<TagDetail>) -> Seq<TagDetailView> {
    v.map_values(|c: TagDetail| c@)
}

/// The state of the document scan for tags.
pub struct TagsScan {
    in_section: bool,
    current: Option<TagParse>,
    items: Vec<TagDetail>,
}

impl View for TagsScan {
    type V = TagsScanView;

    closed spec fn view(&self) -> TagsScanView {
        TagsScanView {
            in_section: self.in_section,
            current: match self.current {
                Some(c) => Some(c@),
                None => None,
            },
            items: tags_view(self.items@),
        }
    }
}

impl TagsScan {
    /// A scan that has read nothing.
    pub fn new() -> (r: Self)
        ensures
            r@ == tags_scan_start(),
    {
        let r = TagsScan { in_section: false, current: None, items: Vec::new() };
        assert(r@.items =~= Seq::<TagDetailView>::empty());
        r
    }

    /// Whether a tag is being read.
    pub fn in_tag(&self) -> (b: bool)
        ensures
            b == self@.current is Some,
    {
        self.current.is_some()
    }

    /// Fold one reader event into the scan (see `tags_step`).
    pub fn step(self, ev: &XmlEvent) -> (r: Self)
        ensures
            r@ == tags_step(self@, ev@),
    {
        let TagsScan { in_section, current, items } = self;
        let mut items = items;
        match current {
            Some(cp) => {
                let is_end = match ev {
                    XmlEvent::End(name) => bytes_eq(strip_prefix(name.as_slice()), kw_tag().as_slice()),
                    _ => false,
                };
                if is_end {
                    let c = cp.finish();
                    let ghost before = tags_view(items@);
                    items.push(c);
                    assert(tags_view(items@) =~= before.push(c@));
                    TagsScan { in_section, current: None, items }
                } else {
                    TagsScan { in_section, current: Some(cp.step(ev)), items }
                }
            },
            None => {
                match ev {
                    XmlEvent::Start(tag) => {
                        let n = strip_prefix(tag.name.as_slice());
                        if is_detail_section(n) {
                            TagsScan { in_section: bytes_eq(n, kw_tags().as_slice()), current: None, items }
                        } else if bytes_eq(n, kw_tag().as_slice()) && in_section {
                            TagsScan { in_section, current: Some(TagParse::new(tag)), items }
                        } else {
                            TagsScan { in_section, current: None, items }
                        }
                    },
                    XmlEvent::Empty(tag) => {
                        let n = strip_prefix(tag.name.as_slice());
                        if bytes_eq(n, kw_tag().as_slice()) && in_section {
                            let c = TagParse::new(tag).finish();
                            let ghost before = tags_view(items@);
                            items.push(c);
                            assert(tags_view(items@) =~= before.push(c@));
                        }
                        TagsScan { in_section, current: None, items }
                    },
                    XmlEvent::End(name) => {
                        let n = strip_prefix(name.as_slice());
                        let fl = if is_detail_section(n) { false } else { in_section };
                        TagsScan { in_section: fl, current: None, items }
                    },
                    _ => TagsScan { in_section, current: None, items },
                }
            },
        }
    }

    /// The tags read so far.
    pub fn finish(self) -> (r: Vec<TagDetail>)
        ensures
            tags_view(r@) == self@.items,
    {
        self.items
    }
}

fn tag_eof_error() -> (e: Error)
    ensures
        e matches Error::XmlParseError { message } && message@ == tag_eof_message(),
{
    let mut m = String::new();
    crate::text::push_str(&mut m, "unexpected end of file while parsing tag");
    assert(m@ =~= tag_eof_message());
    Error::XmlParseError { message: m }
}

/// Read all tags of a Gramps XML document in full detail (see
/// `tags_step` and `tag_detail_step`). A reader error becomes an
/// `XmlParseError` with the reader's message; a document that ends inside
/// a tag is an `XmlParseError` too.
pub fn parse_tags_detail(content: &str) -> (r: Result<Vec<TagDetail>, Error>)
    ensures
        match scan_tags_detail(content@, Seq::empty(), tags_scan_start(), content.len() as nat) {
            Ok(cs) => r matches Ok(v) && tags_view(v@) == cs,
            Err(m) => r matches Err(Error::XmlParseError { message }) && message@ == m,
        },
{
    let mut cursor = XmlCursor::new(content);
    let mut scan = TagsScan::new();
    let mut fuel: usize = content.len();
    loop
        invariant
            cursor.input() == content@,
            scan_tags_detail(content@, Seq::empty(), tags_scan_start(), content.len() as nat)
                == scan_tags_detail(content@, cursor.calls(), scan@, fuel as nat),
        decreases fuel,
    {
        match cursor.next_event() {
            Err(m) => {
                return Err(Error::XmlParseError { message: m });
            },
            Ok(XmlEvent::Eof) => {
                if scan.in_tag() {
                    return Err(tag_eof_error());
                }
                return Ok(scan.finish());
            },
            Ok(ev) => {
                if fuel == 0 {
                    return Err(unended_error());
                }
                fuel = fuel - 1;
                scan = scan.step(&ev);
            },
        }
    }
}

} // verus!
