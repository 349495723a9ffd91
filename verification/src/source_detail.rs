//! Reading sources in full detail from Gramps XML: title, author,
//! publication information, repository references with call numbers and
//! media types, attributes, and the notes, tags and media a source refers
//! to.
//!
//! Inside a `<source>` element every event of the reader is folded into a
//! source parse state by `source_detail_step`; the document scan
//! (`sources_step`) tracks the sections and hands the events of each
//! `<source>` to it.

use vstd::prelude::*;
use crate::error::Error;
use crate::extract::{handle_or_empty, unended_error, unended_message, unescape_text, unescaped_text};
use crate::graph_names::{
    kw_attribute, kw_author, kw_callnumber, kw_id, kw_mediaref, kw_mediatype, kw_noteref, kw_pubinfo,
    kw_reporef, kw_source, kw_sources, kw_tagref, kw_title, kw_value, spec_kw_attribute, spec_kw_author,
    spec_kw_callnumber, spec_kw_id, spec_kw_mediaref, spec_kw_mediatype, spec_kw_noteref, spec_kw_pubinfo,
    spec_kw_reporef, spec_kw_source, spec_kw_sources, spec_kw_tagref, spec_kw_title, spec_kw_value,
};
use crate::names::{kw_type, spec_kw_hlink, spec_kw_type};
use crate::person_detail::{attr_last, detail_section, is_detail_section, or_empty, read_attr_last, text_or_empty};
use crate::person_records::{texts_view, AttributeRecord, AttributeView};
use crate::text::{trim, trimmed};
use crate::typed_values::{attribute_type_of, parse_attribute_type, parse_source_media_type, source_media_type_of, SourceMediaType};
use crate::types::opt_text;
use crate::xml::{attr_text, bytes_eq, local_name, read_attr, read_handle_attr, read_hlink_attr, strip_prefix, XmlTag, XmlTagView};
use crate::xml_reader::{xml_next_event, XmlCall, XmlCursor, XmlEvent, XmlEventView};

verus! {

/// A source's reference to a repository.
#[derive(Debug, Clone)]
pub struct RepoRefRecord {
    pub target: String,
    pub call_number: Option<String>,
    pub media_type: Option<SourceMediaType>,
}

pub struct RepoRefView {
    pub target: Seq<char>,
    pub call_number: Option<Seq<char>>,
    pub media_type: Option<SourceMediaType>,
}

impl View for RepoRefRecord {
    type V = RepoRefView;

    open spec fn view(&self) -> RepoRefView {
        RepoRefView { target: self.target@, call_number: opt_text(self.call_number), media_type: self.media_type }
    }
}

impl RepoRefRecord {
    pub fn new(target: String, call_number: Option<String>, media_type: Option<SourceMediaType>) -> (r: Self)
        ensures
            r@ == (RepoRefView { target: target@, call_number: opt_text(call_number), media_type }),
    {
        RepoRefRecord { target, call_number, media_type }
    }
}

/// A source in full detail.
#[derive(Debug, Clone)]
pub struct SourceDetail {
    pub handle: String,
    pub gramps_id: Option<String>,
    pub title: String,
    pub author: Option<String>,
    pub pubinfo: Option<String>,
    pub repo_refs: Vec<RepoRefRecord>,
    pub attributes: Vec<AttributeRecord>,
    pub notes: Vec<String>,
    pub tags: Vec<String>,
    pub media: Vec<String>,
}

pub struct SourceDetailView {
    pub handle: Seq<char>,
    pub gramps_id: Option<Seq<char>>,
    pub title: Seq<char>,
    pub author: Option<Seq<char>>,
    pub pubinfo: Option<Seq<char>>,
    pub repo_refs: Seq<RepoRefView>,
    pub attributes: Seq<AttributeView>,
    pub notes: Seq<Seq<char>>,
    pub tags: Seq<Seq<char>>,
    pub media: Seq<Seq<char>>,
}

impl View for SourceDetail {
    type V = SourceDetailView;

    open spec fn view(&self) -> SourceDetailView {
        SourceDetailView {
            handle: self.handle@,
            gramps_id: opt_text(self.gramps_id),
            title: self.title@,
            author: opt_text(self.author),
            pubinfo: opt_text(self.pubinfo),
            repo_refs: self.repo_refs@.map_values(|r: RepoRefRecord| r@),
            attributes: self.attributes@.map_values(|a: AttributeRecord| a@),
            notes: texts_view(self.notes@),
            tags: texts_view(self.tags@),
            media: texts_view(self.media@),
        }
    }
}

impl SourceDetail {
    /// A source with a handle and id, an empty title, and nothing else.
    pub fn new(handle: String, gramps_id: Option<String>) -> (r: Self)
        ensures
            r@ == (SourceDetailView {
                handle: handle@,
                gramps_id: opt_text(gramps_id),
                title: Seq::empty(),
                author: None,
                pubinfo: None,
                repo_refs: Seq::empty(),
                attributes: Seq::empty(),
                notes: Seq::empty(),
                tags: Seq::empty(),
                media: Seq::empty(),
            }),
    {
        let r = SourceDetail {
            handle,
            gramps_id,
            title: String::new(),
            author: None,
            pubinfo: None,
            repo_refs: Vec::new(),
            attributes: Vec::new(),
            notes: Vec::new(),
            tags: Vec::new(),
            media: Vec::new(),
        };
        assert(r@.repo_refs =~= Seq::<RepoRefView>::empty());
        assert(r@.attributes =~= Seq::<AttributeView>::empty());
        assert(r@.notes =~= Seq::<Seq<char>>::empty());
        assert(r@.tags =~= Seq::<Seq<char>>::empty());
        assert(r@.media =~= Seq::<Seq<char>>::empty());
        r
    }

    pub fn set_title(self, t: String) -> (r: Self)
        ensures
            r@ == (SourceDetailView { title: t@, ..self@ }),
    {
        let mut s = self;
        s.title = t;
        s
    }

    pub fn set_author(self, t: String) -> (r: Self)
        ensures
            r@ == (SourceDetailView { author: Some(t@), ..self@ }),
    {
        let mut s = self;
        s.author = Some(t);
        s
    }

    pub fn set_pubinfo(self, t: String) -> (r: Self)
        ensures
            r@ == (SourceDetailView { pubinfo: Some(t@), ..self@ }),
    {
        let mut s = self;
        s.pubinfo = Some(t);
        s
    }

    pub fn push_repo_ref(self, x: RepoRefRecord) -> (r: Self)
        ensures
            r@ == (SourceDetailView { repo_refs: self@.repo_refs.push(x@), ..self@ }),
    {
        let mut s = self;
        s.repo_refs.push(x);
        assert(s@.repo_refs =~= self@.repo_refs.push(x@));
        s
    }

    pub fn push_attribute(self, x: AttributeRecord) -> (r: Self)
        ensures
            r@ == (SourceDetailView { attributes: self@.attributes.push(x@), ..self@ }),
    {
        let mut s = self;
        s.attributes.push(x);
        assert(s@.attributes =~= self@.attributes.push(x@));
        s
    }

    pub fn push_note(self, x: String) -> (r: Self)
        ensures
            r@ == (SourceDetailView { notes: self@.notes.push(x@), ..self@ }),
    {
        let mut s = self;
        s.notes.push(x);
        assert(s@.notes =~= self@.notes.push(x@));
        s
    }

    pub fn push_tag(self, x: String) -> (r: Self)
        ensures
            r@ == (SourceDetailView { tags: self@.tags.push(x@), ..self@ }),
    {
        let mut s = self;
        s.tags.push(x);
        assert(s@.tags =~= self@.tags.push(x@));
        s
    }

    pub fn push_media(self, x: String) -> (r: Self)
        ensures
            r@ == (SourceDetailView { media: self@.media.push(x@), ..self@ }),
    {
        let mut s = self;
        s.media.push(x);
        assert(s@.media =~= self@.media.push(x@));
        s
    }
}

/// Which text element of a source is being read.
#[derive(Clone, Copy)]
pub struct SourceFlags {
    pub in_title: bool,
    pub in_author: bool,
    pub in_pubinfo: bool,
}

/// The state of reading one source: the source so far, the text elements
/// open, and the type and value of the attribute whose start tag was read
/// last.
pub struct SourceParseView {
    pub source: SourceDetailView,
    pub flags: SourceFlags,
    pub attr_type: Seq<char>,
    pub attr_value: Seq<char>,
}

pub open spec fn no_source_flags() -> SourceFlags {
    SourceFlags { in_title: false, in_author: false, in_pubinfo: false }
}

/// A source with the handle and id of its start tag and nothing else.
pub open spec fn new_source_detail(tag: XmlTagView) -> SourceDetailView {
    SourceDetailView {
        handle: handle_or_empty(tag),
        gramps_id: attr_text(tag, spec_kw_id()),
        title: Seq::empty(),
        author: None,
        pubinfo: None,
        repo_refs: Seq::empty(),
        attributes: Seq::empty(),
        notes: Seq::empty(),
        tags: Seq::empty(),
        media: Seq::empty(),
    }
}

/// The state at a source's start tag.
pub open spec fn new_source_parse(tag: XmlTagView) -> SourceParseView {
    SourceParseView {
        source: new_source_detail(tag),
        flags: no_source_flags(),
        attr_type: Seq::empty(),
        attr_value: Seq::empty(),
    }
}

/// The source with one more attribute of type text `t` and value `v`.
pub open spec fn source_attribute(p: SourceDetailView, t: Seq<char>, v: Seq<char>) -> SourceDetailView {
    SourceDetailView { attributes: p.attributes.push(AttributeView { attr_type: attribute_type_of(t), value: v }), ..p }
}

/// A start tag inside a source. An `<attribute>` start tag with both a
/// type and a value adds the attribute at once; otherwise its type and
/// value wait for its end tag.
pub open spec fn source_start(s: SourceParseView, tag: XmlTagView) -> SourceParseView {
    let n = local_name(tag.0);
    let f = s.flags;
    if n == spec_kw_title() {
        SourceParseView { flags: SourceFlags { in_title: true, ..f }, ..s }
    } else if n == spec_kw_author() {
        SourceParseView { flags: SourceFlags { in_author: true, ..f }, ..s }
    } else if n == spec_kw_pubinfo() {
        SourceParseView { flags: SourceFlags { in_pubinfo: true, ..f }, ..s }
    } else if n == spec_kw_attribute() {
        let t = text_or_empty(attr_last(tag.1, spec_kw_type()));
        let v = text_or_empty(attr_last(tag.1, spec_kw_value()));
        if t.len() > 0 && v.len() > 0 {
            SourceParseView { source: source_attribute(s.source, t, v), attr_type: Seq::empty(), attr_value: Seq::empty(), ..s }
        } else {
            SourceParseView { attr_type: t, attr_value: v, ..s }
        }
    } else {
        s
    }
}

/// The repository reference of a `<reporef>` tag: its `hlink` (empty when
/// missing), its last `callnumber`, and the media type named by its last
/// `mediatype`.
pub open spec fn repo_ref_of(tag: XmlTagView) -> RepoRefView {
    RepoRefView {
        target: text_or_empty(attr_text(tag, spec_kw_hlink())),
        call_number: attr_last(tag.1, spec_kw_callnumber()),
        media_type: match attr_last(tag.1, spec_kw_mediatype()) {
            Some(m) => source_media_type_of(m),
            None => None,
        },
    }
}

/// The source after an empty-element tag inside it.
pub open spec fn empty_source(p: SourceDetailView, tag: XmlTagView) -> SourceDetailView {
    let n = local_name(tag.0);
    let a = tag.1;
    let h = attr_text(tag, spec_kw_hlink());
    if n == spec_kw_reporef() {
        SourceDetailView { repo_refs: p.repo_refs.push(repo_ref_of(tag)), ..p }
    } else if n == spec_kw_noteref() {
        match h {
            Some(x) => SourceDetailView { notes: p.notes.push(x), ..p },
            None => p,
        }
    } else if n == spec_kw_tagref() {
        match h {
            Some(x) => SourceDetailView { tags: p.tags.push(x), ..p },
            None => p,
        }
    } else if n == spec_kw_mediaref() {
        match h {
            Some(x) => SourceDetailView { media: p.media.push(x), ..p },
            None => p,
        }
    } else if n == spec_kw_attribute() {
        let t = text_or_empty(attr_last(a, spec_kw_type()));
        let v = text_or_empty(attr_last(a, spec_kw_value()));
        if t.len() > 0 || v.len() > 0 {
            source_attribute(p, t, v)
        } else {
            p
        }
    } else {
        p
    }
}

/// The trimmed, non-empty text `t` of a text event inside a source: the
/// title, author or publication information being read.
pub open spec fn source_text(s: SourceParseView, t: Seq<char>) -> SourceParseView {
    let f = s.flags;
    if f.in_title {
        SourceParseView { source: SourceDetailView { title: t, ..s.source }, ..s }
    } else if f.in_author {
        SourceParseView { source: SourceDetailView { author: Some(t), ..s.source }, ..s }
    } else if f.in_pubinfo {
        SourceParseView { source: SourceDetailView { pubinfo: Some(t), ..s.source }, ..s }
    } else {
        s
    }
}

/// An end tag of local name `n` inside a source (other than its own end).
pub open spec fn source_end(s: SourceParseView, n: Seq<u8>) -> SourceParseView {
    let f = s.flags;
    if n == spec_kw_title() {
        SourceParseView { flags: SourceFlags { in_title: false, ..f }, ..s }
    } else if n == spec_kw_author() {
        SourceParseView { flags: SourceFlags { in_author: false, ..f }, ..s }
    } else if n == spec_kw_pubinfo() {
        SourceParseView { flags: SourceFlags { in_pubinfo: false, ..f }, ..s }
    } else if n == spec_kw_attribute() {
        SourceParseView {
            source: if s.attr_type.len() > 0 || s.attr_value.len() > 0 {
                source_attribute(s.source, s.attr_type, s.attr_value)
            } else {
                s.source
            },
            attr_type: Seq::empty(),
            attr_value: Seq::empty(),
            ..s
        }
    } else {
        s
    }
}

/// One reader event inside a source (other than its end tag).
pub open spec fn source_detail_step(s: SourceParseView, ev: XmlEventView) -> SourceParseView {
    match ev {
        XmlEventView::Start(tag) => source_start(s, tag),
        XmlEventView::Empty(tag) => SourceParseView { source: empty_source(s.source, tag), ..s },
        XmlEventView::Text(raw) => match unescaped_text(raw) {
            Some(t) => if trimmed(t).len() > 0 {
                source_text(s, trimmed(t))
            } else {
                s
            },
            None => s,
        },
        XmlEventView::End(name) => source_end(s, local_name(name)),
        _ => s,
    }
}

/// Abstract state of the document scan for sources.
pub struct SourcesScanView {
    pub in_sources: bool,
    pub current: Option<SourceParseView>,
    pub sources: Seq<SourceDetailView>,
}

pub open spec fn sources_scan_start() -> SourcesScanView {
    SourcesScanView { in_sources: false, current: None, sources: Seq::empty() }
}

/// One step of the document scan for sources.
pub open spec fn sources_step(s: SourcesScanView, ev: XmlEventView) -> SourcesScanView {
    match s.current {
        Some(sp) => match ev {
            XmlEventView::End(name) => if local_name(name) == spec_kw_source() {
                SourcesScanView { sources: s.sources.push(sp.source), current: None, ..s }
            } else {
                SourcesScanView { current: Some(source_detail_step(sp, ev)), ..s }
            },
            _ => SourcesScanView { current: Some(source_detail_step(sp, ev)), ..s },
        },
        None => match ev {
            XmlEventView::Start(tag) => {
                let n = local_name(tag.0);
                if detail_section(n) {
                    SourcesScanView { in_sources: n == spec_kw_sources(), ..s }
                } else if n == spec_kw_source() && s.in_sources {
                    SourcesScanView { current: Some(new_source_parse(tag)), ..s }
                } else {
                    s
                }
            },
            XmlEventView::Empty(tag) => if local_name(tag.0) == spec_kw_source() && s.in_sources {
                SourcesScanView { sources: s.sources.push(new_source_detail(tag)), ..s }
            } else {
                s
            },
            XmlEventView::End(name) => if detail_section(local_name(name)) {
                SourcesScanView { in_sources: false, ..s }
            } else {
                s
            },
            _ => s,
        },
    }
}

/// The message when the document ends inside a source.
pub open spec fn source_eof_message() -> Seq<char> {
    "unexpected end of file while parsing source"@
}

/// The sources read from a document: the scan run over the reader's
/// events for `input` after `calls`, from state `s`, taking at most `fuel`
/// of them other than the end.
pub open spec fn scan_sources_detail(input: Seq<char>, calls: Seq<XmlCall>, s: SourcesScanView, fuel: nat) -> Result<
    Seq<SourceDetailView>,
    Seq<char>,
>
    decreases fuel,
{
    match xml_next_event(input, calls) {
        Err(m) => Err(m),
        Ok(XmlEventView::Eof) => if s.current is Some {
            Err(source_eof_message())
        } else {
            Ok(s.sources)
        },
        Ok(ev) => if fuel == 0 {
            Err(unended_message())
        } else {
            scan_sources_detail(input, calls.push(XmlCall::NextEvent), sources_step(s, ev), (fuel - 1) as nat)
        },
    }
}

// ---------------------------------------------------------------------------
// Executable reading
// ---------------------------------------------------------------------------

fn add_source_attribute(p: SourceDetail, t: &String, v: &String) -> (r: SourceDetail)
    ensures
        r@ == source_attribute(p@, t@, v@),
{
    p.push_attribute(AttributeRecord::new(parse_attribute_type(t.as_str()), v.clone()))
}

fn repo_ref_exec(tag: &XmlTag) -> (r: RepoRefRecord)
    ensures
        r@ == repo_ref_of(tag@),
{
    let target = or_empty(read_hlink_attr(tag));
    let call_number = read_attr_last(tag, kw_callnumber().as_slice());
    let media_type = match read_attr_last(tag, kw_mediatype().as_slice()) {
        Some(m) => parse_source_media_type(m.as_str()),
        None => None,
    };
    RepoRefRecord::new(target, call_number, media_type)
}

fn empty_source_exec(p: SourceDetail, tag: &XmlTag) -> (r: SourceDetail)
    ensures
        r@ == empty_source(p@, tag@),
{
    let n = strip_prefix(tag.name.as_slice());
    if bytes_eq(n, kw_reporef().as_slice()) {
        p.push_repo_ref(repo_ref_exec(tag))
    } else if bytes_eq(n, kw_noteref().as_slice()) {
        match read_hlink_attr(tag) {
            Some(h) => p.push_note(h),
            None => p,
        }
    } else if bytes_eq(n, kw_tagref().as_slice()) {
        match read_hlink_attr(tag) {
            Some(h) => p.push_tag(h),
            None => p,
        }
    } else if bytes_eq(n, kw_mediaref().as_slice()) {
        match read_hlink_attr(tag) {
            Some(h) => p.push_media(h),
            None => p,
        }
    } else if bytes_eq(n, kw_attribute().as_slice()) {
        let t = or_empty(read_attr_last(tag, kw_type().as_slice()));
        let v = or_empty(read_attr_last(tag, kw_value().as_slice()));
        if !t.as_str().is_empty() || !v.as_str().is_empty() {
            add_source_attribute(p, &t, &v)
        } else {
            p
        }
    } else {
        p
    }
}

/// The state of reading one source.
pub struct SourceParse {
    source: SourceDetail,
    flags: SourceFlags,
    attr_type: String,
    attr_value: String,
}

impl View for SourceParse {
    type V = SourceParseView;

    closed spec fn view(&self) -> SourceParseView {
        SourceParseView {
            source: self.source@,
            flags: self.flags,
            attr_type: self.attr_type@,
            attr_value: self.attr_value@,
        }
    }
}

impl SourceParse {
    /// The state at a source's start tag.
    pub fn new(tag: &XmlTag) -> (r: Self)
        ensures
            r@ == new_source_parse(tag@),
    {
        let handle = match read_handle_attr(tag) {
            Some(h) => h,
            None => String::new(),
        };
        let gramps_id = read_attr(tag, kw_id().as_slice());
        SourceParse {
            source: SourceDetail::new(handle, gramps_id),
            flags: SourceFlags { in_title: false, in_author: false, in_pubinfo: false },
            attr_type: String::new(),
            attr_value: String::new(),
        }
    }

    fn start(self, tag: &XmlTag) -> (r: Self)
        ensures
            r@ == source_start(self@, tag@),
    {
        let SourceParse { source, flags, attr_type, attr_value } = self;
        let n = strip_prefix(tag.name.as_slice());
        if bytes_eq(n, kw_title().as_slice()) {
            SourceParse { source, flags: SourceFlags { in_title: true, ..flags }, attr_type, attr_value }
        } else if bytes_eq(n, kw_author().as_slice()) {
            SourceParse { source, flags: SourceFlags { in_author: true, ..flags }, attr_type, attr_value }
        } else if bytes_eq(n, kw_pubinfo().as_slice()) {
            SourceParse { source, flags: SourceFlags { in_pubinfo: true, ..flags }, attr_type, attr_value }
        } else if bytes_eq(n, kw_attribute().as_slice()) {
            let t = or_empty(read_attr_last(tag, kw_type().as_slice()));
            let v = or_empty(read_attr_last(tag, kw_value().as_slice()));
            if !t.as_str().is_empty() && !v.as_str().is_empty() {
                let source = add_source_attribute(source, &t, &v);
                SourceParse { source, flags, attr_type: String::new(), attr_value: String::new() }
            } else {
                SourceParse { source, flags, attr_type: t, attr_value: v }
            }
        } else {
            SourceParse { source, flags, attr_type, attr_value }
        }
    }

    fn text(self, t: String) -> (r: Self)
        ensures
            r@ == source_text(self@, t@),
    {
        let SourceParse { source, flags, attr_type, attr_value } = self;
        let source = if flags.in_title {
            source.set_title(t)
        } else if flags.in_author {
            source.set_author(t)
        } else if flags.in_pubinfo {
            source.set_pubinfo(t)
        } else {
            source
        };
        SourceParse { source, flags, attr_type, attr_value }
    }

    fn end(self, n: &[u8]) -> (r: Self)
        ensures
            r@ == source_end(self@, n@),
    {
        let SourceParse { source, flags, attr_type, attr_value } = self;
        if bytes_eq(n, kw_title().as_slice()) {
            SourceParse { source, flags: SourceFlags { in_title: false, ..flags }, attr_type, attr_value }
        } else if bytes_eq(n, kw_author().as_slice()) {
            SourceParse { source, flags: SourceFlags { in_author: false, ..flags }, attr_type, attr_value }
        } else if bytes_eq(n, kw_pubinfo().as_slice()) {
            SourceParse { source, flags: SourceFlags { in_pubinfo: false, ..flags }, attr_type, attr_value }
        } else if bytes_eq(n, kw_attribute().as_slice()) {
            let source = if !attr_type.as_str().is_empty() || !attr_value.as_str().is_empty() {
                add_source_attribute(source, &attr_type, &attr_value)
            } else {
                source
            };
            SourceParse { source, flags, attr_type: String::new(), attr_value: String::new() }
        } else {
            SourceParse { source, flags, attr_type, attr_value }
        }
    }

    /// Fold one reader event inside the source (other than its end tag)
    /// into the state (see `source_detail_step`).
    pub fn step(self, ev: &XmlEvent) -> (r: Self)
        ensures
            r@ == source_detail_step(self@, ev@),
    {
        match ev {
            XmlEvent::Start(tag) => self.start(tag),
            XmlEvent::Empty(tag) => {
                let SourceParse { source, flags, attr_type, attr_value } = self;
                SourceParse { source: empty_source_exec(source, tag), flags, attr_type, attr_value }
            },
            XmlEvent::Text(raw) => {
                match unescape_text(raw.as_slice()) {
                    Some(t) => {
                        let tt = trim(t.as_str());
                        if !tt.as_str().is_empty() {
                            self.text(tt)
                        } else {
                            self
                        }
                    },
                    None => self,
                }
            },
            XmlEvent::End(name) => {
                let n = strip_prefix(name.as_slice());
                self.end(n)
            },
            _ => self,
        }
    }

    /// The source read.
    pub fn finish(self) -> (r: SourceDetail)
        ensures
            r@ == self@.source,
    {
        self.source
    }
}

pub open spec fn sources_view(v: Seq<SourceDetail>) -> Seq<SourceDetailView> {
    v.map_values(|p: SourceDetail| p@)
}

/// The state of the document scan for sources.
pub struct SourcesScan {
    in_sources: bool,
    current: Option<SourceParse>,
    sources: Vec<SourceDetail>,
}

impl View for SourcesScan {
    type V = SourcesScanView;

    closed spec fn view(&self) -> SourcesScanView {
        SourcesScanView {
            in_sources: self.in_sources,
            current: match self.current {
                Some(p) => Some(p@),
                None => None,
            },
            sources: sources_view(self.sources@),
        }
    }
}

impl SourcesScan {
    /// A scan that has read nothing.
    pub fn new() -> (r: Self)
        ensures
            r@ == sources_scan_start(),
    {
        let r = SourcesScan { in_sources: false, current: None, sources: Vec::new() };
        assert(r@.sources =~= Seq::<SourceDetailView>::empty());
        r
    }

    /// Whether a source is being read.
    pub fn in_source(&self) -> (b: bool)
        ensures
            b == self@.current is Some,
    {
        self.current.is_some()
    }

    /// Fold one reader event into the scan (see `sources_step`).
    pub fn step(self, ev: &XmlEvent) -> (r: Self)
        ensures
            r@ == sources_step(self@, ev@),
    {
        let SourcesScan { in_sources, current, sources } = self;
        let mut sources = sources;
        match current {
            Some(sp) => {
                let is_end = match ev {
                    XmlEvent::End(name) => bytes_eq(strip_prefix(name.as_slice()), kw_source().as_slice()),
                    _ => false,
                };
                if is_end {
                    let p = sp.finish();
                    let ghost before = sources_view(sources@);
                    sources.push(p);
                    assert(sources_view(sources@) =~= before.push(p@));
                    SourcesScan { in_sources, current: None, sources }
                } else {
                    SourcesScan { in_sources, current: Some(sp.step(ev)), sources }
                }
            },
            None => {
                match ev {
                    XmlEvent::Start(tag) => {
                        let n = strip_prefix(tag.name.as_slice());
                        if is_detail_section(n) {
                            SourcesScan { in_sources: bytes_eq(n, kw_sources().as_slice()), current: None, sources }
                        } else if bytes_eq(n, kw_source().as_slice()) && in_sources {
                            SourcesScan { in_sources, current: Some(SourceParse::new(tag)), sources }
                        } else {
                            SourcesScan { in_sources, current: None, sources }
                        }
                    },
                    XmlEvent::Empty(tag) => {
                        let n = strip_prefix(tag.name.as_slice());
                        if bytes_eq(n, kw_source().as_slice()) && in_sources {
                            let p = SourceParse::new(tag).finish();
                            let ghost before = sources_view(sources@);
                            sources.push(p);
                            assert(sources_view(sources@) =~= before.push(p@));
                        }
                        SourcesScan { in_sources, current: None, sources }
                    },
                    XmlEvent::End(name) => {
                        let n = strip_prefix(name.as_slice());
                        let fl = if is_detail_section(n) { false } else { in_sources };
                        SourcesScan { in_sources: fl, current: None, sources }
                    },
                    _ => SourcesScan { in_sources, current: None, sources },
                }
            },
        }
    }

    /// The sources read so far.
    pub fn finish(self) -> (r: Vec<SourceDetail>)
        ensures
            sources_view(r@) == self@.sources,
    {
        self.sources
    }
}

fn source_eof_error() -> (e: Error)
    ensures
        e matches Error::XmlParseError { message } && message@ == source_eof_message(),
{
    let mut m = String::new();
    crate::text::push_str(&mut m, "unexpected end of file while parsing source");
    assert(m@ =~= source_eof_message());
    Error::XmlParseError { message: m }
}

/// Read all sources of a Gramps XML document in full detail (see
/// `sources_step` and `source_detail_step`). A reader error becomes an
/// `XmlParseError` with the reader's message; a document that ends inside
/// a source is an `XmlParseError` too.
pub fn parse_sources_detail(content: &str) -> (r: Result<Vec<SourceDetail>, Error>)
    ensures
        match scan_sources_detail(content@, Seq::empty(), sources_scan_start(), content.len() as nat) {
            Ok(ps) => r matches Ok(v) && sources_view(v@) == ps,
            Err(m) => r matches Err(Error::XmlParseError { message }) && message@ == m,
        },
{
    let mut cursor = XmlCursor::new(content);
    let mut scan = SourcesScan::new();
    let mut fuel: usize = content.len();
    loop
        invariant
            cursor.input() == content@,
            scan_sources_detail(content@, Seq::empty(), sources_scan_start(), content.len() as nat)
                == scan_sources_detail(content@, cursor.calls(), scan@, fuel as nat),
        decreases fuel,
    {
        match cursor.next_event() {
            Err(m) => {
                return Err(Error::XmlParseError { message: m });
            },
            Ok(XmlEvent::Eof) => {
                if scan.in_source() {
                    return Err(source_eof_error());
                }
                return Ok(scan.finish());
            },
            Ok(ev) => {
                if fuel == 0 {
                    return Err(unended_error());
                }
                fuel = fuel - 1;
                scan = scan.step(&ev);
            },
        }
    }
}

} // verus!
