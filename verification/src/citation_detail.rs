//! Reading citations in full detail from Gramps XML: the source cited, the
//! page, the confidence, and the notes, tags and media a citation refers
//! to.
//!
//! Inside a `<citation>` element every event of the reader is folded into
//! a citation parse state by `citation_detail_step`; the document scan
//! (`citations_step`) tracks the sections and hands the events of each
//! `<citation>` to it.

use vstd::prelude::*;
use crate::error::Error;
use crate::extract::{handle_or_empty, unended_error, unended_message, unescape_text, unescaped_text};
use crate::graph_names::{
    kw_citation, kw_citations, kw_confidence, kw_id, kw_mediaref, kw_noteref, kw_page, kw_sourceref, kw_tagref,
    spec_kw_citation, spec_kw_citations, spec_kw_confidence, spec_kw_id, spec_kw_mediaref, spec_kw_noteref,
    spec_kw_page, spec_kw_sourceref, spec_kw_tagref,
};
use crate::names::spec_kw_hlink;
use crate::person_detail::{detail_section, is_detail_section};
use crate::person_records::texts_view;
use crate::text::{parse_i32, parsed_i32, str_chars, trim, trimmed};
use crate::types::opt_text;
use crate::xml::{attr_text, bytes_eq, local_name, read_attr, read_handle_attr, read_hlink_attr, strip_prefix, XmlTag, XmlTagView};
use crate::xml_reader::{xml_next_event, XmlCall, XmlCursor, XmlEvent, XmlEventView};

verus! {

/// A citation in full detail.
#[derive(Debug, Clone)]
pub struct CitationDetail {
    pub handle: String,
    pub gramps_id: Option<String>,
    pub source: Option<String>,
    pub page: Option<String>,
    pub confidence: Option<i32>,
    pub notes: Vec<String>,
    pub tags: Vec<String>,
    pub media: Vec<String>,
}

pub struct CitationDetailView {
    pub handle: Seq<char>,
    pub gramps_id: Option<Seq<char>>,
    pub source: Option<Seq<char>>,
    pub page: Option<Seq<char>>,
    pub confidence: Option<i32>,
    pub notes: Seq<Seq<char>>,
    pub tags: Seq<Seq<char>>,
    pub media: Seq<Seq<char>>,
}

impl View for CitationDetail {
    type V = CitationDetailView;

    open spec fn view(&self) -> CitationDetailView {
        CitationDetailView {
            handle: self.handle@,
            gramps_id: opt_text(self.gramps_id),
            source: opt_text(self.source),
            page: opt_text(self.page),
            confidence: self.confidence,
            notes: texts_view(self.notes@),
            tags: texts_view(self.tags@),
            media: texts_view(self.media@),
        }
    }
}

impl CitationDetail {
    /// A citation with a handle and id and nothing else.
    pub fn new(handle: String, gramps_id: Option<String>) -> (r: Self)
        ensures
            r@ == (CitationDetailView {
                handle: handle@,
                gramps_id: opt_text(gramps_id),
                source: None,
                page: None,
                confidence: None,
                notes: Seq::empty(),
                tags: Seq::empty(),
                media: Seq::empty(),
            }),
    {
        let r = CitationDetail {
            handle,
            gramps_id,
            source: None,
            page: None,
            confidence: None,
            notes: Vec::new(),
            tags: Vec::new(),
            media: Vec::new(),
        };
        assert(r@.notes =~= Seq::<Seq<char>>::empty());
        assert(r@.tags =~= Seq::<Seq<char>>::empty());
        assert(r@.media =~= Seq::<Seq<char>>::empty());
        r
    }

    pub fn set_source(self, t: String) -> (r: Self)
        ensures
            r@ == (CitationDetailView { source: Some(t@), ..self@ }),
    {
        let mut s = self;
        s.source = Some(t);
        s
    }

    pub fn set_page(self, t: String) -> (r: Self)
        ensures
            r@ == (CitationDetailView { page: Some(t@), ..self@ }),
    {
        let mut s = self;
        s.page = Some(t);
        s
    }

    pub fn set_confidence(self, c: Option<i32>) -> (r: Self)
        ensures
            r@ == (CitationDetailView { confidence: c, ..self@ }),
    {
        let mut s = self;
        s.confidence = c;
        s
    }

    pub fn push_note(self, x: String) -> (r: Self)
        ensures
            r@ == (CitationDetailView { notes: self@.notes.push(x@), ..self@ }),
    {
        let mut s = self;
        s.notes.push(x);
        assert(s@.notes =~= self@.notes.push(x@));
        s
    }

    pub fn push_tag(self, x: String) -> (r: Self)
        ensures
            r@ == (CitationDetailView { tags: self@.tags.push(x@), ..self@ }),
    {
        let mut s = self;
        s.tags.push(x);
        assert(s@.tags =~= self@.tags.push(x@));
        s
    }

    pub fn push_media(self, x: String) -> (r: Self)
        ensures
            r@ == (CitationDetailView { media: self@.media.push(x@), ..self@ }),
    {
        let mut s = self;
        s.media.push(x);
        assert(s@.media =~= self@.media.push(x@));
        s
    }
}

/// The state of reading one citation: the citation so far and whether its
/// page or its confidence is being read.
pub struct CitationParseView {
    pub citation: CitationDetailView,
    pub in_page: bool,
    pub in_confidence: bool,
}

/// A citation with the handle and id of its start tag and nothing else.
pub open spec fn new_citation_detail(tag: XmlTagView) -> CitationDetailView {
    CitationDetailView {
        handle: handle_or_empty(tag),
        gramps_id: attr_text(tag, spec_kw_id()),
        source: None,
        page: None,
        confidence: None,
        notes: Seq::empty(),
        tags: Seq::empty(),
        media: Seq::empty(),
    }
}

/// The state at a citation's start tag.
pub open spec fn new_citation_parse(tag: XmlTagView) -> CitationParseView {
    CitationParseView { citation: new_citation_detail(tag), in_page: false, in_confidence: false }
}

/// The citation after an empty-element tag inside it.
pub open spec fn empty_citation(c: CitationDetailView, tag: XmlTagView) -> CitationDetailView {
    let n = local_name(tag.0);
    match attr_text(tag, spec_kw_hlink()) {
        Some(h) => if n == spec_kw_sourceref() {
            CitationDetailView { source: Some(h), ..c }
        } else if n == spec_kw_noteref() {
            CitationDetailView { notes: c.notes.push(h), ..c }
        } else if n == spec_kw_tagref() {
            CitationDetailView { tags: c.tags.push(h), ..c }
        } else if n == spec_kw_mediaref() {
            CitationDetailView { media: c.media.push(h), ..c }
        } else {
            c
        },
        None => c,
    }
}

/// The trimmed, non-empty text `t` of a text event inside a citation: the
/// page, or the confidence (the number it reads as, or none).
pub open spec fn citation_text(s: CitationParseView, t: Seq<char>) -> CitationParseView {
    if s.in_page {
        CitationParseView { citation: CitationDetailView { page: Some(t), ..s.citation }, ..s }
    } else if s.in_confidence {
        CitationParseView { citation: CitationDetailView { confidence: parsed_i32(t), ..s.citation }, ..s }
    } else {
        s
    }
}

/// One reader event inside a citation (other than its end tag).
pub open spec fn citation_detail_step(s: CitationParseView, ev: XmlEventView) -> CitationParseView {
    match ev {
        XmlEventView::Start(tag) => {
            let n = local_name(tag.0);
            if n == spec_kw_page() {
                CitationParseView { in_page: true, ..s }
            } else if n == spec_kw_confidence() {
                CitationParseView { in_confidence: true, ..s }
            } else {
                s
            }
        },
        XmlEventView::Empty(tag) => CitationParseView { citation: empty_citation(s.citation, tag), ..s },
        XmlEventView::Text(raw) => match unescaped_text(raw) {
            Some(t) => if trimmed(t).len() > 0 {
                citation_text(s, trimmed(t))
            } else {
                s
            },
            None => s,
        },
        XmlEventView::End(name) => {
            let n = local_name(name);
            if n == spec_kw_page() {
                CitationParseView { in_page: false, ..s }
            } else if n == spec_kw_confidence() {
                CitationParseView { in_confidence: false, ..s }
            } else {
                s
            }
        },
        _ => s,
    }
}

/// Abstract state of the document scan for citations.
pub struct CitationsScanView {
    pub in_citations: bool,
    pub current: Option<CitationParseView>,
    pub citations: Seq<CitationDetailView>,
}

pub open spec fn citations_scan_start() -> CitationsScanView {
    CitationsScanView { in_citations: false, current: None, citations: Seq::empty() }
}

/// One step of the document scan for citations.
pub open spec fn citations_step(s: CitationsScanView, ev: XmlEventView) -> CitationsScanView {
    match s.current {
        Some(cp) => match ev {
            XmlEventView::End(name) => if local_name(name) == spec_kw_citation() {
                CitationsScanView { citations: s.citations.push(cp.citation), current: None, ..s }
            } else {
                CitationsScanView { current: Some(citation_detail_step(cp, ev)), ..s }
            },
            _ => CitationsScanView { current: Some(citation_detail_step(cp, ev)), ..s },
        },
        None => match ev {
            XmlEventView::Start(tag) => {
                let n = local_name(tag.0);
                if detail_section(n) {
                    CitationsScanView { in_citations: n == spec_kw_citations(), ..s }
                } else if n == spec_kw_citation() && s.in_citations {
                    CitationsScanView { current: Some(new_citation_parse(tag)), ..s }
                } else {
                    s
                }
            },
            XmlEventView::Empty(tag) => if local_name(tag.0) == spec_kw_citation() && s.in_citations {
                CitationsScanView { citations: s.citations.push(new_citation_detail(tag)), ..s }
            } else {
                s
            },
            XmlEventView::End(name) => if detail_section(local_name(name)) {
                CitationsScanView { in_citations: false, ..s }
            } else {
                s
            },
            _ => s,
        },
    }
}

/// The message when the document ends inside a citation.
pub open spec fn citation_eof_message() -> Seq<char> {
    "unexpected end of file while parsing citation"@
}

/// The citations read from a document: the scan run over the reader's
/// events for `input` after `calls`, from state `s`, taking at most `fuel`
/// of them other than the end.
pub open spec fn scan_citations_detail(input: Seq<char>, calls: Seq<XmlCall>, s: CitationsScanView, fuel: nat) -> Result<
    Seq<CitationDetailView>,
    Seq<char>,
>
    decreases fuel,
{
    match xml_next_event(input, calls) {
        Err(m) => Err(m),
        Ok(XmlEventView::Eof) => if s.current is Some {
            Err(citation_eof_message())
        } else {
            Ok(s.citations)
        },
        Ok(ev) => if fuel == 0 {
            Err(unended_message())
        } else {
            scan_citations_detail(input, calls.push(XmlCall::NextEvent), citations_step(s, ev), (fuel - 1) as nat)
        },
    }
}

// ---------------------------------------------------------------------------
// Executable reading
// ---------------------------------------------------------------------------

fn empty_citation_exec(c: CitationDetail, tag: &XmlTag) -> (r: CitationDetail)
    ensures
        r@ == empty_citation(c@, tag@),
{
    let n = strip_prefix(tag.name.as_slice());
    match read_hlink_attr(tag) {
        Some(h) => {
            if bytes_eq(n, kw_sourceref().as_slice()) {
                c.set_source(h)
            } else if bytes_eq(n, kw_noteref().as_slice()) {
                c.push_note(h)
            } else if bytes_eq(n, kw_tagref().as_slice()) {
                c.push_tag(h)
            } else if bytes_eq(n, kw_mediaref().as_slice()) {
                c.push_media(h)
            } else {
                c
            }
        },
        None => c,
    }
}

/// The state of reading one citation.
pub struct CitationParse {
    citation: CitationDetail,
    in_page: bool,
    in_confidence: bool,
}

impl View for CitationParse {
    type V = CitationParseView;

    closed spec fn view(&self) -> CitationParseView {
        CitationParseView { citation: self.citation@, in_page: self.in_page, in_confidence: self.in_confidence }
    }
}

impl CitationParse {
    /// The state at a citation's start tag.
    pub fn new(tag: &XmlTag) -> (r: Self)
        ensures
            r@ == new_citation_parse(tag@),
    {
        let handle = match read_handle_attr(tag) {
            Some(h) => h,
            None => String::new(),
        };
        let gramps_id = read_attr(tag, kw_id().as_slice());
        CitationParse { citation: CitationDetail::new(handle, gramps_id), in_page: false, in_confidence: false }
    }

    fn text(self, t: String) -> (r: Self)
        ensures
            r@ == citation_text(self@, t@),
    {
        let CitationParse { citation, in_page, in_confidence } = self;
        if in_page {
            CitationParse { citation: citation.set_page(t), in_page, in_confidence }
        } else if in_confidence {
            let cs = str_chars(t.as_str());
            let v = parse_i32(cs.as_slice());
            CitationParse { citation: citation.set_confidence(v), in_page, in_confidence }
        } else {
            CitationParse { citation, in_page, in_confidence }
        }
    }

    /// Fold one reader event inside the citation (other than its end tag)
    /// into the state (see `citation_detail_step`).
    pub fn step(self, ev: &XmlEvent) -> (r: Self)
        ensures
            r@ == citation_detail_step(self@, ev@),
    {
        let CitationParse { citation, in_page, in_confidence } = self;
        match ev {
            XmlEvent::Start(tag) => {
                let n = strip_prefix(tag.name.as_slice());
                if bytes_eq(n, kw_page().as_slice()) {
                    CitationParse { citation, in_page: true, in_confidence }
                } else if bytes_eq(n, kw_confidence().as_slice()) {
                    CitationParse { citation, in_page, in_confidence: true }
                } else {
                    CitationParse { citation, in_page, in_confidence }
                }
            },
            XmlEvent::Empty(tag) => CitationParse { citation: empty_citation_exec(citation, tag), in_page, in_confidence },
            XmlEvent::Text(raw) => {
                let s = CitationParse { citation, in_page, in_confidence };
                match unescape_text(raw.as_slice()) {
                    Some(t) => {
                        let tt = trim(t.as_str());
                        if !tt.as_str().is_empty() {
                            s.text(tt)
                        } else {
                            s
                        }
                    },
                    None => s,
                }
            },
            XmlEvent::End(name) => {
                let n = strip_prefix(name.as_slice());
                if bytes_eq(n, kw_page().as_slice()) {
                    CitationParse { citation, in_page: false, in_confidence }
                } else if bytes_eq(n, kw_confidence().as_slice()) {
                    CitationParse { citation, in_page, in_confidence: false }
                } else {
                    CitationParse { citation, in_page, in_confidence }
                }
            },
            _ => CitationParse { citation, in_page, in_confidence },
        }
    }

    /// The citation read.
    pub fn finish(self) -> (r: CitationDetail)
        ensures
            r@ == self@.citation,
    {
        self.citation
    }
}

pub open spec fn citations_view(v: Seq<CitationDetail>) -> Seq<CitationDetailView> {
    v.map_values(|c: CitationDetail| c@)
}

/// The state of the document scan for citations.
pub struct CitationsScan {
    in_citations: bool,
    current: Option<CitationParse>,
    citations: Vec<CitationDetail>,
}

impl View for CitationsScan {
    type V = CitationsScanView;

    closed spec fn view(&self) -> CitationsScanView {
        CitationsScanView {
            in_citations: self.in_citations,
            current: match self.current {
                Some(c) => Some(c@),
                None => None,
            },
            citations: citations_view(self.citations@),
        }
    }
}

impl CitationsScan {
    /// A scan that has read nothing.
    pub fn new() -> (r: Self)
        ensures
            r@ == citations_scan_start(),
    {
        let r = CitationsScan { in_citations: false, current: None, citations: Vec::new() };
        assert(r@.citations =~= Seq::<CitationDetailView>::empty());
        r
    }

    /// Whether a citation is being read.
    pub fn in_citation(&self) -> (b: bool)
        ensures
            b == self@.current is Some,
    {
        self.current.is_some()
    }

    /// Fold one reader event into the scan (see `citations_step`).
    pub fn step(self, ev: &XmlEvent) -> (r: Self)
        ensures
            r@ == citations_step(self@, ev@),
    {
        let CitationsScan { in_citations, current, citations } = self;
        let mut citations = citations;
        match current {
            Some(cp) => {
                let is_end = match ev {
                    XmlEvent::End(name) => bytes_eq(strip_prefix(name.as_slice()), kw_citation().as_slice()),
                    _ => false,
                };
                if is_end {
                    let c = cp.finish();
                    let ghost before = citations_view(citations@);
                    citations.push(c);
                    assert(citations_view(citations@) =~= before.push(c@));
                    CitationsScan { in_citations, current: None, citations }
                } else {
                    CitationsScan { in_citations, current: Some(cp.step(ev)), citations }
                }
            },
            None => {
                match ev {
                    XmlEvent::Start(tag) => {
                        let n = strip_prefix(tag.name.as_slice());
                        if is_detail_section(n) {
                            CitationsScan { in_citations: bytes_eq(n, kw_citations().as_slice()), current: None, citations }
                        } else if bytes_eq(n, kw_citation().as_slice()) && in_citations {
                            CitationsScan { in_citations, current: Some(CitationParse::new(tag)), citations }
                        } else {
                            CitationsScan { in_citations, current: None, citations }
                        }
                    },
                    XmlEvent::Empty(tag) => {
                        let n = strip_prefix(tag.name.as_slice());
                        if bytes_eq(n, kw_citation().as_slice()) && in_citations {
                            let c = CitationParse::new(tag).finish();
                            let ghost before = citations_view(citations@);
                            citations.push(c);
                            assert(citations_view(citations@) =~= before.push(c@));
                        }
                        CitationsScan { in_citations, current: None, citations }
                    },
                    XmlEvent::End(name) => {
                        let n = strip_prefix(name.as_slice());
                        let fl = if is_detail_section(n) { false } else { in_citations };
                        CitationsScan { in_citations: fl, current: None, citations }
                    },
                    _ => CitationsScan { in_citations, current: None, citations },
                }
            },
        }
    }

    /// The citations read so far.
    pub fn finish(self) -> (r: Vec<CitationDetail>)
        ensures
            citations_view(r@) == self@.citations,
    {
        self.citations
    }
}

fn citation_eof_error() -> (e: Error)
    ensures
        e matches Error::XmlParseError { message } && message@ == citation_eof_message(),
{
    let mut m = String::new();
    crate::text::push_str(&mut m, "unexpected end of file while parsing citation");
    assert(m@ =~= citation_eof_message());
    Error::XmlParseError { message: m }
}

/// Read all citations of a Gramps XML document in full detail (see
/// `citations_step` and `citation_detail_step`). A reader error becomes an
/// `XmlParseError` with the reader's message; a document that ends inside
/// a citation is an `XmlParseError` too.
pub fn parse_citations_detail(content: &str) -> (r: Result<Vec<CitationDetail>, Error>)
    ensures
        match scan_citations_detail(content@, Seq::empty(), citations_scan_start(), content.len() as nat) {
            Ok(cs) => r matches Ok(v) && citations_view(v@) == cs,
            Err(m) => r matches Err(Error::XmlParseError { message }) && message@ == m,
        },
{
    let mut cursor = XmlCursor::new(content);
    let mut scan = CitationsScan::new();
    let mut fuel: usize = content.len();
    loop
        invariant
            cursor.input() == content@,
            scan_citations_detail(content@, Seq::empty(), citations_scan_start(), content.len() as nat)
                == scan_citations_detail(content@, cursor.calls(), scan@, fuel as nat),
        decreases fuel,
    {
        match cursor.next_event() {
            Err(m) => {
                return Err(Error::XmlParseError { message: m });
            },
            Ok(XmlEvent::Eof) => {
                if scan.in_citation() {
                    return Err(citation_eof_error());
                }
                return Ok(scan.finish());
            },
            Ok(ev) => {
                if fuel == 0 {
                    return Err(unended_error());
                }
                fuel = fuel - 1;
                scan = scan.step(&ev);
            },
        }
    }
}

} // verus!
