//! Reading notes in full detail from Gramps XML: text, format, type, and
//! the citations and tags a note refers to.
//!
//! Inside a `<note>` element every event of the reader is folded into a
//! note parse state by `note_detail_step`; the document scan
//! (`notes_step`) tracks the sections and hands the events of each
//! `<note>` to it.

use vstd::prelude::*;
use crate::error::Error;
use crate::extract::{handle_or_empty, unended_error, unended_message, unescape_text, unescaped_text};
use crate::graph_names::{kw_citationref, kw_format, kw_id, kw_note, kw_noteref, kw_notes, kw_tagref, kw_text, spec_kw_citationref, spec_kw_format, spec_kw_id, spec_kw_note, spec_kw_noteref, spec_kw_notes, spec_kw_tagref, spec_kw_text};
use crate::names::{spec_kw_hlink, kw_type, spec_kw_type};
use crate::person_detail::{detail_section, is_detail_section};
use crate::person_records::texts_view;
use crate::text::{parse_i32, parsed_i32, str_chars, trim, trimmed};
use crate::types::opt_text;
use crate::xml::{attr_text, bytes_eq, local_name, read_attr, read_handle_attr, read_hlink_attr, strip_prefix, XmlTag, XmlTagView};
use crate::xml_reader::{xml_next_event, XmlCall, XmlCursor, XmlEvent, XmlEventView};

verus! {

/// A note in full detail. Its citation references include those written as
/// `<noteref>`.
#[derive(Debug, Clone)]
pub struct NoteDetail {
    pub handle: String,
    pub gramps_id: Option<String>,
    pub text: String,
    pub format: Option<i32>,
    pub note_type: Option<String>,
    pub citations: Vec<String>,
    pub tags: Vec<String>,
}

pub struct NoteDetailView {
    pub handle: Seq<char>,
    pub gramps_id: Option<Seq<char>>,
    pub text: Seq<char>,
    pub format: Option<i32>,
    pub note_type: Option<Seq<char>>,
    pub citations: Seq<Seq<char>>,
    pub tags: Seq<Seq<char>>,
}

impl View for NoteDetail {
    type V = NoteDetailView;

    open spec fn view(&self) -> NoteDetailView {
        NoteDetailView {
            handle: self.handle@,
            gramps_id: opt_text(self.gramps_id),
            text: self.text@,
            format: self.format,
            note_type: opt_text(self.note_type),
            citations: texts_view(self.citations@),
            tags: texts_view(self.tags@),
        }
    }
}

impl NoteDetail {
    /// A note with a handle and id, an empty text, and nothing else.
    pub fn new(handle: String, gramps_id: Option<String>) -> (r: Self)
        ensures
            r@ == (NoteDetailView {
                handle: handle@,
                gramps_id: opt_text(gramps_id),
                text: Seq::empty(),
                format: None,
                note_type: None,
                citations: Seq::empty(),
                tags: Seq::empty(),
            }),
    {
        let r = NoteDetail {
            handle,
            gramps_id,
            text: String::new(),
            format: None,
            note_type: None,
            citations: Vec::new(),
            tags: Vec::new(),
        };
        assert(r@.citations =~= Seq::<Seq<char>>::empty());
        assert(r@.tags =~= Seq::<Seq<char>>::empty());
        r
    }

    pub fn set_text(self, t: String) -> (r: Self)
        ensures
            r@ == (NoteDetailView { text: t@, ..self@ }),
    {
        let mut s = self;
        s.text = t;
        s
    }

    pub fn set_format(self, f: i32) -> (r: Self)
        ensures
            r@ == (NoteDetailView { format: Some(f), ..self@ }),
    {
        let mut s = self;
        s.format = Some(f);
        s
    }

    pub fn set_note_type(self, t: String) -> (r: Self)
        ensures
            r@ == (NoteDetailView { note_type: Some(t@), ..self@ }),
    {
        let mut s = self;
        s.note_type = Some(t);
        s
    }

    pub fn push_citation(self, x: String) -> (r: Self)
        ensures
            r@ == (NoteDetailView { citations: self@.citations.push(x@), ..self@ }),
    {
        let mut s = self;
        s.citations.push(x);
        assert(s@.citations =~= self@.citations.push(x@));
        s
    }

    pub fn push_tag(self, x: String) -> (r: Self)
        ensures
            r@ == (NoteDetailView { tags: self@.tags.push(x@), ..self@ }),
    {
        let mut s = self;
        s.tags.push(x);
        assert(s@.tags =~= self@.tags.push(x@));
        s
    }
}

/// The state of reading one note: the note so far and whether its text,
/// format or type is being read.
pub struct NoteParseView {
    pub item: NoteDetailView,
    pub in_text: bool,
    pub in_format: bool,
    pub in_type: bool,
}

/// A note with the handle and id of its start tag and nothing else.
pub open spec fn new_note_detail(tag: XmlTagView) -> NoteDetailView {
    NoteDetailView {
        handle: handle_or_empty(tag),
        gramps_id: attr_text(tag, spec_kw_id()),
        text: Seq::empty(),
        format: None,
        note_type: None,
        citations: Seq::empty(),
        tags: Seq::empty(),
    }
}

/// The state at a note's start tag.
pub open spec fn new_note_parse(tag: XmlTagView) -> NoteParseView {
    NoteParseView { item: new_note_detail(tag), in_text: false, in_format: false, in_type: false }
}

/// The note after an empty-element tag inside it: a `<noteref>` or a
/// `<citationref>` adds a citation reference, a `<tagref>` a tag.
pub open spec fn empty_note(c: NoteDetailView, tag: XmlTagView) -> NoteDetailView {
    let n = local_name(tag.0);
    match attr_text(tag, spec_kw_hlink()) {
        Some(h) => if n == spec_kw_noteref() || n == spec_kw_citationref() {
            NoteDetailView { citations: c.citations.push(h), ..c }
        } else if n == spec_kw_tagref() {
            NoteDetailView { tags: c.tags.push(h), ..c }
        } else {
            c
        },
        None => c,
    }
}

/// The trimmed, non-empty text `t` of a text event inside a note: the text,
/// the format (when it reads as a number), or the type.
pub open spec fn note_text(s: NoteParseView, t: Seq<char>) -> NoteParseView {
    if s.in_text {
        NoteParseView { item: NoteDetailView { text: t, ..s.item }, ..s }
    } else if s.in_format {
        match parsed_i32(t) {
            Some(f) => NoteParseView { item: NoteDetailView { format: Some(f), ..s.item }, ..s },
            None => s,
        }
    } else if s.in_type {
        NoteParseView { item: NoteDetailView { note_type: Some(t), ..s.item }, ..s }
    } else {
        s
    }
}

/// One reader event inside a note (other than its end tag).
pub open spec fn note_detail_step(s: NoteParseView, ev: XmlEventView) -> NoteParseView {
    match ev {
        XmlEventView::Start(tag) => {
            let n = local_name(tag.0);
            if n == spec_kw_text() {
                NoteParseView { in_text: true, ..s }
            } else if n == spec_kw_format() {
                NoteParseView { in_format: true, ..s }
            } else if n == spec_kw_type() {
                NoteParseView { in_type: true, ..s }
            } else {
                s
            }
        },
        XmlEventView::Empty(tag) => NoteParseView { item: empty_note(s.item, tag), ..s },
        XmlEventView::Text(raw) => match unescaped_text(raw) {
            Some(t) => if trimmed(t).len() > 0 {
                note_text(s, trimmed(t))
            } else {
                s
            },
            None => s,
        },
        XmlEventView::End(name) => {
            let n = local_name(name);
            if n == spec_kw_text() {
                NoteParseView { in_text: false, ..s }
            } else if n == spec_kw_format() {
                NoteParseView { in_format: false, ..s }
            } else if n == spec_kw_type() {
                NoteParseView { in_type: false, ..s }
            } else {
                s
            }
        },
        _ => s,
    }
}

/// Abstract state of the document scan for notes.
pub struct NotesScanView {
    pub in_section: bool,
    pub current: Option<NoteParseView>,
    pub items: Seq<NoteDetailView>,
}

pub open spec fn notes_scan_start() -> NotesScanView {
    NotesScanView { in_section: false, current: None, items: Seq::empty() }
}

/// One step of the document scan for notes.
pub open spec fn notes_step(s: NotesScanView, ev: XmlEventView) -> NotesScanView {
    match s.current {
        Some(cp) => match ev {
            XmlEventView::End(name) => if local_name(name) == spec_kw_note() {
                NotesScanView { items: s.items.push(cp.item), current: None, ..s }
            } else {
                NotesScanView { current: Some(note_detail_step(cp, ev)), ..s }
            },
            _ => NotesScanView { current: Some(note_detail_step(cp, ev)), ..s },
        },
        None => match ev {
            XmlEventView::Start(tag) => {
                let n = local_name(tag.0);
                if detail_section(n) {
                    NotesScanView { in_section: n == spec_kw_notes(), ..s }
                } else if n == spec_kw_note() && s.in_section {
                    NotesScanView { current: Some(new_note_parse(tag)), ..s }
                } else {
                    s
                }
            },
            XmlEventView::Empty(tag) => if local_name(tag.0) == spec_kw_note() && s.in_section {
                NotesScanView { items: s.items.push(new_note_detail(tag)), ..s }
            } else {
                s
            },
            XmlEventView::End(name) => if detail_section(local_name(name)) {
                NotesScanView { in_section: false, ..s }
            } else {
                s
            },
            _ => s,
        },
    }
}

/// The message when the document ends inside a note.
pub open spec fn note_eof_message() -> Seq<char> {
    "unexpected end of file while parsing note"@
}

/// The notes read from a document: the scan run over the reader's
/// events for `input` after `calls`, from state `s`, taking at most `fuel`
/// of them other than the end.
pub open spec fn scan_notes_detail(input: Seq<char>, calls: Seq<XmlCall>, s: NotesScanView, fuel: nat) -> Result<
    Seq<NoteDetailView>,
    Seq<char>,
>
    decreases fuel,
{
    match xml_next_event(input, calls) {
        Err(m) => Err(m),
        Ok(XmlEventView::Eof) => if s.current is Some {
            Err(note_eof_message())
        } else {
            Ok(s.items)
        },
        Ok(ev) => if fuel == 0 {
            Err(unended_message())
        } else {
            scan_notes_detail(input, calls.push(XmlCall::NextEvent), notes_step(s, ev), (fuel - 1) as nat)
        },
    }
}

// ---------------------------------------------------------------------------
// Executable reading
// ---------------------------------------------------------------------------

fn empty_note_exec(c: NoteDetail, tag: &XmlTag) -> (r: NoteDetail)
    ensures
        r@ == empty_note(c@, tag@),
{
    let n = strip_prefix(tag.name.as_slice());
    match read_hlink_attr(tag) {
        Some(h) => {
            if bytes_eq(n, kw_noteref().as_slice()) || bytes_eq(n, kw_citationref().as_slice()) {
                c.push_citation(h)
            } else if bytes_eq(n, kw_tagref().as_slice()) {
                c.push_tag(h)
            } else {
                c
            }
        },
        None => c,
    }
}

/// The state of reading one note.
pub struct NoteParse {
    item: NoteDetail,
    in_text: bool,
    in_format: bool,
    in_type: bool,
}

impl View for NoteParse {
    type V = NoteParseView;

    closed spec fn view(&self) -> NoteParseView {
        NoteParseView { item: self.item@, in_text: self.in_text, in_format: self.in_format, in_type: self.in_type }
    }
}

impl NoteParse {
    /// The state at a note's start tag.
    pub fn new(tag: &XmlTag) -> (r: Self)
        ensures
            r@ == new_note_parse(tag@),
    {
        let handle = match read_handle_attr(tag) {
            Some(h) => h,
            None => String::new(),
        };
        let gramps_id = read_attr(tag, kw_id().as_slice());
        NoteParse { item: NoteDetail::new(handle, gramps_id), in_text: false, in_format: false, in_type: false }
    }

    fn text(self, t: String) -> (r: Self)
        ensures
            r@ == note_text(self@, t@),
    {
        let NoteParse { item, in_text, in_format, in_type } = self;
        if in_text {
            NoteParse { item: item.set_text(t), in_text, in_format, in_type }
        } else if in_format {
            let cs = str_chars(t.as_str());
            match parse_i32(cs.as_slice()) {
                Some(f) => NoteParse { item: item.set_format(f), in_text, in_format, in_type },
                None => NoteParse { item, in_text, in_format, in_type },
            }
        } else if in_type {
            NoteParse { item: item.set_note_type(t), in_text, in_format, in_type }
        } else {
            NoteParse { item, in_text, in_format, in_type }
        }
    }

    /// Fold one reader event inside the note (other than its end tag) into
    /// the state (see `note_detail_step`).
    pub fn step(self, ev: &XmlEvent) -> (r: Self)
        ensures
            r@ == note_detail_step(self@, ev@),
    {
        let NoteParse { item, in_text, in_format, in_type } = self;
        match ev {
            XmlEvent::Start(tag) => {
                let n = strip_prefix(tag.name.as_slice());
                if bytes_eq(n, kw_text().as_slice()) {
                    NoteParse { item, in_text: true, in_format, in_type }
                } else if bytes_eq(n, kw_format().as_slice()) {
                    NoteParse { item, in_text, in_format: true, in_type }
                } else if bytes_eq(n, kw_type().as_slice()) {
                    NoteParse { item, in_text, in_format, in_type: true }
                } else {
                    NoteParse { item, in_text, in_format, in_type }
                }
            },
            XmlEvent::Empty(tag) => NoteParse { item: empty_note_exec(item, tag), in_text, in_format, in_type },
            XmlEvent::Text(raw) => {
                let s = NoteParse { item, in_text, in_format, in_type };
                match unescape_text(raw.as_slice()) {
                    Some(t) => {
                        let tt = trim(t.as_str());
                        if !tt.as_str().is_empty() {
                            s.text(tt)
                        } else {
                            s
                        }
                    },
                    None => s,
                }
            },
            XmlEvent::End(name) => {
                let n = strip_prefix(name.as_slice());
                if bytes_eq(n, kw_text().as_slice()) {
                    NoteParse { item, in_text: false, in_format, in_type }
                } else if bytes_eq(n, kw_format().as_slice()) {
                    NoteParse { item, in_text, in_format: false, in_type }
                } else if bytes_eq(n, kw_type().as_slice()) {
                    NoteParse { item, in_text, in_format, in_type: false }
                } else {
                    NoteParse { item, in_text, in_format, in_type }
                }
            },
            _ => NoteParse { item, in_text, in_format, in_type },
        }
    }

    /// The note read.
    pub fn finish(self) -> (r: NoteDetail)
        ensures
            r@ == self@.item,
    {
        self.item
    }
}

pub open spec fn notes_view(v: Seq<NoteDetail>) -> Seq<NoteDetailView> {
    v.map_values(|c: NoteDetail| c@)
}

/// The state of the document scan for notes.
pub struct NotesScan {
    in_section: bool,
    current: Option<NoteParse>,
    items: Vec<NoteDetail>,
}

impl View for NotesScan {
    type V = NotesScanView;

    closed spec fn view(&self) -> NotesScanView {
        NotesScanView {
            in_section: self.in_section,
            current: match self.current {
                Some(c) => Some(c@),
                None => None,
            },
            items: notes_view(self.items@),
        }
    }
}

impl NotesScan {
    /// A scan that has read nothing.
    pub fn new() -> (r: Self)
        ensures
            r@ == notes_scan_start(),
    {
        let r = NotesScan { in_section: false, current: None, items: Vec::new() };
        assert(r@.items =~= Seq::<NoteDetailView>::empty());
        r
    }

    /// Whether a note is being read.
    pub fn in_note(&self) -> (b: bool)
        ensures
            b == self@.current is Some,
    {
        self.current.is_some()
    }

    /// Fold one reader event into the scan (see `notes_step`).
    pub fn step(self, ev: &XmlEvent) -> (r: Self)
        ensures
            r@ == notes_step(self@, ev@),
    {
        let NotesScan { in_section, current, items } = self;
        let mut items = items;
        match current {
            Some(cp) => {
                let is_end = match ev {
                    XmlEvent::End(name) => bytes_eq(strip_prefix(name.as_slice()), kw_note().as_slice()),
                    _ => false,
                };
                if is_end {
                    let c = cp.finish();
                    let ghost before = notes_view(items@);
                    items.push(c);
                    assert(notes_view(items@) =~= before.push(c@));
                    NotesScan { in_section, current: None, items }
                } else {
                    NotesScan { in_section, current: Some(cp.step(ev)), items }
                }
            },
            None => {
                match ev {
                    XmlEvent::Start(tag) => {
                        let n = strip_prefix(tag.name.as_slice());
                        if is_detail_section(n) {
                            NotesScan { in_section: bytes_eq(n, kw_notes().as_slice()), current: None, items }
                        } else if bytes_eq(n, kw_note().as_slice()) && in_section {
                            NotesScan { in_section, current: Some(NoteParse::new(tag)), items }
                        } else {
                            NotesScan { in_section, current: None, items }
                        }
                    },
                    XmlEvent::Empty(tag) => {
                        let n = strip_prefix(tag.name.as_slice());
                        if bytes_eq(n, kw_note().as_slice()) && in_section {
                            let c = NoteParse::new(tag).finish();
                            let ghost before = notes_view(items@);
                            items.push(c);
                            assert(notes_view(items@) =~= before.push(c@));
                        }
                        NotesScan { in_section, current: None, items }
                    },
                    XmlEvent::End(name) => {
                        let n = strip_prefix(name.as_slice());
                        let fl = if is_detail_section(n) { false } else { in_section };
                        NotesScan { in_section: fl, current: None, items }
                    },
                    _ => NotesScan { in_section, current: None, items },
                }
            },
        }
    }

    /// The notes read so far.
    pub fn finish(self) -> (r: Vec<NoteDetail>)
        ensures
            notes_view(r@) == self@.items,
    {
        self.items
    }
}

fn note_eof_error() -> (e: Error)
    ensures
        e matches Error::XmlParseError { message } && message@ == note_eof_message(),
{
    let mut m = String::new();
    crate::text::push_str(&mut m, "unexpected end of file while parsing note");
    assert(m@ =~= note_eof_message());
    Error::XmlParseError { message: m }
}

/// Read all notes of a Gramps XML document in full detail (see
/// `notes_step` and `note_detail_step`). A reader error becomes an
/// `XmlParseError` with the reader's message; a document that ends inside
/// a note is an `XmlParseError` too.
pub fn parse_notes_detail(content: &str) -> (r: Result<Vec<NoteDetail>, Error>)
    ensures
        match scan_notes_detail(content@, Seq::empty(), notes_scan_start(), content.len() as nat) {
            Ok(cs) => r matches Ok(v) && notes_view(v@) == cs,
            Err(m) => r matches Err(Error::XmlParseError { message }) && message@ == m,
        },
{
    let mut cursor = XmlCursor::new(content);
    let mut scan = NotesScan::new();
    let mut fuel: usize = content.len();
    loop
        invariant
            cursor.input() == content@,
            scan_notes_detail(content@, Seq::empty(), notes_scan_start(), content.len() as nat)
                == scan_notes_detail(content@, cursor.calls(), scan@, fuel as nat),
        decreases fuel,
    {
        match cursor.next_event() {
            Err(m) => {
                return Err(Error::XmlParseError { message: m });
            },
            Ok(XmlEvent::Eof) => {
                if scan.in_note() {
                    return Err(note_eof_error());
                }
                return Ok(scan.finish());
            },
            Ok(ev) => {
                if fuel == 0 {
                    return Err(unended_error());
                }
                fuel = fuel - 1;
                scan = scan.step(&ev);
            },
        }
    }
}

} // verus!
