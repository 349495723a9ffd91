//! A pull reader over an XML document, backed by `quick_xml`.
//!
//! The reader is a cursor over a document: each call either reads the next
//! event or reads the raw text up to a closing tag. What `quick_xml` answers
//! to a call depends only on the document and on the calls made before it;
//! the cursor keeps both as ghost state, and the answers are named
//! `xml_read_event` and `xml_read_text`. The library keeps a tag's
//! well-formed attributes and words a reader error (`xml_next_event`).

use vstd::prelude::*;
use crate::xml::{XmlTag, XmlTagView};
use crate::types::opt_text;
use crate::text::{decimal, push_decimal, push_str};

verus! {

/// `quick_xml::Reader`, held opaquely by the cursor.
#[verifier::external_type_specification]
#[verifier::external_body]
#[verifier::reject_recursive_types(R)]
pub struct ExQuickXmlReader<R>(quick_xml::Reader<R>);

/// `quick_xml::events::BytesStart`, a start tag as the reader returns it.
#[verifier::external_type_specification]
#[verifier::external_body]
pub struct ExBytesStart<'a>(quick_xml::events::BytesStart<'a>);

/// An XML event, with names, attributes and text as raw bytes.
#[derive(Debug, Clone)]
pub enum XmlEvent {
    Start(XmlTag),
    Empty(XmlTag),
    End(Vec<u8>),
    Text(Vec<u8>),
    Eof,
    Other,
}

/// Abstract XML event.
pub enum XmlEventView {
    Start(XmlTagView),
    Empty(XmlTagView),
    End(Seq<u8>),
    Text(Seq<u8>),
    Eof,
    Other,
}

impl View for XmlEvent {
    type V = XmlEventView;

    open spec fn view(&self) -> XmlEventView {
        match self {
            XmlEvent::Start(t) => XmlEventView::Start(t@),
            XmlEvent::Empty(t) => XmlEventView::Empty(t@),
            XmlEvent::End(n) => XmlEventView::End(n@),
            XmlEvent::Text(b) => XmlEventView::Text(b@),
            XmlEvent::Eof => XmlEventView::Eof,
            XmlEvent::Other => XmlEventView::Other,
        }
    }
}

/// One call made on a cursor: read the next event, or read the raw text up
/// to the closing tag with the given name.
pub enum XmlCall {
    NextEvent,
    ReadText(Seq<u8>),
}

/// A tag as `quick_xml` returns it: its raw name and each of its
/// attributes in document order, as raw key and value bytes, or `None` for
/// one that is malformed.
#[derive(Debug, Clone)]
pub struct RawTag {
    pub name: Vec<u8>,
    pub attributes: Vec<Option<(Vec<u8>, Vec<u8>)>>,
}

pub struct RawTagView {
    pub name: Seq<u8>,
    pub attributes: Seq<Option<(Seq<u8>, Seq<u8>)>>,
}

pub open spec fn raw_attribute_view(a: Option<(Vec<u8>, Vec<u8>)>) -> Option<(Seq<u8>, Seq<u8>)> {
    match a {
        Some(p) => Some((p.0@, p.1@)),
        None => None,
    }
}

impl View for RawTag {
    type V = RawTagView;

    open spec fn view(&self) -> RawTagView {
        RawTagView { name: self.name@, attributes: self.attributes@.map_values(|a| raw_attribute_view(a)) }
    }
}

/// An event as `quick_xml` returns it.
pub enum RawEvent {
    Start(RawTag),
    Empty(RawTag),
    End(Vec<u8>),
    Text(Vec<u8>),
    Eof,
    Other,
}

pub enum RawEventView {
    Start(RawTagView),
    Empty(RawTagView),
    End(Seq<u8>),
    Text(Seq<u8>),
    Eof,
    Other,
}

impl View for RawEvent {
    type V = RawEventView;

    open spec fn view(&self) -> RawEventView {
        match self {
            RawEvent::Start(t) => RawEventView::Start(t@),
            RawEvent::Empty(t) => RawEventView::Empty(t@),
            RawEvent::End(n) => RawEventView::End(n@),
            RawEvent::Text(b) => RawEventView::Text(b@),
            RawEvent::Eof => RawEventView::Eof,
            RawEvent::Other => RawEventView::Other,
        }
    }
}

pub open spec fn raw_result_view(r: Result<RawEvent, (String, u64)>) -> Result<RawEventView, (Seq<char>, u64)> {
    match r {
        Ok(e) => Ok(e@),
        Err((m, p)) => Err((m@, p)),
    }
}

/// What `quick_xml` returns for `read_event` on the document `input` (with
/// text trimming on) after the calls `calls`: an event, or the error's
/// message (its `Display` text) and the reader's error position.
pub uninterp spec fn xml_read_event(input: Seq<char>, calls: Seq<XmlCall>) -> Result<RawEventView, (Seq<char>, u64)>;

/// The well-formed attributes of a tag, in order.
pub open spec fn kept_attributes(a: Seq<Option<(Seq<u8>, Seq<u8>)>>) -> Seq<(Seq<u8>, Seq<u8>)>
    decreases a.len(),
{
    if a.len() == 0 {
        Seq::empty()
    } else {
        let rest = kept_attributes(a.drop_last());
        match a.last() {
            Some(p) => rest.push(p),
            None => rest,
        }
    }
}

/// A tag with its name and its well-formed attributes.
pub open spec fn kept_tag(t: RawTagView) -> XmlTagView {
    (t.name, kept_attributes(t.attributes))
}

/// The event of a reader event, tags keeping their well-formed attributes.
pub open spec fn kept_event(e: RawEventView) -> XmlEventView {
    match e {
        RawEventView::Start(t) => XmlEventView::Start(kept_tag(t)),
        RawEventView::Empty(t) => XmlEventView::Empty(kept_tag(t)),
        RawEventView::End(n) => XmlEventView::End(n),
        RawEventView::Text(b) => XmlEventView::Text(b),
        RawEventView::Eof => XmlEventView::Eof,
        RawEventView::Other => XmlEventView::Other,
    }
}

/// The message of a reader error: its text, then ` at byte ` and the error
/// position in decimal.
pub open spec fn reader_error_message(m: Seq<char>, pos: u64) -> Seq<char> {
    m + " at byte "@ + decimal(pos as nat)
}

/// The next event of the document `input` after the calls `calls`: the
/// reader's event with tags keeping their well-formed attributes, or the
/// reader's error message with its position.
#[verifier::opaque]
pub open spec fn xml_next_event(input: Seq<char>, calls: Seq<XmlCall>) -> Result<XmlEventView, Seq<char>> {
    match xml_read_event(input, calls) {
        Ok(e) => Ok(kept_event(e)),
        Err((m, p)) => Err(reader_error_message(m, p)),
    }
}

/// What `quick_xml` returns for `read_text` up to the closing tag `end` on
/// the document `input` after the calls `calls` (`None` on error).
pub uninterp spec fn xml_read_text(input: Seq<char>, calls: Seq<XmlCall>, end: Seq<u8>) -> Option<Seq<char>>;

pub open spec fn event_result_view(r: Result<XmlEvent, String>) -> Result<XmlEventView, Seq<char>> {
    match r {
        Ok(e) => Ok(e@),
        Err(m) => Err(m@),
    }
}

pub open spec fn text_result_view(r: Option<String>) -> Option<Seq<char>> {
    match r {
        Some(s) => Some(s@),
        None => None,
    }
}

/// What `quick_xml::escape::unescape` returns for `raw`: the text with its
/// entity and character references replaced, or `None` on a malformed or
/// unknown reference.
pub uninterp spec fn xml_unescaped(raw: Seq<char>) -> Option<Seq<char>>;

/// Replace the predefined entities and character references of XML text.
/// (Wraps `quick_xml::escape::unescape`; text without `&` comes back
/// unchanged, as its source shows.)
#[verifier::external_body]
pub(crate) fn xml_unescape(raw: &str) -> (r: Option<String>)
    ensures
        opt_text(r) == xml_unescaped(raw@),
        !raw@.contains('&') ==> opt_text(r) == Some(raw@),
{
    quick_xml::escape::unescape(raw).ok().map(|t| t.into_owned())
}

/// A `quick_xml` reader over a document. Nothing is stated of it: the
/// cursor's contract speaks of what it returns. (Wraps `Reader::from_str`.)
#[verifier::external_body]
fn reader_from_str<'a>(content: &'a str) -> quick_xml::Reader<&'a [u8]> {
    quick_xml::Reader::from_str(content)
}

/// Turn on trimming of whitespace around text. Nothing is stated: the
/// cursor's contract speaks of a reader with trimming on. (Wraps
/// `Config::trim_text`.)
#[verifier::external_body]
fn reader_trim_text<'a>(reader: &mut quick_xml::Reader<&'a [u8]>) {
    reader.config_mut().trim_text(true);
}

/// The raw name and every attribute, as raw bytes and in document order,
/// of a start or empty tag; a malformed attribute becomes `None`. Nothing is
/// stated here: the result is part of what `XmlCursor::next_raw` returns,
/// which is named as a whole. (Wraps `BytesStart::name` and
/// `BytesStart::attributes`.)
#[verifier::external_body]
fn raw_tag(e: &quick_xml::events::BytesStart) -> RawTag {
    RawTag {
        name: e.name().as_ref().to_vec(),
        attributes: e.attributes().map(|a| a.ok().map(|a| (a.key.as_ref().to_vec(), a.value.to_vec()))).collect(),
    }
}

/// The well-formed attributes of a tag, in order.
fn keep_attributes(a: &Vec<Option<(Vec<u8>, Vec<u8>)>>) -> (r: Vec<(Vec<u8>, Vec<u8>)>)
    ensures
        r@.map_values(|p: (Vec<u8>, Vec<u8>)| (p.0@, p.1@)) == kept_attributes(
            a@.map_values(|x| raw_attribute_view(x)),
        ),
{
    let ghost av = a@.map_values(|x| raw_attribute_view(x));
    let mut r: Vec<(Vec<u8>, Vec<u8>)> = Vec::new();
    let mut i: usize = 0;
    while i < a.len()
        invariant
            i <= a.len(),
            av == a@.map_values(|x| raw_attribute_view(x)),
            r@.map_values(|p: (Vec<u8>, Vec<u8>)| (p.0@, p.1@)) == kept_attributes(av.take(i as int)),
        decreases a.len() - i,
    {
        assert(av.take(i + 1).drop_last() =~= av.take(i as int));
        let ghost before = r@.map_values(|p: (Vec<u8>, Vec<u8>)| (p.0@, p.1@));
        match &a[i] {
            Some(p) => {
                r.push((p.0.clone(), p.1.clone()));
                assert(r@.map_values(|q: (Vec<u8>, Vec<u8>)| (q.0@, q.1@)) =~= before.push((p.0@, p.1@)));
            },
            None => {},
        }
        i = i + 1;
    }
    assert(av.take(a.len() as int) =~= av);
    r
}

fn keep_tag(t: RawTag) -> (r: XmlTag)
    ensures
        r@ == kept_tag(t@),
{
    let attributes = keep_attributes(&t.attributes);
    XmlTag { name: t.name, attributes }
}

/// A cursor over one document.
pub(crate) struct XmlCursor<'a> {
    reader: quick_xml::Reader<&'a [u8]>,
    input: Ghost<Seq<char>>,
    calls: Ghost<Seq<XmlCall>>,
}

impl<'a> XmlCursor<'a> {
    /// The document.
    pub(crate) closed spec fn input(&self) -> Seq<char> {
        self.input@
    }

    /// The calls made so far.
    pub(crate) closed spec fn calls(&self) -> Seq<XmlCall> {
        self.calls@
    }

    /// A cursor at the start of `content`, with text trimming on.
    pub(crate) fn new(content: &'a str) -> (c: Self)
        ensures
            c.input() == content@,
            c.calls() == Seq::<XmlCall>::empty(),
    {
        let mut reader = reader_from_str(content);
        reader_trim_text(&mut reader);
        XmlCursor { reader, input: Ghost(content@), calls: Ghost(Seq::empty()) }
    }

    /// Read the next reader event. The result is named `xml_read_event` of
    /// the document and of the calls made before; the call is recorded.
    /// (Wraps `Reader::read_event`: a start or empty tag becomes its raw name
    /// and attributes (`raw_tag`), an end tag its raw name, a text event its
    /// raw content; an error becomes its `Display` text and the reader's
    /// `error_position`.)
    #[verifier::external_body]
    fn next_raw(&mut self) -> (r: Result<RawEvent, (String, u64)>)
        ensures
            final(self).input() == old(self).input(),
            final(self).calls() == old(self).calls().push(XmlCall::NextEvent),
            raw_result_view(r) == xml_read_event(old(self).input(), old(self).calls()),
    {
        match self.reader.read_event() {
            Ok(quick_xml::events::Event::Start(e)) => Ok(RawEvent::Start(raw_tag(&e))),
            Ok(quick_xml::events::Event::Empty(e)) => Ok(RawEvent::Empty(raw_tag(&e))),
            Ok(quick_xml::events::Event::End(e)) => Ok(RawEvent::End(e.name().as_ref().to_vec())),
            Ok(quick_xml::events::Event::Text(e)) => Ok(RawEvent::Text(e.to_vec())),
            Ok(quick_xml::events::Event::Eof) => Ok(RawEvent::Eof),
            Ok(_) => Ok(RawEvent::Other),
            Err(e) => Err((e.to_string(), self.reader.error_position())),
        }
    }

    /// Read the next event (see `xml_next_event`); the call is recorded.
    pub(crate) fn next_event(&mut self) -> (r: Result<XmlEvent, String>)
        ensures
            final(self).input() == old(self).input(),
            final(self).calls() == old(self).calls().push(XmlCall::NextEvent),
            event_result_view(r) == xml_next_event(old(self).input(), old(self).calls()),
    {
        proof {
            reveal(xml_next_event);
        }
        match self.next_raw() {
            Ok(RawEvent::Start(t)) => Ok(XmlEvent::Start(keep_tag(t))),
            Ok(RawEvent::Empty(t)) => Ok(XmlEvent::Empty(keep_tag(t))),
            Ok(RawEvent::End(n)) => Ok(XmlEvent::End(n)),
            Ok(RawEvent::Text(b)) => Ok(XmlEvent::Text(b)),
            Ok(RawEvent::Eof) => Ok(XmlEvent::Eof),
            Ok(RawEvent::Other) => Ok(XmlEvent::Other),
            Err((m, p)) => {
                let mut msg = m;
                push_str(&mut msg, " at byte ");
                push_decimal(&mut msg, p);
                Err(msg)
            },
        }
    }

    /// Read the raw text up to the closing tag named `end`, consuming it.
    /// The result is named `xml_read_text` of the document, of the calls
    /// made before and of `end`; the call is recorded. (Wraps
    /// `Reader::read_text`; `None` on error.)
    #[verifier::external_body]
    pub(crate) fn read_text(&mut self, end: &[u8]) -> (r: Option<String>)
        ensures
            final(self).input() == old(self).input(),
            final(self).calls() == old(self).calls().push(XmlCall::ReadText(end@)),
            text_result_view(r) == xml_read_text(old(self).input(), old(self).calls(), end@),
    {
        self.reader.read_text(quick_xml::name::QName(end)).ok().map(|t| t.into_owned())
    }
}

} // verus!
