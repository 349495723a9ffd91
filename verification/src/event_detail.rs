//! Reading events in full detail from Gramps XML: type (nested
//! `<eventtype><type>` or flat `<type>`), date, description, place,
//! attributes, and the citations, notes, tags and media an event refers
//! to.
//!
//! Inside an `<event>` element every event of the reader is folded into an
//! event parse state by `event_detail_step`; the document scan
//! (`events_step`) tracks the sections and hands the events of each
//! `<event>` to it.

use vstd::prelude::*;
use crate::dates::{dateval_of, parse_dateval};
use crate::error::Error;
use crate::extract::{handle_or_empty, unended_error, unended_message, unescape_text, unescaped_text};
use crate::graph_names::{
    kw_attribute, kw_citationref, kw_description, kw_events, kw_id, kw_mediaref, kw_noteref, kw_place,
    kw_tagref, kw_value, spec_kw_attribute, spec_kw_citationref, spec_kw_description, spec_kw_events,
    spec_kw_id, spec_kw_mediaref, spec_kw_noteref, spec_kw_place, spec_kw_tagref, spec_kw_value,
};
use crate::names::{
    kw_dateval, kw_event, kw_eventtype, kw_type, spec_kw_dateval, spec_kw_event, spec_kw_eventtype,
    spec_kw_hlink, spec_kw_type,
};
use crate::person_detail::{attr_last, detail_section, is_detail_section, or_empty, read_attr_last, text_or_empty};
use crate::person_records::{AttributeRecord, AttributeView, EventDetail, EventDetailView};
use crate::text::{trim, trimmed};
use crate::typed_values::{attribute_type_of, event_type_of, parse_attribute_type, parse_event_type};
use crate::xml::{attr_text, bytes_eq, local_name, read_attr, read_handle_attr, read_hlink_attr, strip_prefix, XmlTag, XmlTagView};
use crate::xml_reader::{xml_next_event, XmlCall, XmlCursor, XmlEvent, XmlEventView};

verus! {

/// Which elements of an event are being read.
#[derive(Clone, Copy)]
pub struct EventFlags {
    pub in_eventtype: bool,
    pub in_type: bool,
    pub in_description: bool,
    pub in_attribute: bool,
    pub in_attr_type: bool,
    pub in_attr_value: bool,
}

/// The state of reading one event: the event so far, which element's text
/// is being read, the type text read, and the attribute being read.
pub struct EventParseView {
    pub event: EventDetailView,
    pub flags: EventFlags,
    pub type_text: Seq<char>,
    pub attr_type: Seq<char>,
    pub attr_value: Seq<char>,
}

pub open spec fn no_event_flags() -> EventFlags {
    EventFlags {
        in_eventtype: false,
        in_type: false,
        in_description: false,
        in_attribute: false,
        in_attr_type: false,
        in_attr_value: false,
    }
}

/// An event with the handle and id of its start tag and nothing else.
pub open spec fn new_event_detail(tag: XmlTagView) -> EventDetailView {
    EventDetailView {
        handle: handle_or_empty(tag),
        gramps_id: attr_text(tag, spec_kw_id()),
        event_type: None,
        date: None,
        description: None,
        place: None,
        attributes: Seq::empty(),
        citations: Seq::empty(),
        notes: Seq::empty(),
        tags: Seq::empty(),
        media: Seq::empty(),
    }
}

/// The state at an event's start tag.
pub open spec fn new_event_parse(tag: XmlTagView) -> EventParseView {
    EventParseView {
        event: new_event_detail(tag),
        flags: no_event_flags(),
        type_text: Seq::empty(),
        attr_type: Seq::empty(),
        attr_value: Seq::empty(),
    }
}

/// The event with one more attribute of type text `t` and value `v`.
pub open spec fn event_attribute(e: EventDetailView, t: Seq<char>, v: Seq<char>) -> EventDetailView {
    EventDetailView { attributes: e.attributes.push(AttributeView { attr_type: attribute_type_of(t), value: v }), ..e }
}

/// The event after a `<place>` tag: its `hlink`, when it has one, is the
/// event's place.
pub open spec fn with_event_place(e: EventDetailView, tag: XmlTagView) -> EventDetailView {
    match attr_text(tag, spec_kw_hlink()) {
        Some(h) => EventDetailView { place: Some(h), ..e },
        None => e,
    }
}

/// The start of an `<attribute>` in an event.
pub open spec fn event_start_attribute(s: EventParseView, a: Seq<(Seq<u8>, Seq<u8>)>) -> EventParseView {
    let t = text_or_empty(attr_last(a, spec_kw_type()));
    let v = text_or_empty(attr_last(a, spec_kw_value()));
    if t.len() > 0 && v.len() > 0 {
        EventParseView {
            event: event_attribute(s.event, t, v),
            attr_type: t,
            attr_value: v,
            flags: EventFlags { in_attribute: false, ..s.flags },
            ..s
        }
    } else {
        EventParseView { attr_type: t, attr_value: v, flags: EventFlags { in_attribute: true, ..s.flags }, ..s }
    }
}

/// A start tag inside an event.
pub open spec fn event_start(s: EventParseView, tag: XmlTagView) -> EventParseView {
    let n = local_name(tag.0);
    let f = s.flags;
    if n == spec_kw_eventtype() {
        EventParseView { flags: EventFlags { in_eventtype: true, ..f }, ..s }
    } else if n == spec_kw_type() && f.in_attribute {
        EventParseView { flags: EventFlags { in_attr_type: true, ..f }, ..s }
    } else if n == spec_kw_type() {
        EventParseView { flags: EventFlags { in_type: true, ..f }, type_text: Seq::empty(), ..s }
    } else if n == spec_kw_description() {
        EventParseView { flags: EventFlags { in_description: true, ..f }, ..s }
    } else if n == spec_kw_place() {
        EventParseView { event: with_event_place(s.event, tag), ..s }
    } else if n == spec_kw_attribute() {
        event_start_attribute(s, tag.1)
    } else if n == spec_kw_value() && f.in_attribute {
        EventParseView { flags: EventFlags { in_attr_value: true, ..f }, ..s }
    } else {
        s
    }
}

/// Whether a local name is one of the simple reference elements.
pub open spec fn event_simple_ref(n: Seq<u8>) -> bool {
    n == spec_kw_citationref() || n == spec_kw_noteref() || n == spec_kw_tagref() || n == spec_kw_mediaref()
}

/// The event after a simple reference element with target `h`.
pub open spec fn with_event_ref(e: EventDetailView, n: Seq<u8>, h: Seq<char>) -> EventDetailView {
    if n == spec_kw_citationref() {
        EventDetailView { citations: e.citations.push(h), ..e }
    } else if n == spec_kw_noteref() {
        EventDetailView { notes: e.notes.push(h), ..e }
    } else if n == spec_kw_tagref() {
        EventDetailView { tags: e.tags.push(h), ..e }
    } else {
        EventDetailView { media: e.media.push(h), ..e }
    }
}

/// The event after an empty-element tag inside it. A `<dateval>` with a
/// `val` sets the date (see `dateval_of`).
pub open spec fn empty_event(e: EventDetailView, tag: XmlTagView) -> EventDetailView {
    let n = local_name(tag.0);
    let a = tag.1;
    let h = attr_text(tag, spec_kw_hlink());
    if n == spec_kw_dateval() {
        match dateval_of(tag) {
            Some(d) => EventDetailView { date: Some(d), ..e },
            None => e,
        }
    } else if n == spec_kw_place() {
        with_event_place(e, tag)
    } else if event_simple_ref(n) {
        match h {
            Some(x) => with_event_ref(e, n, x),
            None => e,
        }
    } else if n == spec_kw_attribute() {
        let t = text_or_empty(attr_last(a, spec_kw_type()));
        let v = text_or_empty(attr_last(a, spec_kw_value()));
        if t.len() > 0 || v.len() > 0 {
            event_attribute(e, t, v)
        } else {
            e
        }
    } else {
        e
    }
}

/// The trimmed, non-empty text `t` of a text event inside an event: the
/// type, description, attribute type or attribute value being read.
pub open spec fn event_text(s: EventParseView, t: Seq<char>) -> EventParseView {
    let f = s.flags;
    if f.in_type {
        EventParseView { type_text: t, ..s }
    } else if f.in_description {
        EventParseView { event: EventDetailView { description: Some(t), ..s.event }, ..s }
    } else if f.in_attr_type {
        EventParseView { attr_type: t, ..s }
    } else if f.in_attr_value {
        EventParseView { attr_value: t, ..s }
    } else {
        s
    }
}

/// The end of a `<type>` being read: a known type text sets the type.
pub open spec fn end_type(s: EventParseView) -> EventParseView {
    EventParseView {
        event: match event_type_of(s.type_text) {
            Some(t) => EventDetailView { event_type: Some(t), ..s.event },
            None => s.event,
        },
        flags: EventFlags { in_type: false, ..s.flags },
        ..s
    }
}

/// An end tag of local name `n` inside an event (other than its own end).
pub open spec fn event_end(s: EventParseView, n: Seq<u8>) -> EventParseView {
    let f = s.flags;
    if n == spec_kw_eventtype() {
        EventParseView { flags: EventFlags { in_eventtype: false, ..f }, ..s }
    } else if n == spec_kw_type() && f.in_type {
        end_type(s)
    } else if n == spec_kw_type() && f.in_attr_type {
        EventParseView { flags: EventFlags { in_attr_type: false, ..f }, ..s }
    } else if n == spec_kw_value() && f.in_attr_value {
        EventParseView { flags: EventFlags { in_attr_value: false, ..f }, ..s }
    } else if n == spec_kw_description() {
        EventParseView { flags: EventFlags { in_description: false, ..f }, ..s }
    } else if n == spec_kw_attribute() {
        EventParseView {
            event: if s.attr_type.len() > 0 || s.attr_value.len() > 0 {
                event_attribute(s.event, s.attr_type, s.attr_value)
            } else {
                s.event
            },
            flags: EventFlags { in_attribute: false, in_attr_type: false, in_attr_value: false, ..f },
            ..s
        }
    } else {
        s
    }
}

/// One reader event inside an event (other than its end tag).
pub open spec fn event_detail_step(s: EventParseView, ev: XmlEventView) -> EventParseView {
    match ev {
        XmlEventView::Start(tag) => event_start(s, tag),
        XmlEventView::Empty(tag) => EventParseView { event: empty_event(s.event, tag), ..s },
        XmlEventView::Text(raw) => match unescaped_text(raw) {
            Some(t) => if trimmed(t).len() > 0 {
                event_text(s, trimmed(t))
            } else {
                s
            },
            None => s,
        },
        XmlEventView::End(name) => event_end(s, local_name(name)),
        _ => s,
    }
}

/// Abstract state of the document scan for events.
pub struct EventsScanView {
    pub in_events: bool,
    pub current: Option<EventParseView>,
    pub events: Seq<EventDetailView>,
}

pub open spec fn events_scan_start() -> EventsScanView {
    EventsScanView { in_events: false, current: None, events: Seq::empty() }
}

/// One step of the document scan for events.
pub open spec fn events_step(s: EventsScanView, ev: XmlEventView) -> EventsScanView {
    match s.current {
        Some(ep) => match ev {
            XmlEventView::End(name) => if local_name(name) == spec_kw_event() {
                EventsScanView { events: s.events.push(ep.event), current: None, ..s }
            } else {
                EventsScanView { current: Some(event_detail_step(ep, ev)), ..s }
            },
            _ => EventsScanView { current: Some(event_detail_step(ep, ev)), ..s },
        },
        None => match ev {
            XmlEventView::Start(tag) => {
                let n = local_name(tag.0);
                if detail_section(n) {
                    EventsScanView { in_events: n == spec_kw_events(), ..s }
                } else if n == spec_kw_event() && s.in_events {
                    EventsScanView { current: Some(new_event_parse(tag)), ..s }
                } else {
                    s
                }
            },
            XmlEventView::Empty(tag) => if local_name(tag.0) == spec_kw_event() && s.in_events {
                EventsScanView { events: s.events.push(new_event_detail(tag)), ..s }
            } else {
                s
            },
            XmlEventView::End(name) => if detail_section(local_name(name)) {
                EventsScanView { in_events: false, ..s }
            } else {
                s
            },
            _ => s,
        },
    }
}

/// The message when the document ends inside an event.
pub open spec fn event_eof_message() -> Seq<char> {
    "unexpected end of file while parsing event"@
}

/// The events read from a document: the scan run over the reader's events
/// for `input` after `calls`, from state `s`, taking at most `fuel` of them
/// other than the end.
pub open spec fn scan_events_detail(input: Seq<char>, calls: Seq<XmlCall>, s: EventsScanView, fuel: nat) -> Result<
    Seq<EventDetailView>,
    Seq<char>,
>
    decreases fuel,
{
    match xml_next_event(input, calls) {
        Err(m) => Err(m),
        Ok(XmlEventView::Eof) => if s.current is Some {
            Err(event_eof_message())
        } else {
            Ok(s.events)
        },
        Ok(ev) => if fuel == 0 {
            Err(unended_message())
        } else {
            scan_events_detail(input, calls.push(XmlCall::NextEvent), events_step(s, ev), (fuel - 1) as nat)
        },
    }
}

// ---------------------------------------------------------------------------
// Executable reading
// ---------------------------------------------------------------------------

fn add_event_attribute(e: EventDetail, t: &String, v: &String) -> (r: EventDetail)
    ensures
        r@ == event_attribute(e@, t@, v@),
{
    e.push_attribute(AttributeRecord::new(parse_attribute_type(t.as_str()), v.clone()))
}

fn place_exec(e: EventDetail, tag: &XmlTag) -> (r: EventDetail)
    ensures
        r@ == with_event_place(e@, tag@),
{
    match read_hlink_attr(tag) {
        Some(h) => e.set_place(h),
        None => e,
    }
}

fn empty_event_exec(e: EventDetail, tag: &XmlTag) -> (r: EventDetail)
    ensures
        r@ == empty_event(e@, tag@),
{
    let n = strip_prefix(tag.name.as_slice());
    if bytes_eq(n, kw_dateval().as_slice()) {
        match parse_dateval(tag) {
            Some(d) => e.set_date(d),
            None => e,
        }
    } else if bytes_eq(n, kw_place().as_slice()) {
        place_exec(e, tag)
    } else if bytes_eq(n, kw_citationref().as_slice()) || bytes_eq(n, kw_noteref().as_slice()) || bytes_eq(
        n,
        kw_tagref().as_slice(),
    ) || bytes_eq(n, kw_mediaref().as_slice()) {
        match read_hlink_attr(tag) {
            Some(h) => {
                if bytes_eq(n, kw_citationref().as_slice()) {
                    e.push_citation(h)
                } else if bytes_eq(n, kw_noteref().as_slice()) {
                    e.push_note(h)
                } else if bytes_eq(n, kw_tagref().as_slice()) {
                    e.push_tag(h)
                } else {
                    e.push_media(h)
                }
            },
            None => e,
        }
    } else if bytes_eq(n, kw_attribute().as_slice()) {
        let t = or_empty(read_attr_last(tag, kw_type().as_slice()));
        let v = or_empty(read_attr_last(tag, kw_value().as_slice()));
        if !t.as_str().is_empty() || !v.as_str().is_empty() {
            add_event_attribute(e, &t, &v)
        } else {
            e
        }
    } else {
        e
    }
}

/// The state of reading one event.
pub struct EventParse {
    event: EventDetail,
    flags: EventFlags,
    type_text: String,
    attr_type: String,
    attr_value: String,
}

impl View for EventParse {
    type V = EventParseView;

    closed spec fn view(&self) -> EventParseView {
        EventParseView {
            event: self.event@,
            flags: self.flags,
            type_text: self.type_text@,
            attr_type: self.attr_type@,
            attr_value: self.attr_value@,
        }
    }
}

impl EventParse {
    /// The state at an event's start tag.
    pub fn new(tag: &XmlTag) -> (r: Self)
        ensures
            r@ == new_event_parse(tag@),
    {
        let handle = match read_handle_attr(tag) {
            Some(h) => h,
            None => String::new(),
        };
        let gramps_id = read_attr(tag, kw_id().as_slice());
        EventParse {
            event: EventDetail::new(handle, gramps_id),
            flags: EventFlags {
                in_eventtype: false,
                in_type: false,
                in_description: false,
                in_attribute: false,
                in_attr_type: false,
                in_attr_value: false,
            },
            type_text: String::new(),
            attr_type: String::new(),
            attr_value: String::new(),
        }
    }

    fn start_attribute(self, tag: &XmlTag) -> (r: Self)
        ensures
            r@ == event_start_attribute(self@, tag@.1),
    {
        let mut s = self;
        let t = or_empty(read_attr_last(tag, kw_type().as_slice()));
        let v = or_empty(read_attr_last(tag, kw_value().as_slice()));
        let both = !t.as_str().is_empty() && !v.as_str().is_empty();
        s.event = if both { add_event_attribute(s.event, &t, &v) } else { s.event };
        s.flags = EventFlags { in_attribute: !both, ..s.flags };
        s.attr_type = t;
        s.attr_value = v;
        s
    }

    fn start(self, tag: &XmlTag) -> (r: Self)
        ensures
            r@ == event_start(self@, tag@),
    {
        let mut s = self;
        let n = strip_prefix(tag.name.as_slice());
        let f = s.flags;
        if bytes_eq(n, kw_eventtype().as_slice()) {
            s.flags = EventFlags { in_eventtype: true, ..f };
            s
        } else if bytes_eq(n, kw_type().as_slice()) && f.in_attribute {
            s.flags = EventFlags { in_attr_type: true, ..f };
            s
        } else if bytes_eq(n, kw_type().as_slice()) {
            s.flags = EventFlags { in_type: true, ..f };
            s.type_text = String::new();
            s
        } else if bytes_eq(n, kw_description().as_slice()) {
            s.flags = EventFlags { in_description: true, ..f };
            s
        } else if bytes_eq(n, kw_place().as_slice()) {
            s.event = place_exec(s.event, tag);
            s
        } else if bytes_eq(n, kw_attribute().as_slice()) {
            s.start_attribute(tag)
        } else if bytes_eq(n, kw_value().as_slice()) && f.in_attribute {
            s.flags = EventFlags { in_attr_value: true, ..f };
            s
        } else {
            s
        }
    }

    fn text(self, t: String) -> (r: Self)
        ensures
            r@ == event_text(self@, t@),
    {
        let mut s = self;
        let f = s.flags;
        if f.in_type {
            s.type_text = t;
        } else if f.in_description {
            s.event = s.event.set_description(t);
        } else if f.in_attr_type {
            s.attr_type = t;
        } else if f.in_attr_value {
            s.attr_value = t;
        }
        s
    }

    fn end_type(self) -> (r: Self)
        ensures
            r@ == end_type(self@),
    {
        let mut s = self;
        match parse_event_type(s.type_text.as_str()) {
            Some(t) => {
                s.event = s.event.set_event_type(t);
            },
            None => {},
        }
        s.flags = EventFlags { in_type: false, ..s.flags };
        s
    }

    fn end(self, n: &[u8]) -> (r: Self)
        ensures
            r@ == event_end(self@, n@),
    {
        let mut s = self;
        let f = s.flags;
        if bytes_eq(n, kw_eventtype().as_slice()) {
            s.flags = EventFlags { in_eventtype: false, ..f };
            s
        } else if bytes_eq(n, kw_type().as_slice()) && f.in_type {
            s.end_type()
        } else if bytes_eq(n, kw_type().as_slice()) && f.in_attr_type {
            s.flags = EventFlags { in_attr_type: false, ..f };
            s
        } else if bytes_eq(n, kw_value().as_slice()) && f.in_attr_value {
            s.flags = EventFlags { in_attr_value: false, ..f };
            s
        } else if bytes_eq(n, kw_description().as_slice()) {
            s.flags = EventFlags { in_description: false, ..f };
            s
        } else if bytes_eq(n, kw_attribute().as_slice()) {
            if !s.attr_type.as_str().is_empty() || !s.attr_value.as_str().is_empty() {
                s.event = add_event_attribute(s.event, &s.attr_type, &s.attr_value);
            }
            s.flags = EventFlags { in_attribute: false, in_attr_type: false, in_attr_value: false, ..f };
            s
        } else {
            s
        }
    }

    /// Fold one reader event inside the event (other than its end tag)
    /// into the state (see `event_detail_step`).
    pub fn step(self, ev: &XmlEvent) -> (r: Self)
        ensures
            r@ == event_detail_step(self@, ev@),
    {
        match ev {
            XmlEvent::Start(tag) => self.start(tag),
            XmlEvent::Empty(tag) => {
                let mut s = self;
                s.event = empty_event_exec(s.event, tag);
                s
            },
            XmlEvent::Text(raw) => {
                match unescape_text(raw.as_slice()) {
                    Some(t) => {
                        let tt = trim(t.as_str());
                        if !tt.as_str().is_empty() {
                            self.text(tt)
                        } else {
                            self
                        }
                    },
                    None => self,
                }
            },
            XmlEvent::End(name) => {
                let n = strip_prefix(name.as_slice());
                self.end(n)
            },
            _ => self,
        }
    }

    /// The event read.
    pub fn finish(self) -> (r: EventDetail)
        ensures
            r@ == self@.event,
    {
        self.event
    }
}

pub open spec fn events_view(v: Seq<EventDetail>) -> Seq<EventDetailView> {
    v.map_values(|e: EventDetail| e@)
}

/// The state of the document scan for events.
pub struct EventsScan {
    in_events: bool,
    current: Option<EventParse>,
    events: Vec<EventDetail>,
}

impl View for EventsScan {
    type V = EventsScanView;

    closed spec fn view(&self) -> EventsScanView {
        EventsScanView {
            in_events: self.in_events,
            current: match self.current {
                Some(e) => Some(e@),
                None => None,
            },
            events: events_view(self.events@),
        }
    }
}

impl EventsScan {
    /// A scan that has read nothing.
    pub fn new() -> (r: Self)
        ensures
            r@ == events_scan_start(),
    {
        let r = EventsScan { in_events: false, current: None, events: Vec::new() };
        assert(r@.events =~= Seq::<EventDetailView>::empty());
        r
    }

    /// Whether an event is being read.
    pub fn in_event(&self) -> (b: bool)
        ensures
            b == self@.current is Some,
    {
        self.current.is_some()
    }

    /// Fold one reader event into the scan (see `events_step`).
    pub fn step(self, ev: &XmlEvent) -> (r: Self)
        ensures
            r@ == events_step(self@, ev@),
    {
        let EventsScan { in_events, current, events } = self;
        let mut events = events;
        match current {
            Some(ep) => {
                let is_end = match ev {
                    XmlEvent::End(name) => bytes_eq(strip_prefix(name.as_slice()), kw_event().as_slice()),
                    _ => false,
                };
                if is_end {
                    let e = ep.finish();
                    let ghost before = events_view(events@);
                    events.push(e);
                    assert(events_view(events@) =~= before.push(e@));
                    EventsScan { in_events, current: None, events }
                } else {
                    EventsScan { in_events, current: Some(ep.step(ev)), events }
                }
            },
            None => {
                match ev {
                    XmlEvent::Start(tag) => {
                        let n = strip_prefix(tag.name.as_slice());
                        if is_detail_section(n) {
                            EventsScan { in_events: bytes_eq(n, kw_events().as_slice()), current: None, events }
                        } else if bytes_eq(n, kw_event().as_slice()) && in_events {
                            EventsScan { in_events, current: Some(EventParse::new(tag)), events }
                        } else {
                            EventsScan { in_events, current: None, events }
                        }
                    },
                    XmlEvent::Empty(tag) => {
                        let n = strip_prefix(tag.name.as_slice());
                        if bytes_eq(n, kw_event().as_slice()) && in_events {
                            let e = EventParse::new(tag).finish();
                            let ghost before = events_view(events@);
                            events.push(e);
                            assert(events_view(events@) =~= before.push(e@));
                        }
                        EventsScan { in_events, current: None, events }
                    },
                    XmlEvent::End(name) => {
                        let n = strip_prefix(name.as_slice());
                        let fl = if is_detail_section(n) { false } else { in_events };
                        EventsScan { in_events: fl, current: None, events }
                    },
                    _ => EventsScan { in_events, current: None, events },
                }
            },
        }
    }

    /// The events read so far.
    pub fn finish(self) -> (r: Vec<EventDetail>)
        ensures
            events_view(r@) == self@.events,
    {
        self.events
    }
}

fn event_eof_error() -> (e: Error)
    ensures
        e matches Error::XmlParseError { message } && message@ == event_eof_message(),
{
    let mut m = String::new();
    crate::text::push_str(&mut m, "unexpected end of file while parsing event");
    assert(m@ =~= event_eof_message());
    Error::XmlParseError { message: m }
}

/// Read all events of a Gramps XML document in full detail (see
/// `events_step` and `event_detail_step`). A reader error becomes an
/// `XmlParseError` with the reader's message; a document that ends inside
/// an event is an `XmlParseError` too.
pub fn parse_events_detail(content: &str) -> (r: Result<Vec<EventDetail>, Error>)
    ensures
        match scan_events_detail(content@, Seq::empty(), events_scan_start(), content.len() as nat) {
            Ok(es) => r matches Ok(v) && events_view(v@) == es,
            Err(m) => r matches Err(Error::XmlParseError { message }) && message@ == m,
        },
{
    let mut cursor = XmlCursor::new(content);
    let mut scan = EventsScan::new();
    let mut fuel: usize = content.len();
    loop
        invariant
            cursor.input() == content@,
            scan_events_detail(content@, Seq::empty(), events_scan_start(), content.len() as nat)
                == scan_events_detail(content@, cursor.calls(), scan@, fuel as nat),
        decreases fuel,
    {
        match cursor.next_event() {
            Err(m) => {
                return Err(Error::XmlParseError { message: m });
            },
            Ok(XmlEvent::Eof) => {
                if scan.in_event() {
                    return Err(event_eof_error());
                }
                return Ok(scan.finish());
            },
            Ok(ev) => {
                if fuel == 0 {
                    return Err(unended_error());
                }
                fuel = fuel - 1;
                scan = scan.step(&ev);
            },
        }
    }
}

} // verus!
