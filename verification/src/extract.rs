//! Streaming extraction of families, events and persons from Gramps XML.
//!
//! Each extractor reads the document once, event by event, and folds every
//! event into a small scan state. The fold step of each extractor is a
//! public function of its own, with an exact contract over the abstract
//! event it is given; the extractor's contract is that fold run over what
//! the XML reader returns for the document.

use vstd::prelude::*;
use crate::error::Error;
use crate::names::{
    kw_birth, kw_childref, kw_dateval, kw_death, kw_event, kw_eventref, kw_eventtype, kw_family, kw_father,
    kw_first, kw_gender, kw_mother, kw_name, kw_person, kw_surname, kw_type, kw_val,
    spec_kw_birth, spec_kw_childref, spec_kw_dateval, spec_kw_death, spec_kw_event,
    spec_kw_eventref, spec_kw_eventtype, spec_kw_family, spec_kw_father, spec_kw_first, spec_kw_gender,
    spec_kw_handle, spec_kw_hlink, spec_kw_mother, spec_kw_name, spec_kw_person, spec_kw_surname,
    spec_kw_type, spec_kw_val,
};
use crate::text::{parse_year, push_str, trim, trimmed, utf8_decode, year_of};
use crate::types::{
    opt_text, results_view, ParsedEvent, ParsedEventView, ParsedFamily, ParsedFamilyView, ParsedPerson,
    ParsedPersonView,
};
use crate::xml::{
    attr_text, local_name, name_is, read_attr, read_handle_attr, read_hlink_attr, tag_is, XmlTag,
    XmlTagView,
};
use crate::xml_reader::{
    xml_next_event, xml_read_text, xml_unescape, xml_unescaped, XmlCall, XmlCursor, XmlEvent,
    XmlEventView,
};

verus! {

// ---------------------------------------------------------------------------
// Shared pieces
// ---------------------------------------------------------------------------

/// The message of the error returned when the reader yields more events
/// than the document has bytes without reaching its end.
pub open spec fn unended_message() -> Seq<char> {
    "XML reader did not reach the end of the document"@
}

pub(crate) fn unended_error() -> (e: Error)
    ensures
        e matches Error::XmlParseError { message } && message@ == unended_message(),
{
    let mut m = String::new();
    push_str(&mut m, "XML reader did not reach the end of the document");
    assert(m@ =~= unended_message());
    Error::XmlParseError { message: m }
}

/// The `handle` attribute of a tag, or the empty string when it has none.
pub open spec fn handle_or_empty(tag: XmlTagView) -> Seq<char> {
    match attr_text(tag, spec_kw_handle()) {
        Some(h) => h,
        None => Seq::empty(),
    }
}

fn read_handle_or_empty(tag: &XmlTag) -> (h: String)
    ensures
        h@ == handle_or_empty(tag@),
{
    match read_handle_attr(tag) {
        Some(h) => h,
        None => String::new(),
    }
}

/// The `val` attribute of a `<dateval>` tag.
pub open spec fn date_val_of(tag: XmlTagView) -> Option<Seq<char>> {
    attr_text(tag, spec_kw_val())
}

/// The year of a `<dateval>` tag's `val` attribute.
pub open spec fn date_year_of(tag: XmlTagView) -> Option<i32> {
    match date_val_of(tag) {
        Some(v) => year_of(v),
        None => None,
    }
}

fn read_date(tag: &XmlTag) -> (r: (Option<String>, Option<i32>))
    ensures
        opt_text(r.0) == date_val_of(tag@),
        r.1 == date_year_of(tag@),
{
    let kw = kw_val();
    let display = read_attr(tag, kw.as_slice());
    let year = match &display {
        Some(v) => parse_year(v.as_str()),
        None => None,
    };
    (display, year)
}

// ---------------------------------------------------------------------------
// Families
// ---------------------------------------------------------------------------

/// A family with the given handle and no members.
pub open spec fn new_family(handle: Seq<char>) -> ParsedFamilyView {
    ParsedFamilyView {
        handle,
        father_handle: None,
        mother_handle: None,
        child_handles: Seq::empty(),
    }
}

/// Abstract state of a family scan: the families completed so far and the
/// family being read, if any.
pub struct FamilyScanView {
    pub families: Seq<ParsedFamilyView>,
    pub current: Option<ParsedFamilyView>,
}

/// Whether a local name is one of the member references of a family.
pub open spec fn is_member_ref(n: Seq<u8>) -> bool {
    n == spec_kw_father() || n == spec_kw_mother() || n == spec_kw_childref()
}

/// The family being read after a `<father>`, `<mother>` or `<childref>`
/// tag: its `hlink` becomes the father, the mother, or one more child.
pub open spec fn family_link(cur: Option<ParsedFamilyView>, tag: XmlTagView) -> Option<ParsedFamilyView> {
    let n = local_name(tag.0);
    match cur {
        None => None,
        Some(f) => match attr_text(tag, spec_kw_hlink()) {
            None => Some(f),
            Some(h) => if n == spec_kw_father() {
                Some(ParsedFamilyView { father_handle: Some(h), ..f })
            } else if n == spec_kw_mother() {
                Some(ParsedFamilyView { mother_handle: Some(h), ..f })
            } else {
                Some(ParsedFamilyView { child_handles: f.child_handles.push(h), ..f })
            },
        },
    }
}

/// One step of a family scan.
pub open spec fn family_step(s: FamilyScanView, ev: XmlEventView) -> FamilyScanView {
    match ev {
        XmlEventView::Start(tag) => {
            let n = local_name(tag.0);
            if n == spec_kw_family() {
                FamilyScanView { current: Some(new_family(handle_or_empty(tag))), ..s }
            } else if is_member_ref(n) {
                FamilyScanView { current: family_link(s.current, tag), ..s }
            } else {
                s
            }
        },
        XmlEventView::Empty(tag) => {
            let n = local_name(tag.0);
            if n == spec_kw_family() {
                FamilyScanView { families: s.families.push(new_family(handle_or_empty(tag))), ..s }
            } else if is_member_ref(n) {
                FamilyScanView { current: family_link(s.current, tag), ..s }
            } else {
                s
            }
        },
        XmlEventView::End(name) => {
            if local_name(name) == spec_kw_family() {
                match s.current {
                    Some(f) => FamilyScanView { families: s.families.push(f), current: None },
                    None => s,
                }
            } else {
                s
            }
        },
        _ => s,
    }
}

/// The families read from a document: the family scan run over the events
/// that the reader returns for `input` after the calls `calls`, from state
/// `s`. At most `fuel` events other than the end are taken.
pub open spec fn scan_families(
    input: Seq<char>,
    calls: Seq<XmlCall>,
    s: FamilyScanView,
    fuel: nat,
) -> Result<Seq<ParsedFamilyView>, Seq<char>>
    decreases fuel,
{
    match xml_next_event(input, calls) {
        Err(m) => Err(m),
        Ok(XmlEventView::Eof) => Ok(s.families),
        Ok(ev) => if fuel == 0 {
            Err(unended_message())
        } else {
            scan_families(input, calls.push(XmlCall::NextEvent), family_step(s, ev), (fuel - 1) as nat)
        },
    }
}

/// The state of a family scan.
pub struct FamilyScan {
    families: Vec<ParsedFamily>,
    current: Option<ParsedFamily>,
}

impl View for FamilyScan {
    type V = FamilyScanView;

    closed spec fn view(&self) -> FamilyScanView {
        FamilyScanView {
            families: results_view(self.families@),
            current: match self.current {
                Some(f) => Some(f@),
                None => None,
            },
        }
    }
}

fn new_family_record(handle: String) -> (f: ParsedFamily)
    ensures
        f@ == new_family(handle@),
{
    let f = ParsedFamily {
        handle,
        father_handle: None,
        mother_handle: None,
        child_handles: Vec::new(),
    };
    assert(f@.child_handles =~= Seq::<Seq<char>>::empty());
    f
}

impl FamilyScan {
    /// A scan with no families read.
    pub fn new() -> (s: Self)
        ensures
            s@ == (FamilyScanView { families: Seq::empty(), current: None }),
    {
        let s = FamilyScan { families: Vec::new(), current: None };
        assert(s@.families =~= Seq::<ParsedFamilyView>::empty());
        s
    }

    fn link(&mut self, tag: &XmlTag)
        requires
            is_member_ref(local_name(tag@.0)),
        ensures
            final(self)@ == (FamilyScanView { current: family_link(old(self)@.current, tag@), ..old(self)@ }),
    {
        let cur = self.current.take();
        match cur {
            None => {},
            Some(mut f) => {
                match read_hlink_attr(tag) {
                    None => {},
                    Some(h) => {
                        let kf = kw_father();
                        let km = kw_mother();
                        if tag_is(tag, kf.as_slice()) {
                            f.father_handle = Some(h);
                        } else if tag_is(tag, km.as_slice()) {
                            f.mother_handle = Some(h);
                        } else {
                            let ghost before = f@.child_handles;
                            f.child_handles.push(h);
                            assert(f@.child_handles =~= before.push(h@));
                        }
                    },
                }
                self.current = Some(f);
            },
        }
    }

    /// Fold one event into the scan.
    pub fn step(&mut self, ev: &XmlEvent)
        ensures
            final(self)@ == family_step(old(self)@, ev@),
    {
        let kfam = kw_family();
        let kf = kw_father();
        let km = kw_mother();
        let kc = kw_childref();
        match ev {
            XmlEvent::Start(tag) => {
                if tag_is(tag, kfam.as_slice()) {
                    let h = read_handle_or_empty(tag);
                    self.current = Some(new_family_record(h));
                } else if tag_is(tag, kf.as_slice()) || tag_is(tag, km.as_slice()) || tag_is(
                    tag,
                    kc.as_slice(),
                ) {
                    self.link(tag);
                }
            },
            XmlEvent::Empty(tag) => {
                if tag_is(tag, kfam.as_slice()) {
                    let h = read_handle_or_empty(tag);
                    let ghost before = self@.families;
                    let f = new_family_record(h);
                    self.families.push(f);
                    assert(self@.families =~= before.push(f@));
                } else if tag_is(tag, kf.as_slice()) || tag_is(tag, km.as_slice()) || tag_is(
                    tag,
                    kc.as_slice(),
                ) {
                    self.link(tag);
                }
            },
            XmlEvent::End(name) => {
                if name_is(name, kfam.as_slice()) {
                    let cur = self.current.take();
                    match cur {
                        Some(f) => {
                            let ghost before = self@.families;
                            self.families.push(f);
                            assert(self@.families =~= before.push(f@));
                        },
                        None => {},
                    }
                }
            },
            _ => {},
        }
    }

    /// The families completed so far.
    pub fn finish(self) -> (r: Vec<ParsedFamily>)
        ensures
            results_view(r@) == self@.families,
    {
        self.families
    }
}

/// Extract all families of a Gramps XML document: for every `<family>`
/// element its handle, its father and mother (`hlink` of `<father>` and
/// `<mother>`) and its children (`hlink` of each `<childref>`), in document
/// order. Dangling references are kept as they are.
pub fn extract_families(content: &str) -> (r: Result<Vec<ParsedFamily>, Error>)
    ensures
        match scan_families(
            content@,
            Seq::empty(),
            FamilyScanView { families: Seq::empty(), current: None },
            content.len() as nat,
        ) {
            Ok(fs) => r matches Ok(v) && results_view(v@) == fs,
            Err(m) => r matches Err(Error::XmlParseError { message }) && message@ == m,
        },
{
    let mut cursor = XmlCursor::new(content);
    let mut scan = FamilyScan::new();
    let mut fuel: usize = content.len();
    loop
        invariant
            cursor.input() == content@,
            scan_families(
                content@,
                Seq::empty(),
                FamilyScanView { families: Seq::empty(), current: None },
                content.len() as nat,
            ) == scan_families(content@, cursor.calls(), scan@, fuel as nat),
        decreases fuel,
    {
        match cursor.next_event() {
            Err(m) => {
                return Err(Error::XmlParseError { message: m });
            },
            Ok(XmlEvent::Eof) => {
                return Ok(scan.finish());
            },
            Ok(ev) => {
                if fuel == 0 {
                    return Err(unended_error());
                }
                fuel = fuel - 1;
                scan.step(&ev);
            },
        }
    }
}

// ---------------------------------------------------------------------------
// Events
// ---------------------------------------------------------------------------

/// An event with the given handle and no details.
pub open spec fn new_event(handle: Seq<char>) -> ParsedEventView {
    ParsedEventView { handle, event_type: None, date_val: None, date_year: None }
}

/// Abstract state of an event scan: the events completed so far, the
/// event being read, and whether the reader is inside its `<eventtype>`.
pub struct EventScanView {
    pub events: Seq<ParsedEventView>,
    pub current: Option<ParsedEventView>,
    pub in_eventtype: bool,
}

/// Whether the scan reads the text of the element that `ev` opens: a
/// `<type>` inside an `<eventtype>`.
pub open spec fn event_wants_text(s: EventScanView, ev: XmlEventView) -> bool {
    match ev {
        XmlEventView::Start(tag) => local_name(tag.0) == spec_kw_type() && s.in_eventtype,
        _ => false,
    }
}

/// One step of an event scan. `text` is what reading the text of a `<type>`
/// element returned, when `event_wants_text` holds; it is not used
/// otherwise.
pub open spec fn event_step(s: EventScanView, ev: XmlEventView, text: Option<Seq<char>>) -> EventScanView {
    match ev {
        XmlEventView::Start(tag) => {
            let n = local_name(tag.0);
            if n == spec_kw_event() {
                EventScanView { current: Some(new_event(handle_or_empty(tag))), ..s }
            } else if n == spec_kw_eventtype() && s.current is Some {
                EventScanView { in_eventtype: true, ..s }
            } else if n == spec_kw_type() && s.in_eventtype {
                match (text, s.current) {
                    (Some(t), Some(e)) => if trimmed(t).len() > 0 {
                        EventScanView {
                            current: Some(ParsedEventView { event_type: Some(trimmed(t)), ..e }),
                            ..s
                        }
                    } else {
                        s
                    },
                    _ => s,
                }
            } else {
                s
            }
        },
        XmlEventView::Empty(tag) => {
            let n = local_name(tag.0);
            if n == spec_kw_event() {
                EventScanView { events: s.events.push(new_event(handle_or_empty(tag))), ..s }
            } else if n == spec_kw_dateval() && s.current is Some {
                EventScanView {
                    current: Some(
                        ParsedEventView {
                            date_val: date_val_of(tag),
                            date_year: date_year_of(tag),
                            ..s.current.unwrap()
                        },
                    ),
                    ..s
                }
            } else {
                s
            }
        },
        XmlEventView::End(name) => {
            let n = local_name(name);
            if n == spec_kw_event() {
                match s.current {
                    Some(e) => EventScanView { events: s.events.push(e), current: None, ..s },
                    None => s,
                }
            } else if n == spec_kw_eventtype() {
                EventScanView { in_eventtype: false, ..s }
            } else {
                s
            }
        },
        _ => s,
    }
}

/// The events read from a document: the event scan run over what the
/// reader returns for `input` after the calls `calls`, from state `s`,
/// reading the text of each `<type>` inside an `<eventtype>`. At most
/// `fuel` events other than the end are taken.
pub open spec fn scan_events(
    input: Seq<char>,
    calls: Seq<XmlCall>,
    s: EventScanView,
    fuel: nat,
) -> Result<Seq<ParsedEventView>, Seq<char>>
    decreases fuel,
{
    match xml_next_event(input, calls) {
        Err(m) => Err(m),
        Ok(XmlEventView::Eof) => Ok(s.events),
        Ok(ev) => if fuel == 0 {
            Err(unended_message())
        } else {
            let after = calls.push(XmlCall::NextEvent);
            if event_wants_text(s, ev) {
                let name = ev->Start_0.0;
                scan_events(
                    input,
                    after.push(XmlCall::ReadText(name)),
                    event_step(s, ev, xml_read_text(input, after, name)),
                    (fuel - 1) as nat,
                )
            } else {
                scan_events(input, after, event_step(s, ev, None), (fuel - 1) as nat)
            }
        },
    }
}

/// The state of an event scan.
pub struct EventScan {
    events: Vec<ParsedEvent>,
    current: Option<ParsedEvent>,
    in_eventtype: bool,
}

impl View for EventScan {
    type V = EventScanView;

    closed spec fn view(&self) -> EventScanView {
        EventScanView {
            events: results_view(self.events@),
            current: match self.current {
                Some(e) => Some(e@),
                None => None,
            },
            in_eventtype: self.in_eventtype,
        }
    }
}

fn new_event_record(handle: String) -> (e: ParsedEvent)
    ensures
        e@ == new_event(handle@),
{
    ParsedEvent { handle, event_type: None, date_val: None, date_year: None }
}

impl EventScan {
    /// A scan with no events read.
    pub fn new() -> (s: Self)
        ensures
            s@ == (EventScanView { events: Seq::empty(), current: None, in_eventtype: false }),
    {
        let s = EventScan { events: Vec::new(), current: None, in_eventtype: false };
        assert(s@.events =~= Seq::<ParsedEventView>::empty());
        s
    }

    /// Whether the scan reads the text of the element that `ev` opens.
    pub fn wants_text(&self, ev: &XmlEvent) -> (b: bool)
        ensures
            b == event_wants_text(self@, ev@),
    {
        match ev {
            XmlEvent::Start(tag) => {
                let kt = kw_type();
                tag_is(tag, kt.as_slice()) && self.in_eventtype
            },
            _ => false,
        }
    }

    /// Fold one event into the scan, with the text read for it (see
    /// `event_step`).
    pub fn step(&mut self, ev: &XmlEvent, text: Option<String>)
        ensures
            final(self)@ == event_step(old(self)@, ev@, opt_text(text)),
    {
        let kev = kw_event();
        let ket = kw_eventtype();
        let kt = kw_type();
        let kd = kw_dateval();
        match ev {
            XmlEvent::Start(tag) => {
                if tag_is(tag, kev.as_slice()) {
                    let h = read_handle_or_empty(tag);
                    self.current = Some(new_event_record(h));
                } else if tag_is(tag, ket.as_slice()) && self.current.is_some() {
                    self.in_eventtype = true;
                } else if tag_is(tag, kt.as_slice()) && self.in_eventtype {
                    match text {
                        Some(t) => {
                            let tt = trim(t.as_str());
                            if !tt.as_str().is_empty() {
                                let cur = self.current.take();
                                match cur {
                                    Some(mut e) => {
                                        e.event_type = Some(tt);
                                        self.current = Some(e);
                                    },
                                    None => {},
                                }
                            }
                        },
                        None => {},
                    }
                }
            },
            XmlEvent::Empty(tag) => {
                if tag_is(tag, kev.as_slice()) {
                    let h = read_handle_or_empty(tag);
                    let ghost before = self@.events;
                    let e = new_event_record(h);
                    self.events.push(e);
                    assert(self@.events =~= before.push(e@));
                } else if tag_is(tag, kd.as_slice()) && self.current.is_some() {
                    let (display, year) = read_date(tag);
                    let cur = self.current.take();
                    match cur {
                        Some(mut e) => {
                            e.date_val = display;
                            e.date_year = year;
                            self.current = Some(e);
                        },
                        None => {},
                    }
                }
            },
            XmlEvent::End(name) => {
                if name_is(name, kev.as_slice()) {
                    let cur = self.current.take();
                    match cur {
                        Some(e) => {
                            let ghost before = self@.events;
                            self.events.push(e);
                            assert(self@.events =~= before.push(e@));
                        },
                        None => {},
                    }
                } else if name_is(name, ket.as_slice()) {
                    self.in_eventtype = false;
                }
            },
            _ => {},
        }
    }

    /// The events completed so far.
    pub fn finish(self) -> (r: Vec<ParsedEvent>)
        ensures
            results_view(r@) == self@.events,
    {
        self.events
    }
}

/// Extract all events of a Gramps XML document: for every `<event>` element
/// its handle, the trimmed text of its `<eventtype><type>`, and the `val` of
/// its `<dateval/>` with the year parsed from it, in document order.
pub fn extract_events(content: &str) -> (r: Result<Vec<ParsedEvent>, Error>)
    ensures
        match scan_events(
            content@,
            Seq::empty(),
            EventScanView { events: Seq::empty(), current: None, in_eventtype: false },
            content.len() as nat,
        ) {
            Ok(es) => r matches Ok(v) && results_view(v@) == es,
            Err(m) => r matches Err(Error::XmlParseError { message }) && message@ == m,
        },
{
    let mut cursor = XmlCursor::new(content);
    let mut scan = EventScan::new();
    let mut fuel: usize = content.len();
    loop
        invariant
            cursor.input() == content@,
            scan_events(
                content@,
                Seq::empty(),
                EventScanView { events: Seq::empty(), current: None, in_eventtype: false },
                content.len() as nat,
            ) == scan_events(content@, cursor.calls(), scan@, fuel as nat),
        decreases fuel,
    {
        match cursor.next_event() {
            Err(m) => {
                return Err(Error::XmlParseError { message: m });
            },
            Ok(XmlEvent::Eof) => {
                return Ok(scan.finish());
            },
            Ok(ev) => {
                if fuel == 0 {
                    return Err(unended_error());
                }
                fuel = fuel - 1;
                if scan.wants_text(&ev) {
                    let text = match &ev {
                        XmlEvent::Start(tag) => cursor.read_text(tag.name.as_slice()),
                        _ => None,
                    };
                    scan.step(&ev, text);
                } else {
                    scan.step(&ev, None);
                }
            },
        }
    }
}

// ---------------------------------------------------------------------------
// Persons
// ---------------------------------------------------------------------------

/// A person with the given handle and no details.
pub open spec fn new_person(handle: Seq<char>) -> ParsedPersonView {
    ParsedPersonView {
        handle,
        given_name: None,
        surname: None,
        birth_date: None,
        death_date: None,
        birth_year: None,
        gender: None,
        event_refs: Seq::empty(),
    }
}

/// Abstract state of a person scan: the persons completed so far, the
/// person being read, which of its elements the reader is inside, and the
/// given name and surname read in the current `<name>`.
pub struct PersonScanView {
    pub persons: Seq<ParsedPersonView>,
    pub current: Option<ParsedPersonView>,
    pub in_birth: bool,
    pub in_death: bool,
    pub in_name: bool,
    pub in_gender: bool,
    pub given: Seq<char>,
    pub surname: Seq<char>,
}

/// The person scan's initial state.
pub open spec fn person_scan_start() -> PersonScanView {
    PersonScanView {
        persons: Seq::empty(),
        current: None,
        in_birth: false,
        in_death: false,
        in_name: false,
        in_gender: false,
        given: Seq::empty(),
        surname: Seq::empty(),
    }
}

/// Whether the scan reads the text of the element that `ev` opens: a
/// `<first>` or `<surname>` inside a `<name>`.
pub open spec fn person_wants_text(s: PersonScanView, ev: XmlEventView) -> bool {
    match ev {
        XmlEventView::Start(tag) => (local_name(tag.0) == spec_kw_first() || local_name(tag.0)
            == spec_kw_surname()) && s.in_name,
        _ => false,
    }
}

/// The text of a text event, unescaped: `None` when its bytes are not
/// UTF-8 or a reference in it is malformed.
pub open spec fn unescaped_text(raw: Seq<u8>) -> Option<Seq<char>> {
    if vstd::utf8::valid_utf8(raw) {
        xml_unescaped(vstd::utf8::decode_utf8(raw))
    } else {
        None
    }
}

/// The text that goes with an event that the scan does not read text for:
/// for a text event, its unescaped text.
pub open spec fn event_text(ev: XmlEventView) -> Option<Seq<char>> {
    match ev {
        XmlEventView::Text(raw) => unescaped_text(raw),
        _ => None,
    }
}

/// The person being read after a `<dateval>` tag inside `<birth>` or
/// `<death>`: the birth date and year, or the death date.
pub open spec fn person_date(s: PersonScanView, tag: XmlTagView) -> Option<ParsedPersonView> {
    match s.current {
        Some(p) => if s.in_birth {
            Some(ParsedPersonView { birth_date: date_val_of(tag), birth_year: date_year_of(tag), ..p })
        } else {
            Some(ParsedPersonView { death_date: date_val_of(tag), ..p })
        },
        None => None,
    }
}

/// The person being read after an `<eventref>` tag: its `hlink` becomes
/// one more event reference.
pub open spec fn person_eventref(cur: Option<ParsedPersonView>, tag: XmlTagView) -> Option<ParsedPersonView> {
    match cur {
        Some(p) => match attr_text(tag, spec_kw_hlink()) {
            Some(h) => Some(ParsedPersonView { event_refs: p.event_refs.push(h), ..p }),
            None => Some(p),
        },
        None => None,
    }
}

/// One step of a person scan. `text` is, for a `<first>` or `<surname>`
/// inside a `<name>`, what reading its text returned; for a text event, its
/// unescaped text (`event_text`).
pub open spec fn person_step(s: PersonScanView, ev: XmlEventView, text: Option<Seq<char>>) -> PersonScanView {
    match ev {
        XmlEventView::Start(tag) => {
            let n = local_name(tag.0);
            if n == spec_kw_person() {
                PersonScanView { current: Some(new_person(handle_or_empty(tag))), ..s }
            } else if n == spec_kw_birth() && s.current is Some {
                PersonScanView { in_birth: true, ..s }
            } else if n == spec_kw_death() && s.current is Some {
                PersonScanView { in_death: true, ..s }
            } else if n == spec_kw_name() && s.current is Some {
                PersonScanView { in_name: true, given: Seq::empty(), surname: Seq::empty(), ..s }
            } else if n == spec_kw_first() && s.in_name {
                match text {
                    Some(t) => PersonScanView { given: trimmed(t), ..s },
                    None => s,
                }
            } else if n == spec_kw_surname() && s.in_name {
                match text {
                    Some(t) => PersonScanView { surname: trimmed(t), ..s },
                    None => s,
                }
            } else if n == spec_kw_dateval() && (s.in_birth || s.in_death) {
                PersonScanView { current: person_date(s, tag), ..s }
            } else if n == spec_kw_gender() && s.current is Some {
                PersonScanView { in_gender: true, ..s }
            } else if n == spec_kw_eventref() {
                PersonScanView { current: person_eventref(s.current, tag), ..s }
            } else {
                s
            }
        },
        XmlEventView::Empty(tag) => {
            let n = local_name(tag.0);
            if n == spec_kw_person() {
                PersonScanView { persons: s.persons.push(new_person(handle_or_empty(tag))), ..s }
            } else if n == spec_kw_dateval() && (s.in_birth || s.in_death) {
                PersonScanView { current: person_date(s, tag), ..s }
            } else if n == spec_kw_eventref() {
                PersonScanView { current: person_eventref(s.current, tag), ..s }
            } else {
                s
            }
        },
        XmlEventView::Text(_) => match (text, s.current) {
            (Some(t), Some(p)) => if trimmed(t).len() > 0 && s.in_gender {
                PersonScanView { current: Some(ParsedPersonView { gender: Some(trimmed(t)), ..p }), ..s }
            } else {
                s
            },
            _ => s,
        },
        XmlEventView::End(name) => {
            let n = local_name(name);
            if n == spec_kw_person() {
                match s.current {
                    Some(p) => PersonScanView { persons: s.persons.push(p), current: None, ..s },
                    None => s,
                }
            } else if n == spec_kw_birth() {
                PersonScanView { in_birth: false, ..s }
            } else if n == spec_kw_death() {
                PersonScanView { in_death: false, ..s }
            } else if n == spec_kw_name() {
                if s.in_name {
                    PersonScanView {
                        current: match s.current {
                            Some(p) => Some(
                                ParsedPersonView {
                                    given_name: if s.given.len() > 0 {
                                        Some(s.given)
                                    } else {
                                        p.given_name
                                    },
                                    surname: if s.surname.len() > 0 {
                                        Some(s.surname)
                                    } else {
                                        p.surname
                                    },
                                    ..p
                                },
                            ),
                            None => None,
                        },
                        in_name: false,
                        ..s
                    }
                } else {
                    s
                }
            } else if n == spec_kw_gender() {
                PersonScanView { in_gender: false, ..s }
            } else {
                s
            }
        },
        _ => s,
    }
}

/// The persons read from a document: the person scan run over what the
/// reader returns for `input` after the calls `calls`, from state `s`,
/// reading the text of each `<first>` and `<surname>` inside a `<name>`.
/// At most `fuel` events other than the end are taken.
pub open spec fn scan_persons(
    input: Seq<char>,
    calls: Seq<XmlCall>,
    s: PersonScanView,
    fuel: nat,
) -> Result<Seq<ParsedPersonView>, Seq<char>>
    decreases fuel,
{
    match xml_next_event(input, calls) {
        Err(m) => Err(m),
        Ok(XmlEventView::Eof) => Ok(s.persons),
        Ok(ev) => if fuel == 0 {
            Err(unended_message())
        } else {
            let after = calls.push(XmlCall::NextEvent);
            if person_wants_text(s, ev) {
                let name = ev->Start_0.0;
                scan_persons(
                    input,
                    after.push(XmlCall::ReadText(name)),
                    person_step(s, ev, xml_read_text(input, after, name)),
                    (fuel - 1) as nat,
                )
            } else {
                scan_persons(input, after, person_step(s, ev, event_text(ev)), (fuel - 1) as nat)
            }
        },
    }
}

/// The state of a person scan.
pub struct PersonScan {
    persons: Vec<ParsedPerson>,
    current: Option<ParsedPerson>,
    in_birth: bool,
    in_death: bool,
    in_name: bool,
    in_gender: bool,
    given: String,
    surname: String,
}

impl View for PersonScan {
    type V = PersonScanView;

    closed spec fn view(&self) -> PersonScanView {
        PersonScanView {
            persons: results_view(self.persons@),
            current: match self.current {
                Some(p) => Some(p@),
                None => None,
            },
            in_birth: self.in_birth,
            in_death: self.in_death,
            in_name: self.in_name,
            in_gender: self.in_gender,
            given: self.given@,
            surname: self.surname@,
        }
    }
}

fn new_person_record(handle: String) -> (p: ParsedPerson)
    ensures
        p@ == new_person(handle@),
{
    let p = ParsedPerson {
        handle,
        given_name: None,
        surname: None,
        birth_date: None,
        death_date: None,
        birth_year: None,
        gender: None,
        event_refs: Vec::new(),
    };
    assert(p@.event_refs =~= Seq::<Seq<char>>::empty());
    p
}

/// Unescape the raw bytes of a text event.
pub fn unescape_text(raw: &[u8]) -> (r: Option<String>)
    ensures
        opt_text(r) == unescaped_text(raw@),
{
    match utf8_decode(raw) {
        Some(d) => xml_unescape(d.as_str()),
        None => None,
    }
}

impl PersonScan {
    /// A scan with no persons read.
    pub fn new() -> (s: Self)
        ensures
            s@ == person_scan_start(),
    {
        let s = PersonScan {
            persons: Vec::new(),
            current: None,
            in_birth: false,
            in_death: false,
            in_name: false,
            in_gender: false,
            given: String::new(),
            surname: String::new(),
        };
        assert(s@.persons =~= Seq::<ParsedPersonView>::empty());
        s
    }

    /// Whether the scan reads the text of the element that `ev` opens.
    pub fn wants_text(&self, ev: &XmlEvent) -> (b: bool)
        ensures
            b == person_wants_text(self@, ev@),
    {
        match ev {
            XmlEvent::Start(tag) => {
                let kf = kw_first();
                let ks = kw_surname();
                (tag_is(tag, kf.as_slice()) || tag_is(tag, ks.as_slice())) && self.in_name
            },
            _ => false,
        }
    }

    fn date(&mut self, tag: &XmlTag)
        ensures
            final(self)@ == (PersonScanView { current: person_date(old(self)@, tag@), ..old(self)@ }),
    {
        let (display, year) = read_date(tag);
        let cur = self.current.take();
        match cur {
            Some(mut p) => {
                if self.in_birth {
                    p.birth_date = display;
                    p.birth_year = year;
                } else {
                    p.death_date = display;
                }
                self.current = Some(p);
            },
            None => {},
        }
    }

    fn eventref(&mut self, tag: &XmlTag)
        ensures
            final(self)@ == (PersonScanView { current: person_eventref(old(self)@.current, tag@), ..old(self)@ }),
    {
        let cur = self.current.take();
        match cur {
            Some(mut p) => {
                match read_hlink_attr(tag) {
                    Some(h) => {
                        let ghost before = p@.event_refs;
                        p.event_refs.push(h);
                        assert(p@.event_refs =~= before.push(h@));
                    },
                    None => {},
                }
                self.current = Some(p);
            },
            None => {},
        }
    }

    fn start(&mut self, tag: &XmlTag, text: Option<String>)
        ensures
            final(self)@ == person_step(old(self)@, XmlEventView::Start(tag@), opt_text(text)),
    {
        let kp = kw_person();
        let kb = kw_birth();
        let kd = kw_death();
        let kn = kw_name();
        let kf = kw_first();
        let ks = kw_surname();
        let kdv = kw_dateval();
        let kg = kw_gender();
        let ke = kw_eventref();
        if tag_is(tag, kp.as_slice()) {
            let h = read_handle_or_empty(tag);
            self.current = Some(new_person_record(h));
        } else if tag_is(tag, kb.as_slice()) && self.current.is_some() {
            self.in_birth = true;
        } else if tag_is(tag, kd.as_slice()) && self.current.is_some() {
            self.in_death = true;
        } else if tag_is(tag, kn.as_slice()) && self.current.is_some() {
            self.in_name = true;
            self.given = String::new();
            self.surname = String::new();
        } else if tag_is(tag, kf.as_slice()) && self.in_name {
            match text {
                Some(t) => {
                    self.given = trim(t.as_str());
                },
                None => {},
            }
        } else if tag_is(tag, ks.as_slice()) && self.in_name {
            match text {
                Some(t) => {
                    self.surname = trim(t.as_str());
                },
                None => {},
            }
        } else if tag_is(tag, kdv.as_slice()) && (self.in_birth || self.in_death) {
            self.date(tag);
        } else if tag_is(tag, kg.as_slice()) && self.current.is_some() {
            self.in_gender = true;
        } else if tag_is(tag, ke.as_slice()) {
            self.eventref(tag);
        }
    }

    fn end(&mut self, name: &Vec<u8>)
        ensures
            final(self)@ == person_step(old(self)@, XmlEventView::End(name@), None),
    {
        let kp = kw_person();
        let kb = kw_birth();
        let kd = kw_death();
        let kn = kw_name();
        let kg = kw_gender();
        if name_is(name, kp.as_slice()) {
            let cur = self.current.take();
            match cur {
                Some(p) => {
                    let ghost before = self@.persons;
                    self.persons.push(p);
                    assert(self@.persons =~= before.push(p@));
                },
                None => {},
            }
        } else if name_is(name, kb.as_slice()) {
            self.in_birth = false;
        } else if name_is(name, kd.as_slice()) {
            self.in_death = false;
        } else if name_is(name, kn.as_slice()) {
            if self.in_name {
                let cur = self.current.take();
                match cur {
                    Some(mut p) => {
                        if !self.given.as_str().is_empty() {
                            p.given_name = Some(self.given.clone());
                        }
                        if !self.surname.as_str().is_empty() {
                            p.surname = Some(self.surname.clone());
                        }
                        self.current = Some(p);
                    },
                    None => {},
                }
                self.in_name = false;
            }
        } else if name_is(name, kg.as_slice()) {
            self.in_gender = false;
        }
    }

    /// Fold one event into the scan, with the text that goes with it (see
    /// `person_step`).
    pub fn step(&mut self, ev: &XmlEvent, text: Option<String>)
        ensures
            final(self)@ == person_step(old(self)@, ev@, opt_text(text)),
    {
        let kp = kw_person();
        let kdv = kw_dateval();
        let ke = kw_eventref();
        match ev {
            XmlEvent::Start(tag) => {
                self.start(tag, text);
            },
            XmlEvent::Empty(tag) => {
                if tag_is(tag, kp.as_slice()) {
                    let h = read_handle_or_empty(tag);
                    let ghost before = self@.persons;
                    let p = new_person_record(h);
                    self.persons.push(p);
                    assert(self@.persons =~= before.push(p@));
                } else if tag_is(tag, kdv.as_slice()) && (self.in_birth || self.in_death) {
                    self.date(tag);
                } else if tag_is(tag, ke.as_slice()) {
                    self.eventref(tag);
                }
            },
            XmlEvent::Text(_) => {
                match text {
                    Some(t) => {
                        let tt = trim(t.as_str());
                        if !tt.as_str().is_empty() && self.in_gender {
                            let cur = self.current.take();
                            match cur {
                                Some(mut p) => {
                                    p.gender = Some(tt);
                                    self.current = Some(p);
                                },
                                None => {},
                            }
                        }
                    },
                    None => {},
                }
            },
            XmlEvent::End(name) => {
                self.end(name);
            },
            _ => {},
        }
    }

    /// The persons completed so far.
    pub fn finish(self) -> (r: Vec<ParsedPerson>)
        ensures
            results_view(r@) == self@.persons,
    {
        self.persons
    }
}

/// Extract all persons of a Gramps XML document: for every `<person>`
/// element its handle, given name and surname (trimmed text of `<first>`
/// and `<surname>` in its `<name>`), the `val` of the `<dateval>` in its
/// `<birth>` (with the year parsed from it) and in its `<death>`, the
/// trimmed text of its `<gender>`, and the `hlink` of each of its
/// `<eventref>` elements, in document order.
pub fn extract_persons(content: &str) -> (r: Result<Vec<ParsedPerson>, Error>)
    ensures
        match scan_persons(content@, Seq::empty(), person_scan_start(), content.len() as nat) {
            Ok(ps) => r matches Ok(v) && results_view(v@) == ps,
            Err(m) => r matches Err(Error::XmlParseError { message }) && message@ == m,
        },
{
    let mut cursor = XmlCursor::new(content);
    let mut scan = PersonScan::new();
    let mut fuel: usize = content.len();
    loop
        invariant
            cursor.input() == content@,
            scan_persons(content@, Seq::empty(), person_scan_start(), content.len() as nat)
                == scan_persons(content@, cursor.calls(), scan@, fuel as nat),
        decreases fuel,
    {
        match cursor.next_event() {
            Err(m) => {
                return Err(Error::XmlParseError { message: m });
            },
            Ok(XmlEvent::Eof) => {
                return Ok(scan.finish());
            },
            Ok(ev) => {
                if fuel == 0 {
                    return Err(unended_error());
                }
                fuel = fuel - 1;
                if scan.wants_text(&ev) {
                    let text = match &ev {
                        XmlEvent::Start(tag) => cursor.read_text(tag.name.as_slice()),
                        _ => None,
                    };
                    scan.step(&ev, text);
                } else {
                    let text = match &ev {
                        XmlEvent::Text(raw) => unescape_text(raw.as_slice()),
                        _ => None,
                    };
                    scan.step(&ev, text);
                }
            },
        }
    }
}


// ---------------------------------------------------------------------------
// Laws
// ---------------------------------------------------------------------------

/// `b` extends `a` by at most one record.
pub open spec fn appends_at_most_one<T>(a: Seq<T>, b: Seq<T>) -> bool {
    b == a || (b.len() == a.len() + 1 && b.drop_last() == a)
}

/// `a` is a prefix of `b`.
pub open spec fn is_prefix<T>(a: Seq<T>, b: Seq<T>) -> bool {
    a.len() <= b.len() && b.subrange(0, a.len() as int) == a
}

/// Completed records are never changed: each step of a scan keeps the
/// records completed so far and appends at most one.
pub proof fn lemma_steps_append(
    fs: FamilyScanView,
    es: EventScanView,
    ps: PersonScanView,
    ev: XmlEventView,
    text: Option<Seq<char>>,
)
    ensures
        appends_at_most_one(fs.families, family_step(fs, ev).families),
        appends_at_most_one(es.events, event_step(es, ev, text).events),
        appends_at_most_one(ps.persons, person_step(ps, ev, text).persons),
{
    assert(fs.families.push(new_family(Seq::empty())).drop_last() =~= fs.families);
    match ev {
        XmlEventView::Empty(tag) => {
            assert(fs.families.push(new_family(handle_or_empty(tag))).drop_last() =~= fs.families);
            assert(es.events.push(new_event(handle_or_empty(tag))).drop_last() =~= es.events);
            assert(ps.persons.push(new_person(handle_or_empty(tag))).drop_last() =~= ps.persons);
        },
        XmlEventView::End(_) => {
            if fs.current is Some {
                assert(fs.families.push(fs.current->Some_0).drop_last() =~= fs.families);
            }
            if es.current is Some {
                assert(es.events.push(es.current->Some_0).drop_last() =~= es.events);
            }
            if ps.current is Some {
                assert(ps.persons.push(ps.current->Some_0).drop_last() =~= ps.persons);
            }
        },
        _ => {},
    }
}

proof fn lemma_prefix_trans<T>(a: Seq<T>, b: Seq<T>, c: Seq<T>)
    requires
        appends_at_most_one(a, b),
        is_prefix(b, c),
    ensures
        is_prefix(a, c),
{
    if b != a {
        assert(c.subrange(0, a.len() as int) =~= c.subrange(0, b.len() as int).subrange(0, a.len() as int));
        assert(b.subrange(0, a.len() as int) =~= b.drop_last());
    }
}

/// Extraction streams: the records completed before any point of a scan
/// come first, in the same order, among the records the scan returns.
pub proof fn lemma_scans_keep_completed(
    input: Seq<char>,
    calls: Seq<XmlCall>,
    fs: FamilyScanView,
    es: EventScanView,
    ps: PersonScanView,
    fuel: nat,
)
    ensures
        scan_families(input, calls, fs, fuel) matches Ok(r) ==> is_prefix(fs.families, r),
        scan_events(input, calls, es, fuel) matches Ok(r) ==> is_prefix(es.events, r),
        scan_persons(input, calls, ps, fuel) matches Ok(r) ==> is_prefix(ps.persons, r),
    decreases fuel,
{
    assert(fs.families.subrange(0, fs.families.len() as int) =~= fs.families);
    assert(es.events.subrange(0, es.events.len() as int) =~= es.events);
    assert(ps.persons.subrange(0, ps.persons.len() as int) =~= ps.persons);
    match xml_next_event(input, calls) {
        Ok(ev) => {
            if ev !is Eof && fuel > 0 {
                let after = calls.push(XmlCall::NextEvent);
                let f2 = family_step(fs, ev);
                lemma_steps_append(fs, es, ps, ev, None);
                let (ecalls, etext) = if event_wants_text(es, ev) {
                    (after.push(XmlCall::ReadText(ev->Start_0.0)), xml_read_text(input, after, ev->Start_0.0))
                } else {
                    (after, None)
                };
                let (pcalls, ptext) = if person_wants_text(ps, ev) {
                    (after.push(XmlCall::ReadText(ev->Start_0.0)), xml_read_text(input, after, ev->Start_0.0))
                } else {
                    (after, event_text(ev))
                };
                let e2 = event_step(es, ev, etext);
                let p2 = person_step(ps, ev, ptext);
                lemma_steps_append(fs, es, ps, ev, etext);
                lemma_steps_append(fs, es, ps, ev, ptext);
                lemma_scans_keep_completed(input, after, f2, e2, p2, (fuel - 1) as nat);
                lemma_scans_keep_completed(input, ecalls, f2, e2, p2, (fuel - 1) as nat);
                lemma_scans_keep_completed(input, pcalls, f2, e2, p2, (fuel - 1) as nat);
                if scan_families(input, calls, fs, fuel) is Ok {
                    lemma_prefix_trans(fs.families, f2.families, scan_families(input, calls, fs, fuel)->Ok_0);
                }
                if scan_events(input, calls, es, fuel) is Ok {
                    lemma_prefix_trans(es.events, e2.events, scan_events(input, calls, es, fuel)->Ok_0);
                }
                if scan_persons(input, calls, ps, fuel) is Ok {
                    lemma_prefix_trans(ps.persons, p2.persons, scan_persons(input, calls, ps, fuel)->Ok_0);
                }
            }
        },
        Err(_) => {},
    }
}

} // verus!
