//! Reading a whole Gramps XML document into plain records: one node record
//! for each primary object of the ten kinds, and one edge record for each
//! reference (`hlink`) from an object to another.
//!
//! The document is read once, event by event; each event is folded into a
//! scan state by `GraphScan::step`, whose contract is the spec function
//! `graph_step`. `parse_gramps_records` runs that fold over what the XML
//! reader returns for the document.

use vstd::prelude::*;
use crate::dates::{dateval_of, opt_date, parse_dateval, DateModel, DateRecord};
use crate::error::Error;
use crate::header::{
    detect_schema_version, scan_header, schema_outcome, schema_prefix, supported_schema, HeaderScanView,
};
use crate::extract::{handle_or_empty, unended_error, unended_message};
use crate::graph_names::{
    kw_abbrev, kw_author, kw_checksum, kw_citation, kw_citationref, kw_citations, kw_city, kw_code, kw_color, kw_country, kw_county, kw_database, kw_desc, kw_description, kw_events, kw_families, kw_id, kw_lat, kw_locality, kw_long, kw_media, kw_mediaref, kw_mime, kw_note, kw_noteref, kw_notes, kw_object, kw_objects, kw_page, kw_path, kw_people, kw_personref, kw_phone, kw_place, kw_placeref, kw_places, kw_postal, kw_pubinfo, kw_reporef, kw_repositories, kw_repository, kw_rname, kw_source, kw_sourceref, kw_sources, kw_state, kw_street, kw_tag, kw_tagref, kw_tags, kw_text, kw_title, kw_xmlns, spec_kw_abbrev, spec_kw_author, spec_kw_checksum, spec_kw_citation, spec_kw_citationref, spec_kw_citations, spec_kw_city, spec_kw_code, spec_kw_color, spec_kw_country, spec_kw_county, spec_kw_database, spec_kw_desc, spec_kw_description, spec_kw_events, spec_kw_families, spec_kw_id, spec_kw_lat, spec_kw_locality, spec_kw_long, spec_kw_media, spec_kw_mediaref, spec_kw_mime, spec_kw_note, spec_kw_noteref, spec_kw_notes, spec_kw_object, spec_kw_objects, spec_kw_page, spec_kw_path, spec_kw_people, spec_kw_personref, spec_kw_phone, spec_kw_place, spec_kw_placeref, spec_kw_places, spec_kw_postal, spec_kw_pubinfo, spec_kw_reporef, spec_kw_repositories, spec_kw_repository, spec_kw_rname, spec_kw_source, spec_kw_sourceref, spec_kw_sources, spec_kw_state, spec_kw_street, spec_kw_tag, spec_kw_tagref, spec_kw_tags, spec_kw_text, spec_kw_title, spec_kw_xmlns,
};
use crate::names::{
    kw_childref, kw_dateval, kw_event, kw_eventref, kw_eventtype, kw_family, kw_father, kw_first, kw_gender, kw_mother, kw_name, kw_person, kw_surname, kw_type, spec_kw_childref, spec_kw_dateval, spec_kw_event, spec_kw_eventref, spec_kw_eventtype, spec_kw_family, spec_kw_father, spec_kw_first, spec_kw_gender, spec_kw_hlink, spec_kw_mother, spec_kw_name, spec_kw_person, spec_kw_surname, spec_kw_type,
};
use crate::text::{parse_i32, parsed_i32, str_chars, strings_equal, trim, trimmed};
use crate::types::opt_text;
use crate::xml::{
    attr_text, bytes_eq, local_name, read_attr, read_handle_attr, read_hlink_attr, strip_prefix,
    utf8_lossy, lossy_utf8, XmlTag, XmlTagView,
};
use crate::xml_reader::{xml_next_event, xml_read_text, XmlCall, XmlCursor, XmlEvent, XmlEventView};

verus! {

/// The ten kinds of primary objects of a Gramps database.
#[derive(Debug, Clone, Copy, PartialEq, Eq, Structural)]
pub enum NodeKind {
    Person,
    Family,
    Event,
    Place,
    Source,
    Citation,
    Repository,
    Media,
    Note,
    Tag,
}

/// The kinds of references between objects, by the element that holds
/// the `hlink`.
#[derive(Debug, Clone, Copy, PartialEq, Eq, Structural)]
pub enum RefKind {
    EventRef,
    ChildRef,
    Father,
    Mother,
    PersonRef,
    RepoRef,
    PlaceRef,
    CitationRef,
    NoteRef,
    MediaRef,
    TagRef,
    SourceRef,
    EventPlace,
}

/// One primary object: its kind, handle, Gramps id, the trimmed text of
/// its text-valued child elements (element name, text) in document order,
/// and, for an event, its date.
#[derive(Debug, Clone)]
pub struct NodeRecord {
    pub kind: NodeKind,
    pub handle: String,
    pub gramps_id: Option<String>,
    pub fields: Vec<(Vec<u8>, String)>,
    pub date: Option<DateRecord>,
}

/// Abstract node record.
pub struct NodeView {
    pub kind: NodeKind,
    pub handle: Seq<char>,
    pub gramps_id: Option<Seq<char>>,
    pub fields: Seq<(Seq<u8>, Seq<char>)>,
    pub date: Option<DateModel>,
}

impl View for NodeRecord {
    type V = NodeView;

    open spec fn view(&self) -> NodeView {
        NodeView {
            kind: self.kind,
            handle: self.handle@,
            gramps_id: opt_text(self.gramps_id),
            fields: self.fields@.map_values(|f: (Vec<u8>, String)| (f.0@, f.1@)),
            date: opt_date(self.date),
        }
    }
}

/// One reference: its kind, the kind and handle of the object that holds
/// it, and the handle it points to.
#[derive(Debug, Clone)]
pub struct EdgeRecord {
    pub kind: RefKind,
    pub source_kind: NodeKind,
    pub source: String,
    pub target: String,
}

/// Abstract edge record.
pub struct EdgeView {
    pub kind: RefKind,
    pub source_kind: NodeKind,
    pub source: Seq<char>,
    pub target: Seq<char>,
}

impl View for EdgeRecord {
    type V = EdgeView;

    open spec fn view(&self) -> EdgeView {
        EdgeView {
            kind: self.kind,
            source_kind: self.source_kind,
            source: self.source@,
            target: self.target@,
        }
    }
}

/// What a document holds: the namespace of its root element, its objects
/// in the order in which they end, and its references in document order.
#[derive(Debug, Clone)]
pub struct GraphRecords {
    pub namespace: String,
    pub nodes: Vec<NodeRecord>,
    pub edges: Vec<EdgeRecord>,
}

/// Abstract document records.
pub struct GraphRecordsView {
    pub namespace: Seq<char>,
    pub nodes: Seq<NodeView>,
    pub edges: Seq<EdgeView>,
}

pub open spec fn nodes_view(v: Seq<NodeRecord>) -> Seq<NodeView> {
    v.map_values(|n: NodeRecord| n@)
}

pub open spec fn edges_view(v: Seq<EdgeRecord>) -> Seq<EdgeView> {
    v.map_values(|e: EdgeRecord| e@)
}

impl View for GraphRecords {
    type V = GraphRecordsView;

    open spec fn view(&self) -> GraphRecordsView {
        GraphRecordsView {
            namespace: self.namespace@,
            nodes: nodes_view(self.nodes@),
            edges: edges_view(self.edges@),
        }
    }
}

// ---------------------------------------------------------------------------
// The vocabulary
// ---------------------------------------------------------------------------

/// The kind of object that an element of this local name holds.
pub open spec fn node_kind_named(n: Seq<u8>) -> Option<NodeKind> {
    if n == spec_kw_person() {
        Some(NodeKind::Person)
    } else if n == spec_kw_family() {
        Some(NodeKind::Family)
    } else if n == spec_kw_event() {
        Some(NodeKind::Event)
    } else if n == spec_kw_place() {
        Some(NodeKind::Place)
    } else if n == spec_kw_source() {
        Some(NodeKind::Source)
    } else if n == spec_kw_citation() {
        Some(NodeKind::Citation)
    } else if n == spec_kw_repository() {
        Some(NodeKind::Repository)
    } else if n == spec_kw_object() {
        Some(NodeKind::Media)
    } else if n == spec_kw_note() {
        Some(NodeKind::Note)
    } else if n == spec_kw_tag() {
        Some(NodeKind::Tag)
    } else {
        None
    }
}

/// The kind of object that a section element of this local name lists.
pub open spec fn section_named(n: Seq<u8>) -> Option<NodeKind> {
    if n == spec_kw_people() {
        Some(NodeKind::Person)
    } else if n == spec_kw_families() {
        Some(NodeKind::Family)
    } else if n == spec_kw_events() {
        Some(NodeKind::Event)
    } else if n == spec_kw_places() {
        Some(NodeKind::Place)
    } else if n == spec_kw_sources() {
        Some(NodeKind::Source)
    } else if n == spec_kw_citations() {
        Some(NodeKind::Citation)
    } else if n == spec_kw_repositories() {
        Some(NodeKind::Repository)
    } else if n == spec_kw_objects() || n == spec_kw_media() {
        Some(NodeKind::Media)
    } else if n == spec_kw_notes() {
        Some(NodeKind::Note)
    } else if n == spec_kw_tags() {
        Some(NodeKind::Tag)
    } else {
        None
    }
}

/// The kind of reference that an element of this local name makes.
pub open spec fn ref_named(n: Seq<u8>) -> Option<RefKind> {
    if n == spec_kw_eventref() {
        Some(RefKind::EventRef)
    } else if n == spec_kw_childref() {
        Some(RefKind::ChildRef)
    } else if n == spec_kw_father() {
        Some(RefKind::Father)
    } else if n == spec_kw_mother() {
        Some(RefKind::Mother)
    } else if n == spec_kw_personref() {
        Some(RefKind::PersonRef)
    } else if n == spec_kw_reporef() {
        Some(RefKind::RepoRef)
    } else if n == spec_kw_placeref() {
        Some(RefKind::PlaceRef)
    } else if n == spec_kw_citationref() {
        Some(RefKind::CitationRef)
    } else if n == spec_kw_noteref() {
        Some(RefKind::NoteRef)
    } else if n == spec_kw_mediaref() {
        Some(RefKind::MediaRef)
    } else if n == spec_kw_tagref() {
        Some(RefKind::TagRef)
    } else if n == spec_kw_sourceref() {
        Some(RefKind::SourceRef)
    } else if n == spec_kw_place() {
        Some(RefKind::EventPlace)
    } else {
        None
    }
}

/// Which kinds of objects record which references.
pub open spec fn ref_allowed(r: RefKind, k: NodeKind) -> bool {
    match r {
        RefKind::EventRef => k == NodeKind::Person || k == NodeKind::Family,
        RefKind::ChildRef | RefKind::Father | RefKind::Mother => k == NodeKind::Family,
        RefKind::PersonRef => k == NodeKind::Person,
        RefKind::RepoRef => k == NodeKind::Source,
        RefKind::PlaceRef => k == NodeKind::Place,
        RefKind::CitationRef => k == NodeKind::Person || k == NodeKind::Family || k
            == NodeKind::Event || k == NodeKind::Place,
        RefKind::NoteRef => k != NodeKind::Note && k != NodeKind::Tag,
        RefKind::MediaRef => k == NodeKind::Person || k == NodeKind::Family || k
            == NodeKind::Event || k == NodeKind::Place || k == NodeKind::Source || k
            == NodeKind::Repository,
        RefKind::TagRef => true,
        RefKind::SourceRef => k == NodeKind::Citation,
        RefKind::EventPlace => k == NodeKind::Event,
    }
}

/// The text-valued child elements recorded for each kind of object. A
/// person's `<first>` and `<surname>` count inside its `<name>` only.
pub open spec fn field_allowed(k: NodeKind, n: Seq<u8>, in_name: bool) -> bool {
    match k {
        NodeKind::Person => ((n == spec_kw_first() || n == spec_kw_surname()) && in_name) || n
            == spec_kw_gender(),
        NodeKind::Family => false,
        NodeKind::Event => n == spec_kw_type() || n == spec_kw_description(),
        NodeKind::Place => n == spec_kw_code() || n == spec_kw_lat() || n == spec_kw_long() || n
            == spec_kw_street() || n == spec_kw_locality() || n == spec_kw_city() || n
            == spec_kw_county() || n == spec_kw_state() || n == spec_kw_country() || n
            == spec_kw_postal() || n == spec_kw_phone(),
        NodeKind::Source => n == spec_kw_title() || n == spec_kw_abbrev() || n == spec_kw_author()
            || n == spec_kw_pubinfo(),
        NodeKind::Citation => n == spec_kw_page(),
        NodeKind::Repository => n == spec_kw_rname(),
        NodeKind::Media => n == spec_kw_desc() || n == spec_kw_path() || n == spec_kw_mime() || n
            == spec_kw_checksum(),
        NodeKind::Note => n == spec_kw_text(),
        NodeKind::Tag => n == spec_kw_color(),
    }
}

// ---------------------------------------------------------------------------
// The fold
// ---------------------------------------------------------------------------

/// Abstract state of a document scan.
pub struct GraphScanView {
    pub namespace: Seq<char>,
    pub section: Option<NodeKind>,
    pub current: Option<NodeView>,
    pub in_eventtype: bool,
    pub in_name: bool,
    pub nodes: Seq<NodeView>,
    pub edges: Seq<EdgeView>,
}

/// The state before any event.
pub open spec fn graph_scan_start() -> GraphScanView {
    GraphScanView {
        namespace: Seq::empty(),
        section: None,
        current: None,
        in_eventtype: false,
        in_name: false,
        nodes: Seq::empty(),
        edges: Seq::empty(),
    }
}

/// The namespace after reading the root's attributes in order: each
/// attribute whose key is exactly `xmlns` replaces it.
pub open spec fn xmlns_after(attrs: Seq<(Seq<u8>, Seq<u8>)>, ns: Seq<char>) -> Seq<char>
    decreases attrs.len(),
{
    if attrs.len() == 0 {
        ns
    } else {
        let before = xmlns_after(attrs.drop_last(), ns);
        if attrs.last().0 == spec_kw_xmlns() {
            lossy_utf8(attrs.last().1)
        } else {
            before
        }
    }
}

/// A new object of kind `k` from its start tag.
pub open spec fn new_node(k: NodeKind, tag: XmlTagView) -> NodeView {
    NodeView {
        kind: k,
        handle: handle_or_empty(tag),
        gramps_id: attr_text(tag, spec_kw_id()),
        fields: Seq::empty(),
        date: None,
    }
}

/// The scan after a reference element: with an `hlink`, inside an object
/// that records this kind of reference, one more edge.
pub open spec fn add_ref(s: GraphScanView, r: RefKind, tag: XmlTagView) -> GraphScanView {
    match (attr_text(tag, spec_kw_hlink()), s.current) {
        (Some(h), Some(c)) => if ref_allowed(r, c.kind) {
            GraphScanView {
                edges: s.edges.push(EdgeView { kind: r, source_kind: c.kind, source: c.handle, target: h }),
                ..s
            }
        } else {
            s
        },
        _ => s,
    }
}

/// Whether the object being read is of kind `k`.
pub open spec fn current_is(s: GraphScanView, k: NodeKind) -> bool {
    s.current matches Some(c) && c.kind == k
}

/// Whether an element of local name `n` is a text field of the object
/// being read.
pub open spec fn field_start(s: GraphScanView, n: Seq<u8>) -> bool {
    s.current matches Some(c) && field_allowed(c.kind, n, s.in_name)
}

/// Whether a start tag of this local name changes the scan's structure
/// (root, section, object, `<eventtype>`, `<name>`) rather than being read
/// as a field or a reference.
pub open spec fn structural_start(s: GraphScanView, n: Seq<u8>) -> bool {
    ||| n == spec_kw_database()
    ||| section_named(n) is Some
    ||| (node_kind_named(n) is Some && s.section == node_kind_named(n))
    ||| (n == spec_kw_eventtype() && current_is(s, NodeKind::Event))
    ||| (n == spec_kw_name() && current_is(s, NodeKind::Person))
}

/// Whether the scan reads the text of the element that `ev` opens: a
/// text-valued field of the object being read.
pub open spec fn graph_wants_text(s: GraphScanView, ev: XmlEventView) -> bool {
    match ev {
        XmlEventView::Start(tag) => {
            let n = local_name(tag.0);
            !structural_start(s, n) && field_start(s, n)
        },
        _ => false,
    }
}

/// Whether the trimmed text of a field element is recorded: when it is not
/// empty, and for `<gender>` when it reads as an `i32`.
pub open spec fn field_text_kept(n: Seq<u8>, t: Seq<char>) -> bool {
    t.len() > 0 && (n != spec_kw_gender() || parsed_i32(t) is Some)
}

/// One step of a document scan. `text` is what reading the text of a field
/// element returned, when `graph_wants_text` holds; it is not used
/// otherwise. A field is recorded as its trimmed text (see
/// `field_text_kept`).
pub open spec fn graph_step(s: GraphScanView, ev: XmlEventView, text: Option<Seq<char>>) -> GraphScanView {
    match ev {
        XmlEventView::Start(tag) => {
            let n = local_name(tag.0);
            if n == spec_kw_database() {
                GraphScanView { namespace: xmlns_after(tag.1, s.namespace), ..s }
            } else if section_named(n) is Some {
                GraphScanView { section: section_named(n), ..s }
            } else if node_kind_named(n) is Some && s.section == node_kind_named(n) {
                GraphScanView { current: Some(new_node(node_kind_named(n)->0, tag)), ..s }
            } else if n == spec_kw_eventtype() && current_is(s, NodeKind::Event) {
                GraphScanView { in_eventtype: true, ..s }
            } else if n == spec_kw_name() && current_is(s, NodeKind::Person) {
                GraphScanView { in_name: true, ..s }
            } else if field_start(s, n) {
                match text {
                    Some(t) => if field_text_kept(n, trimmed(t)) {
                        let c = s.current->0;
                        GraphScanView {
                            current: Some(NodeView { fields: c.fields.push((n, trimmed(t))), ..c }),
                            ..s
                        }
                    } else {
                        s
                    },
                    None => s,
                }
            } else if ref_named(n) is Some {
                add_ref(s, ref_named(n)->0, tag)
            } else {
                s
            }
        },
        XmlEventView::Empty(tag) => {
            let n = local_name(tag.0);
            if n == spec_kw_dateval() && current_is(s, NodeKind::Event) {
                let c = s.current->0;
                GraphScanView { current: Some(NodeView { date: dateval_of(tag), ..c }), ..s }
            } else if ref_named(n) is Some {
                add_ref(s, ref_named(n)->0, tag)
            } else {
                s
            }
        },
        XmlEventView::End(name) => {
            let n = local_name(name);
            if section_named(n) is Some {
                GraphScanView { section: None, ..s }
            } else if node_kind_named(n) is Some {
                match s.current {
                    Some(c) => if Some(c.kind) == node_kind_named(n) {
                        GraphScanView { nodes: s.nodes.push(c), current: None, ..s }
                    } else {
                        s
                    },
                    None => s,
                }
            } else if n == spec_kw_eventtype() {
                GraphScanView { in_eventtype: false, ..s }
            } else if n == spec_kw_name() {
                GraphScanView { in_name: false, ..s }
            } else {
                s
            }
        },
        _ => s,
    }
}

/// The records read from a document: the scan run over what the reader
/// returns for `input` after the calls `calls`, from state `s`, reading the
/// text of each field element. At most `fuel` events other than the end
/// are taken.
pub open spec fn scan_graph(
    input: Seq<char>,
    calls: Seq<XmlCall>,
    s: GraphScanView,
    fuel: nat,
) -> Result<GraphRecordsView, Seq<char>>
    decreases fuel,
{
    match xml_next_event(input, calls) {
        Err(m) => Err(m),
        Ok(XmlEventView::Eof) => Ok(GraphRecordsView { namespace: s.namespace, nodes: s.nodes, edges: s.edges }),
        Ok(ev) => if fuel == 0 {
            Err(unended_message())
        } else {
            let after = calls.push(XmlCall::NextEvent);
            if graph_wants_text(s, ev) {
                let name = ev->Start_0.0;
                scan_graph(
                    input,
                    after.push(XmlCall::ReadText(name)),
                    graph_step(s, ev, xml_read_text(input, after, name)),
                    (fuel - 1) as nat,
                )
            } else {
                scan_graph(input, after, graph_step(s, ev, None), (fuel - 1) as nat)
            }
        },
    }
}


// ---------------------------------------------------------------------------
// Executable classification
// ---------------------------------------------------------------------------

fn node_kind_of(n: &[u8]) -> (r: Option<NodeKind>)
    ensures
        r == node_kind_named(n@),
{
    if bytes_eq(n, kw_person().as_slice()) {
        Some(NodeKind::Person)
    } else if bytes_eq(n, kw_family().as_slice()) {
        Some(NodeKind::Family)
    } else if bytes_eq(n, kw_event().as_slice()) {
        Some(NodeKind::Event)
    } else if bytes_eq(n, kw_place().as_slice()) {
        Some(NodeKind::Place)
    } else if bytes_eq(n, kw_source().as_slice()) {
        Some(NodeKind::Source)
    } else if bytes_eq(n, kw_citation().as_slice()) {
        Some(NodeKind::Citation)
    } else if bytes_eq(n, kw_repository().as_slice()) {
        Some(NodeKind::Repository)
    } else if bytes_eq(n, kw_object().as_slice()) {
        Some(NodeKind::Media)
    } else if bytes_eq(n, kw_note().as_slice()) {
        Some(NodeKind::Note)
    } else if bytes_eq(n, kw_tag().as_slice()) {
        Some(NodeKind::Tag)
    } else {
        None
    }
}

fn section_of(n: &[u8]) -> (r: Option<NodeKind>)
    ensures
        r == section_named(n@),
{
    if bytes_eq(n, kw_people().as_slice()) {
        Some(NodeKind::Person)
    } else if bytes_eq(n, kw_families().as_slice()) {
        Some(NodeKind::Family)
    } else if bytes_eq(n, kw_events().as_slice()) {
        Some(NodeKind::Event)
    } else if bytes_eq(n, kw_places().as_slice()) {
        Some(NodeKind::Place)
    } else if bytes_eq(n, kw_sources().as_slice()) {
        Some(NodeKind::Source)
    } else if bytes_eq(n, kw_citations().as_slice()) {
        Some(NodeKind::Citation)
    } else if bytes_eq(n, kw_repositories().as_slice()) {
        Some(NodeKind::Repository)
    } else if bytes_eq(n, kw_objects().as_slice()) || bytes_eq(n, kw_media().as_slice()) {
        Some(NodeKind::Media)
    } else if bytes_eq(n, kw_notes().as_slice()) {
        Some(NodeKind::Note)
    } else if bytes_eq(n, kw_tags().as_slice()) {
        Some(NodeKind::Tag)
    } else {
        None
    }
}

fn ref_of(n: &[u8]) -> (r: Option<RefKind>)
    ensures
        r == ref_named(n@),
{
    if bytes_eq(n, kw_eventref().as_slice()) {
        Some(RefKind::EventRef)
    } else if bytes_eq(n, kw_childref().as_slice()) {
        Some(RefKind::ChildRef)
    } else if bytes_eq(n, kw_father().as_slice()) {
        Some(RefKind::Father)
    } else if bytes_eq(n, kw_mother().as_slice()) {
        Some(RefKind::Mother)
    } else if bytes_eq(n, kw_personref().as_slice()) {
        Some(RefKind::PersonRef)
    } else if bytes_eq(n, kw_reporef().as_slice()) {
        Some(RefKind::RepoRef)
    } else if bytes_eq(n, kw_placeref().as_slice()) {
        Some(RefKind::PlaceRef)
    } else if bytes_eq(n, kw_citationref().as_slice()) {
        Some(RefKind::CitationRef)
    } else if bytes_eq(n, kw_noteref().as_slice()) {
        Some(RefKind::NoteRef)
    } else if bytes_eq(n, kw_mediaref().as_slice()) {
        Some(RefKind::MediaRef)
    } else if bytes_eq(n, kw_tagref().as_slice()) {
        Some(RefKind::TagRef)
    } else if bytes_eq(n, kw_sourceref().as_slice()) {
        Some(RefKind::SourceRef)
    } else if bytes_eq(n, kw_place().as_slice()) {
        Some(RefKind::EventPlace)
    } else {
        None
    }
}

fn ref_allowed_exec(r: RefKind, k: NodeKind) -> (b: bool)
    ensures
        b == ref_allowed(r, k),
{
    match r {
        RefKind::EventRef => k == NodeKind::Person || k == NodeKind::Family,
        RefKind::ChildRef | RefKind::Father | RefKind::Mother => k == NodeKind::Family,
        RefKind::PersonRef => k == NodeKind::Person,
        RefKind::RepoRef => k == NodeKind::Source,
        RefKind::PlaceRef => k == NodeKind::Place,
        RefKind::CitationRef => k == NodeKind::Person || k == NodeKind::Family || k
            == NodeKind::Event || k == NodeKind::Place,
        RefKind::NoteRef => k != NodeKind::Note && k != NodeKind::Tag,
        RefKind::MediaRef => k == NodeKind::Person || k == NodeKind::Family || k
            == NodeKind::Event || k == NodeKind::Place || k == NodeKind::Source || k
            == NodeKind::Repository,
        RefKind::TagRef => true,
        RefKind::SourceRef => k == NodeKind::Citation,
        RefKind::EventPlace => k == NodeKind::Event,
    }
}

fn field_allowed_exec(k: NodeKind, n: &[u8], in_name: bool) -> (b: bool)
    ensures
        b == field_allowed(k, n@, in_name),
{
    match k {
        NodeKind::Person => ((bytes_eq(n, kw_first().as_slice()) || bytes_eq(n, kw_surname().as_slice()))
            && in_name) || bytes_eq(n, kw_gender().as_slice()),
        NodeKind::Family => false,
        NodeKind::Event => bytes_eq(n, kw_type().as_slice()) || bytes_eq(n, kw_description().as_slice()),
        NodeKind::Place => bytes_eq(n, kw_code().as_slice()) || bytes_eq(n, kw_lat().as_slice())
            || bytes_eq(n, kw_long().as_slice()) || bytes_eq(n, kw_street().as_slice()) || bytes_eq(
            n,
            kw_locality().as_slice(),
        ) || bytes_eq(n, kw_city().as_slice()) || bytes_eq(n, kw_county().as_slice()) || bytes_eq(
            n,
            kw_state().as_slice(),
        ) || bytes_eq(n, kw_country().as_slice()) || bytes_eq(n, kw_postal().as_slice())
            || bytes_eq(n, kw_phone().as_slice()),
        NodeKind::Source => bytes_eq(n, kw_title().as_slice()) || bytes_eq(n, kw_abbrev().as_slice())
            || bytes_eq(n, kw_author().as_slice()) || bytes_eq(n, kw_pubinfo().as_slice()),
        NodeKind::Citation => bytes_eq(n, kw_page().as_slice()),
        NodeKind::Repository => bytes_eq(n, kw_rname().as_slice()),
        NodeKind::Media => bytes_eq(n, kw_desc().as_slice()) || bytes_eq(n, kw_path().as_slice())
            || bytes_eq(n, kw_mime().as_slice()) || bytes_eq(n, kw_checksum().as_slice()),
        NodeKind::Note => bytes_eq(n, kw_text().as_slice()),
        NodeKind::Tag => bytes_eq(n, kw_color().as_slice()),
    }
}

fn read_xmlns(tag: &XmlTag, ns: String) -> (r: String)
    ensures
        r@ == xmlns_after(tag@.1, ns@),
{
    let ghost av = tag@.1;
    let ghost ns0 = ns@;
    let kx = kw_xmlns();
    let mut cur = ns;
    let mut i: usize = 0;
    while i < tag.attributes.len()
        invariant
            av == tag@.1,
            i <= tag.attributes.len(),
            kx@ == spec_kw_xmlns(),
            cur@ == xmlns_after(av.take(i as int), ns0),
        decreases tag.attributes.len() - i,
    {
        let (k, v) = &tag.attributes[i];
        assert(av[i as int] == (k@, v@));
        assert(av.take(i + 1).drop_last() =~= av.take(i as int));
        assert(av.take(i + 1).last() == av[i as int]);
        if bytes_eq(k.as_slice(), kx.as_slice()) {
            cur = utf8_lossy(v.as_slice());
        }
        i = i + 1;
    }
    assert(av.take(av.len() as int) =~= av);
    cur
}

fn new_node_record(k: NodeKind, tag: &XmlTag) -> (r: NodeRecord)
    ensures
        r@ == new_node(k, tag@),
{
    let handle = match read_handle_attr(tag) {
        Some(h) => h,
        None => String::new(),
    };
    let kid = kw_id();
    let gramps_id = read_attr(tag, kid.as_slice());
    let r = NodeRecord { kind: k, handle, gramps_id, fields: Vec::new(), date: None };
    assert(r@.fields =~= Seq::<(Seq<u8>, Seq<char>)>::empty());
    r
}

/// The state of a document scan.
pub struct GraphScan {
    namespace: String,
    section: Option<NodeKind>,
    current: Option<NodeRecord>,
    in_eventtype: bool,
    in_name: bool,
    nodes: Vec<NodeRecord>,
    edges: Vec<EdgeRecord>,
}

impl View for GraphScan {
    type V = GraphScanView;

    closed spec fn view(&self) -> GraphScanView {
        GraphScanView {
            namespace: self.namespace@,
            section: self.section,
            current: match self.current {
                Some(c) => Some(c@),
                None => None,
            },
            in_eventtype: self.in_eventtype,
            in_name: self.in_name,
            nodes: nodes_view(self.nodes@),
            edges: edges_view(self.edges@),
        }
    }
}

impl GraphScan {
    /// A scan that has read nothing.
    pub fn new() -> (s: Self)
        ensures
            s@ == graph_scan_start(),
    {
        let s = GraphScan {
            namespace: String::new(),
            section: None,
            current: None,
            in_eventtype: false,
            in_name: false,
            nodes: Vec::new(),
            edges: Vec::new(),
        };
        assert(s@.nodes =~= Seq::<NodeView>::empty());
        assert(s@.edges =~= Seq::<EdgeView>::empty());
        s
    }

    fn current_kind(&self) -> (r: Option<NodeKind>)
        ensures
            r == (match self@.current {
                Some(c) => Some(c.kind),
                None => None,
            }),
    {
        match &self.current {
            Some(c) => Some(c.kind),
            None => None,
        }
    }

    fn structural(&self, n: &[u8]) -> (b: bool)
        ensures
            b == structural_start(self@, n@),
    {
        let ck = self.current_kind();
        bytes_eq(n, kw_database().as_slice()) || section_of(n).is_some() || (match node_kind_of(n) {
            Some(k) => self.section == Some(k),
            None => false,
        }) || (bytes_eq(n, kw_eventtype().as_slice()) && ck == Some(NodeKind::Event)) || (bytes_eq(
            n,
            kw_name().as_slice(),
        ) && ck == Some(NodeKind::Person))
    }

    /// Whether the scan reads the text of the element that `ev` opens.
    pub fn wants_text(&self, ev: &XmlEvent) -> (b: bool)
        ensures
            b == graph_wants_text(self@, ev@),
    {
        match ev {
            XmlEvent::Start(tag) => {
                let n = strip_prefix(tag.name.as_slice());
                !self.structural(n) && (match &self.current {
                    Some(c) => field_allowed_exec(c.kind, n, self.in_name),
                    None => false,
                })
            },
            _ => false,
        }
    }

    fn add_ref(&mut self, r: RefKind, tag: &XmlTag)
        ensures
            final(self)@ == add_ref(old(self)@, r, tag@),
    {
        match read_hlink_attr(tag) {
            None => {},
            Some(h) => {
                match &self.current {
                    None => {},
                    Some(c) => {
                        if ref_allowed_exec(r, c.kind) {
                            let e = EdgeRecord { kind: r, source_kind: c.kind, source: c.handle.clone(), target: h };
                            let ghost before = self@.edges;
                            self.edges.push(e);
                            assert(self@.edges =~= before.push(e@));
                        }
                    },
                }
            },
        }
    }

    /// Fold one event into the scan, with the text read for it (see
    /// `graph_step`).
    pub fn step(&mut self, ev: &XmlEvent, text: Option<String>)
        ensures
            final(self)@ == graph_step(old(self)@, ev@, opt_text(text)),
    {
        match ev {
            XmlEvent::Start(tag) => {
                let n = strip_prefix(tag.name.as_slice());
                let ck = self.current_kind();
                if bytes_eq(n, kw_database().as_slice()) {
                    let mut ns = String::new();
                    std::mem::swap(&mut ns, &mut self.namespace);
                    self.namespace = read_xmlns(tag, ns);
                } else if section_of(n).is_some() {
                    self.section = section_of(n);
                } else if node_kind_of(n).is_some() && self.section == node_kind_of(n) {
                    match node_kind_of(n) {
                        Some(k) => {
                            self.current = Some(new_node_record(k, tag));
                        },
                        None => {},
                    }
                } else if bytes_eq(n, kw_eventtype().as_slice()) && ck == Some(NodeKind::Event) {
                    self.in_eventtype = true;
                } else if bytes_eq(n, kw_name().as_slice()) && ck == Some(NodeKind::Person) {
                    self.in_name = true;
                } else if (match &self.current {
                    Some(c) => field_allowed_exec(c.kind, n, self.in_name),
                    None => false,
                }) {
                    match text {
                        Some(t) => {
                            let tt = trim(t.as_str());
                            let tcs = str_chars(tt.as_str());
                            if tcs.len() > 0 && (!bytes_eq(n, kw_gender().as_slice()) || parse_i32(
                                tcs.as_slice(),
                            ).is_some()) {
                                let cur = self.current.take();
                                match cur {
                                    Some(mut c) => {
                                        let ghost before = c@.fields;
                                        let name: Vec<u8> = vstd::slice::slice_to_vec(n);
                                        c.fields.push((name, tt));
                                        assert(c@.fields =~= before.push((n@, trimmed(t@))));
                                        self.current = Some(c);
                                    },
                                    None => {},
                                }
                            }
                        },
                        None => {},
                    }
                } else {
                    match ref_of(n) {
                        Some(r) => self.add_ref(r, tag),
                        None => {},
                    }
                }
            },
            XmlEvent::Empty(tag) => {
                let n = strip_prefix(tag.name.as_slice());
                let ck = self.current_kind();
                if bytes_eq(n, kw_dateval().as_slice()) && ck == Some(NodeKind::Event) {
                    let cur = self.current.take();
                    match cur {
                        Some(mut c) => {
                            c.date = parse_dateval(tag);
                            self.current = Some(c);
                        },
                        None => {},
                    }
                } else {
                    match ref_of(n) {
                        Some(r) => self.add_ref(r, tag),
                        None => {},
                    }
                }
            },
            XmlEvent::End(name) => {
                let n = strip_prefix(name.as_slice());
                if section_of(n).is_some() {
                    self.section = None;
                } else if node_kind_of(n).is_some() {
                    let ck = self.current_kind();
                    if ck.is_some() && ck == node_kind_of(n) {
                        let cur = self.current.take();
                        match cur {
                            Some(c) => {
                                let ghost before = self@.nodes;
                                self.nodes.push(c);
                                assert(self@.nodes =~= before.push(c@));
                            },
                            None => {},
                        }
                    }
                } else if bytes_eq(n, kw_eventtype().as_slice()) {
                    self.in_eventtype = false;
                } else if bytes_eq(n, kw_name().as_slice()) {
                    self.in_name = false;
                }
            },
            _ => {},
        }
    }

    /// The records read so far.
    pub fn finish(self) -> (r: GraphRecords)
        ensures
            r@ == (GraphRecordsView { namespace: self@.namespace, nodes: self@.nodes, edges: self@.edges }),
    {
        GraphRecords { namespace: self.namespace, nodes: self.nodes, edges: self.edges }
    }
}

/// Read all primary objects of a Gramps XML document and the references
/// between them (see `graph_step`): the scan run over what the XML reader
/// returns for the document; a reader error becomes an `XmlParseError`
/// with the reader's message.
pub fn parse_gramps_records(content: &str) -> (r: Result<GraphRecords, Error>)
    ensures
        match scan_graph(content@, Seq::empty(), graph_scan_start(), content.len() as nat) {
            Ok(g) => r matches Ok(v) && v@ == g,
            Err(m) => r matches Err(Error::XmlParseError { message }) && message@ == m,
        },
{
    let mut cursor = XmlCursor::new(content);
    let mut scan = GraphScan::new();
    let mut fuel: usize = content.len();
    loop
        invariant
            cursor.input() == content@,
            scan_graph(content@, Seq::empty(), graph_scan_start(), content.len() as nat)
                == scan_graph(content@, cursor.calls(), scan@, fuel as nat),
        decreases fuel,
    {
        match cursor.next_event() {
            Err(m) => {
                return Err(Error::XmlParseError { message: m });
            },
            Ok(XmlEvent::Eof) => {
                return Ok(scan.finish());
            },
            Ok(ev) => {
                if fuel == 0 {
                    return Err(unended_error());
                }
                fuel = fuel - 1;
                if scan.wants_text(&ev) {
                    let text = match &ev {
                        XmlEvent::Start(tag) => cursor.read_text(tag.name.as_slice()),
                        _ => None,
                    };
                    scan.step(&ev, text);
                } else {
                    scan.step(&ev, None);
                }
            },
        }
    }
}


/// The version read from a document's header, taking at most `fuel`
/// events (see `detect_schema_version`).
pub open spec fn header_version(content: Seq<char>, fuel: nat) -> Result<Option<Seq<char>>, Seq<char>> {
    scan_header(content, Seq::empty(), HeaderScanView { in_header: false, version: None }, fuel)
}

/// Whether a header version is present and of a supported schema.
pub open spec fn version_accepted(version: Option<Seq<char>>) -> bool {
    match version {
        Some(v) => supported_schema(schema_prefix(v)),
        None => false,
    }
}

// ---------------------------------------------------------------------------
// Building the graph
// ---------------------------------------------------------------------------

/// Whether some record in `nodes` has handle `h`.
pub open spec fn has_handle(nodes: Seq<NodeView>, h: Seq<char>) -> bool {
    exists|i: int| 0 <= i < nodes.len() && (#[trigger] nodes[i]).handle == h
}

/// One record per handle: the last one read with that handle, in the
/// order in which those last records were read.
pub open spec fn latest_nodes(nodes: Seq<NodeView>) -> Seq<NodeView>
    decreases nodes.len(),
{
    if nodes.len() == 0 {
        Seq::empty()
    } else {
        let rest = latest_nodes(nodes.drop_first());
        if has_handle(nodes.drop_first(), nodes[0].handle) {
            rest
        } else {
            seq![nodes[0]] + rest
        }
    }
}

/// The references kept in the graph, in order: those whose holder and
/// target are both objects of the document. A reference to a handle that
/// no object has is dropped.
pub open spec fn linked_edges(edges: Seq<EdgeView>, nodes: Seq<NodeView>) -> Seq<EdgeView>
    decreases edges.len(),
{
    if edges.len() == 0 {
        Seq::empty()
    } else {
        let r = linked_edges(edges.drop_last(), nodes);
        let e = edges.last();
        if has_handle(nodes, e.source) && has_handle(nodes, e.target) {
            r.push(e)
        } else {
            r
        }
    }
}

/// The graph of a document's records: one object per handle (the last one
/// read) and the references between objects that exist.
pub open spec fn built_graph(g: GraphRecordsView) -> GraphRecordsView {
    GraphRecordsView {
        namespace: g.namespace,
        nodes: latest_nodes(g.nodes),
        edges: linked_edges(g.edges, g.nodes),
    }
}

/// Keeping the last record per handle keeps the set of handles.
pub proof fn lemma_latest_nodes_handles(nodes: Seq<NodeView>, h: Seq<char>)
    ensures
        has_handle(latest_nodes(nodes), h) == has_handle(nodes, h),
    decreases nodes.len(),
{
    if nodes.len() > 0 {
        let t = nodes.drop_first();
        lemma_latest_nodes_handles(t, h);
        lemma_latest_nodes_handles(t, nodes[0].handle);
        let r = latest_nodes(t);
        if has_handle(nodes, h) {
            let i = choose|i: int| 0 <= i < nodes.len() && (#[trigger] nodes[i]).handle == h;
            if i > 0 {
                assert(t[i - 1] == nodes[i]);
            }
        }
        if has_handle(t, h) {
            let i = choose|i: int| 0 <= i < t.len() && (#[trigger] t[i]).handle == h;
            assert(nodes[i + 1] == t[i]);
        }
        if !has_handle(t, nodes[0].handle) {
            let s = seq![nodes[0]] + r;
            assert(s[0] == nodes[0]);
            if has_handle(r, h) {
                let i = choose|i: int| 0 <= i < r.len() && (#[trigger] r[i]).handle == h;
                assert(s[i + 1] == r[i]);
            }
            if has_handle(s, h) {
                let i = choose|i: int| 0 <= i < s.len() && (#[trigger] s[i]).handle == h;
                if i > 0 {
                    assert(s[i] == r[i - 1]);
                }
            }
        }
    }
}

/// Every handle occurs once among the objects of a built graph.
pub proof fn lemma_latest_nodes_unique(nodes: Seq<NodeView>)
    ensures
        forall|i: int, j: int|
            0 <= i < j < latest_nodes(nodes).len() ==> (#[trigger] latest_nodes(nodes)[i]).handle
                != (#[trigger] latest_nodes(nodes)[j]).handle,
    decreases nodes.len(),
{
    if nodes.len() > 0 {
        let t = nodes.drop_first();
        lemma_latest_nodes_unique(t);
        lemma_latest_nodes_handles(t, nodes[0].handle);
        let r = latest_nodes(t);
        if !has_handle(t, nodes[0].handle) {
            let s = seq![nodes[0]] + r;
            assert forall|i: int, j: int| 0 <= i < j < s.len() implies (#[trigger] s[i]).handle != (#[trigger] s[j]).handle by {
                if i == 0 {
                    assert(s[j] == r[j - 1]);
                    if s[j].handle == nodes[0].handle {
                        assert(has_handle(r, nodes[0].handle));
                    }
                } else {
                    assert(s[i] == r[i - 1]);
                    assert(s[j] == r[j - 1]);
                }
            }
        }
    }
}

fn has_handle_exec(nodes: &Vec<NodeRecord>, h: &String) -> (b: bool)
    ensures
        b == has_handle(nodes_view(nodes@), h@),
{
    let ghost nv = nodes_view(nodes@);
    let mut i: usize = 0;
    while i < nodes.len()
        invariant
            nv == nodes_view(nodes@),
            i <= nodes.len(),
            forall|j: int| 0 <= j < i ==> (#[trigger] nv[j]).handle != h@,
        decreases nodes.len() - i,
    {
        if strings_equal(nodes[i].handle.as_str(), h.as_str()) {
            assert(nv[i as int].handle == h@);
            return true;
        }
        i = i + 1;
    }
    false
}

/// Build the graph of a document's records (see `built_graph`): one object
/// per handle, the last one read, and the references whose holder and
/// target are both objects of the document.
pub fn build_graph(g: GraphRecords) -> (r: GraphRecords)
    ensures
        r@ == built_graph(g@),
{
    let ghost orig = nodes_view(g.nodes@);
    let ghost gv = g@;
    let GraphRecords { namespace, nodes, edges } = g;
    let mut rest = nodes;
    let mut kept: Vec<NodeRecord> = Vec::new();
    assert(orig.skip(orig.len() as int) =~= Seq::<NodeView>::empty());
    assert(orig.take(orig.len() as int) =~= orig);
    while rest.len() > 0
        invariant
            rest.len() <= orig.len(),
            nodes_view(rest@) == orig.take(rest.len() as int),
            nodes_view(kept@) == latest_nodes(orig.skip(rest.len() as int)),
        decreases rest.len(),
    {
        let k = rest.len();
        let ghost before = nodes_view(kept@);
        let n = rest.pop().unwrap();
        proof {
            assert(orig.take(k as int)[k - 1] == n@);
            assert(orig[k - 1] == n@);
            assert(nodes_view(rest@) =~= orig.take(k - 1));
            let t = orig.skip(k - 1);
            assert(t.drop_first() =~= orig.skip(k as int));
            assert(t[0] == n@);
            lemma_latest_nodes_handles(orig.skip(k as int), n@.handle);
        }
        if !has_handle_exec(&kept, &n.handle) {
            kept.insert(0, n);
            assert(nodes_view(kept@) =~= seq![n@] + before);
        }
    }
    assert(orig.skip(0) =~= orig);
    let ghost ev = edges_view(edges@);
    let mut out: Vec<EdgeRecord> = Vec::new();
    let mut i: usize = 0;
    assert(ev.take(0) =~= Seq::<EdgeView>::empty());
    while i < edges.len()
        invariant
            ev == edges_view(edges@),
            i <= edges.len(),
            nodes_view(kept@) == latest_nodes(orig),
            edges_view(out@) == linked_edges(ev.take(i as int), orig),
        decreases edges.len() - i,
    {
        let e = &edges[i];
        proof {
            lemma_latest_nodes_handles(orig, e@.source);
            lemma_latest_nodes_handles(orig, e@.target);
            assert(ev.take(i + 1).drop_last() =~= ev.take(i as int));
            assert(ev.take(i + 1).last() == e@);
        }
        if has_handle_exec(&kept, &e.source) && has_handle_exec(&kept, &e.target) {
            let c = EdgeRecord { kind: e.kind, source_kind: e.source_kind, source: e.source.clone(), target: e.target.clone() };
            let ghost before = edges_view(out@);
            out.push(c);
            assert(edges_view(out@) =~= before.push(e@));
        }
        i = i + 1;
    }
    assert(ev.take(ev.len() as int) =~= ev);
    GraphRecords { namespace, nodes: kept, edges: out }
}


/// What parsing a document's graph gives, taking at most `fuel` events:
/// the built graph of its records, or an `XmlParseError` with the reader's
/// message.
pub open spec fn built_outcome(content: Seq<char>, fuel: nat, r: Result<GraphRecords, Error>) -> bool {
    match scan_graph(content, Seq::empty(), graph_scan_start(), fuel) {
        Ok(g) => r matches Ok(v) && v@ == built_graph(g),
        Err(m) => r matches Err(Error::XmlParseError { message }) && message@ == m,
    }
}

/// Parse a Gramps XML document into its graph: its schema version is
/// checked first (as `detect_schema_version` does, with the same errors),
/// then its records are read (as `parse_gramps_records` does) and the
/// graph is built from them (as `build_graph` does).
pub fn parse_gramps_xml(content: &str) -> (r: Result<GraphRecords, Error>)
    ensures
        match header_version(content@, content.len() as nat) {
            Err(m) => r matches Err(Error::XmlParseError { message }) && message@ == m,
            Ok(version) => if version_accepted(version) {
                built_outcome(content@, content.len() as nat, r)
            } else {
                r matches Err(e) && schema_outcome(version, Err(e))
            },
        },
{
    let d = detect_schema_version(content);
    match d {
        Err(e) => Err(e),
        Ok(_) => {
            let r = parse_gramps_records(content);
            match r {
                Ok(g) => Ok(build_graph(g)),
                Err(e) => Err(e),
            }
        },
    }
}


// ---------------------------------------------------------------------------
// Resolving references
// ---------------------------------------------------------------------------

/// The kind of object a reference points to.
pub open spec fn target_kind(r: RefKind) -> NodeKind {
    match r {
        RefKind::EventRef => NodeKind::Event,
        RefKind::ChildRef | RefKind::Father | RefKind::Mother | RefKind::PersonRef => NodeKind::Person,
        RefKind::RepoRef => NodeKind::Repository,
        RefKind::PlaceRef | RefKind::EventPlace => NodeKind::Place,
        RefKind::CitationRef => NodeKind::Citation,
        RefKind::NoteRef => NodeKind::Note,
        RefKind::MediaRef => NodeKind::Media,
        RefKind::TagRef => NodeKind::Tag,
        RefKind::SourceRef => NodeKind::Source,
    }
}

/// A placeholder object of kind `k` for a handle that is referred to but
/// that no object has: the handle and nothing else.
pub open spec fn placeholder(k: NodeKind, h: Seq<char>) -> NodeView {
    NodeView { kind: k, handle: h, gramps_id: None, fields: Seq::empty(), date: None }
}

/// The objects and the inferred handles after resolving the references
/// `edges` in order: each reference whose target no object has yet adds a
/// placeholder of the kind it points to, and its target is recorded as
/// inferred.
pub open spec fn with_placeholders(nodes: Seq<NodeView>, inferred: Seq<Seq<char>>, edges: Seq<EdgeView>) -> (
    Seq<NodeView>,
    Seq<Seq<char>>,
)
    decreases edges.len(),
{
    if edges.len() == 0 {
        (nodes, inferred)
    } else {
        let prev = with_placeholders(nodes, inferred, edges.drop_last());
        let e = edges.last();
        if has_handle(prev.0, e.target) {
            prev
        } else {
            (prev.0.push(placeholder(target_kind(e.kind), e.target)), prev.1.push(e.target))
        }
    }
}

/// A graph whose references all have targets: its objects (with the
/// placeholders), its references, and the handles that were inferred.
pub struct ResolvedGraph {
    pub namespace: String,
    pub nodes: Vec<NodeRecord>,
    pub edges: Vec<EdgeRecord>,
    pub inferred: Vec<String>,
}

/// Abstract resolved graph.
pub struct ResolvedGraphView {
    pub namespace: Seq<char>,
    pub nodes: Seq<NodeView>,
    pub edges: Seq<EdgeView>,
    pub inferred: Seq<Seq<char>>,
}

impl View for ResolvedGraph {
    type V = ResolvedGraphView;

    open spec fn view(&self) -> ResolvedGraphView {
        ResolvedGraphView {
            namespace: self.namespace@,
            nodes: nodes_view(self.nodes@),
            edges: edges_view(self.edges@),
            inferred: self.inferred@.map_values(|s: String| s@),
        }
    }
}

/// The resolved graph of a document's records: all references kept, and a
/// placeholder object added (and its handle recorded as inferred) for each
/// target that no object has.
pub open spec fn resolved(g: GraphRecordsView) -> ResolvedGraphView {
    let r = with_placeholders(g.nodes, Seq::empty(), g.edges);
    ResolvedGraphView { namespace: g.namespace, nodes: r.0, edges: g.edges, inferred: r.1 }
}

/// Every reference of a resolved graph has a target among its objects.
pub proof fn lemma_resolved_targets_exist(nodes: Seq<NodeView>, inferred: Seq<Seq<char>>, edges: Seq<EdgeView>)
    ensures
        forall|i: int| 0 <= i < edges.len() ==> has_handle(with_placeholders(nodes, inferred, edges).0, #[trigger] edges[i].target),
        forall|h: Seq<char>| has_handle(nodes, h) ==> has_handle(with_placeholders(nodes, inferred, edges).0, h),
    decreases edges.len(),
{
    if edges.len() > 0 {
        let init = edges.drop_last();
        lemma_resolved_targets_exist(nodes, inferred, init);
        let prev = with_placeholders(nodes, inferred, init);
        let e = edges.last();
        let cur = with_placeholders(nodes, inferred, edges);
        assert forall|h: Seq<char>| has_handle(prev.0, h) implies has_handle(cur.0, h) by {
            let j = choose|j: int| 0 <= j < prev.0.len() && (#[trigger] prev.0[j]).handle == h;
            assert(cur.0[j] == prev.0[j]);
        }
        if !has_handle(prev.0, e.target) {
            assert(cur.0[prev.0.len() as int].handle == e.target);
        }
        assert forall|i: int| 0 <= i < edges.len() implies has_handle(cur.0, #[trigger] edges[i].target) by {
            if i < edges.len() - 1 {
                assert(edges[i] == init[i]);
            }
        }
    }
}

/// The handles inferred while adding placeholders are handles that none of
/// the objects given at the start has.
proof fn lemma_placeholders_infer_missing(nodes: Seq<NodeView>, inferred: Seq<Seq<char>>, edges: Seq<EdgeView>)
    ensures
        with_placeholders(nodes, inferred, edges).1.len() >= inferred.len(),
        forall|k: int|
            inferred.len() <= k < with_placeholders(nodes, inferred, edges).1.len() ==> !has_handle(
                nodes,
                #[trigger] with_placeholders(nodes, inferred, edges).1[k],
            ),
    decreases edges.len(),
{
    if edges.len() > 0 {
        let init = edges.drop_last();
        lemma_placeholders_infer_missing(nodes, inferred, init);
        lemma_resolved_targets_exist(nodes, inferred, init);
        let prev = with_placeholders(nodes, inferred, init);
        let cur = with_placeholders(nodes, inferred, edges);
        let e = edges.last();
        if !has_handle(prev.0, e.target) {
            assert forall|k: int| inferred.len() <= k < cur.1.len() implies !has_handle(nodes, #[trigger] cur.1[k]) by {
                if k < prev.1.len() {
                    assert(cur.1[k] == prev.1[k]);
                } else {
                    assert(cur.1[k] == e.target);
                }
            }
        }
    }
}

/// Forward references resolve: resolving a document's references never
/// infers a handle that one of its objects has, wherever in the document
/// that object stands; only targets that no object has get a placeholder.
pub proof fn lemma_resolved_infers_only_missing(g: GraphRecordsView)
    ensures
        forall|k: int| 0 <= k < resolved(g).inferred.len() ==> !has_handle(g.nodes, #[trigger] resolved(g).inferred[k]),
{
    lemma_placeholders_infer_missing(g.nodes, Seq::empty(), g.edges);
}

fn placeholder_record(k: NodeKind, h: String) -> (r: NodeRecord)
    ensures
        r@ == placeholder(k, h@),
{
    let r = NodeRecord { kind: k, handle: h, gramps_id: None, fields: Vec::new(), date: None };
    assert(r@.fields =~= Seq::<(Seq<u8>, Seq<char>)>::empty());
    r
}

fn target_kind_exec(r: RefKind) -> (k: NodeKind)
    ensures
        k == target_kind(r),
{
    match r {
        RefKind::EventRef => NodeKind::Event,
        RefKind::ChildRef | RefKind::Father | RefKind::Mother | RefKind::PersonRef => NodeKind::Person,
        RefKind::RepoRef => NodeKind::Repository,
        RefKind::PlaceRef | RefKind::EventPlace => NodeKind::Place,
        RefKind::CitationRef => NodeKind::Citation,
        RefKind::NoteRef => NodeKind::Note,
        RefKind::MediaRef => NodeKind::Media,
        RefKind::TagRef => NodeKind::Tag,
        RefKind::SourceRef => NodeKind::Source,
    }
}

/// Resolve the references of a document's records (see `resolved`).
pub fn resolve_edges(g: GraphRecords) -> (r: ResolvedGraph)
    ensures
        r@ == resolved(g@),
{
    let ghost gv = g@;
    let GraphRecords { namespace, nodes, edges } = g;
    let ghost n0 = nodes_view(nodes@);
    let ghost ev = edges_view(edges@);
    let mut nodes = nodes;
    let mut inferred: Vec<String> = Vec::new();
    let mut i: usize = 0;
    assert(ev.take(0) =~= Seq::<EdgeView>::empty());
    while i < edges.len()
        invariant
            ev == edges_view(edges@),
            i <= edges.len(),
            with_placeholders(n0, Seq::empty(), ev.take(i as int)) == (
                nodes_view(nodes@),
                inferred@.map_values(|s: String| s@),
            ),
        decreases edges.len() - i,
    {
        let e = &edges[i];
        proof {
            assert(ev.take(i + 1).drop_last() =~= ev.take(i as int));
            assert(ev.take(i + 1).last() == e@);
        }
        if !has_handle_exec(&nodes, &e.target) {
            let p = placeholder_record(target_kind_exec(e.kind), e.target.clone());
            let ghost nb = nodes_view(nodes@);
            let ghost ib = inferred@.map_values(|s: String| s@);
            nodes.push(p);
            inferred.push(e.target.clone());
            assert(nodes_view(nodes@) =~= nb.push(p@));
            assert(inferred@.map_values(|s: String| s@) =~= ib.push(e@.target));
        }
        i = i + 1;
    }
    assert(ev.take(ev.len() as int) =~= ev);
    ResolvedGraph { namespace, nodes, edges, inferred }
}

} // verus!
