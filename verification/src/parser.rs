//! Reading a whole Gramps XML document: its records (every object's handle,
//! id, text fields and date, and every reference) and the persons,
//! families, events, places, sources, repositories, citations, notes, tags
//! and media objects in full detail; and resolving its references into a graph.

use vstd::prelude::*;
use crate::error::Error;
use crate::event_detail::{events_scan_start, events_view, parse_events_detail, scan_events_detail};
use crate::family_detail::{families_scan_start, families_view, parse_families_detail, scan_families_detail};
use crate::graph_scan::{
    graph_scan_start, header_version, parse_gramps_records, resolve_edges, resolved, scan_graph, version_accepted,
    edges_view, nodes_view, GraphRecords, GraphRecordsView, ResolvedGraph,
};
use crate::header::{detect_schema_version, schema_outcome};
use crate::person_detail::{detail_scan_start, parse_people_detail, persons_view, scan_detail};
use crate::person_records::{EventDetail, EventDetailView, FamilyDetail, FamilyDetailView, PersonDetail, PersonDetailView};
use crate::place_detail::{parse_places_detail, places_scan_start, places_view, scan_places_detail, PlaceDetail, PlaceDetailView};
use crate::repository_detail::{
    parse_repositories_detail, repositories_scan_start, repositories_view, scan_repositories_detail, RepositoryDetail,
    RepositoryDetailView,
};
use crate::source_detail::{parse_sources_detail, scan_sources_detail, sources_scan_start, sources_view, SourceDetail, SourceDetailView};
use crate::citation_detail::{citations_scan_start, citations_view, parse_citations_detail, scan_citations_detail, CitationDetail, CitationDetailView};
use crate::note_detail::{notes_scan_start, notes_view, parse_notes_detail, scan_notes_detail, NoteDetail, NoteDetailView};
use crate::media_detail::{media_scan_start, media_view, parse_media_detail, scan_media_detail, MediaDetail, MediaDetailView};
use crate::tag_detail::{parse_tags_detail, scan_tags_detail, tags_scan_start, tags_view, TagDetail, TagDetailView};

verus! {

/// A document read in full: its records and its objects in full detail.
pub struct DocumentDetail {
    pub records: GraphRecords,
    pub people: Vec<PersonDetail>,
    pub families: Vec<FamilyDetail>,
    pub events: Vec<EventDetail>,
    pub places: Vec<PlaceDetail>,
    pub sources: Vec<SourceDetail>,
    pub repositories: Vec<RepositoryDetail>,
    pub citations: Vec<CitationDetail>,
    pub notes: Vec<NoteDetail>,
    pub tags: Vec<TagDetail>,
    pub media: Vec<MediaDetail>,
}

pub struct DocumentDetailView {
    pub records: GraphRecordsView,
    pub people: Seq<PersonDetailView>,
    pub families: Seq<FamilyDetailView>,
    pub events: Seq<EventDetailView>,
    pub places: Seq<PlaceDetailView>,
    pub sources: Seq<SourceDetailView>,
    pub repositories: Seq<RepositoryDetailView>,
    pub citations: Seq<CitationDetailView>,
    pub notes: Seq<NoteDetailView>,
    pub tags: Seq<TagDetailView>,
    pub media: Seq<MediaDetailView>,
}

impl View for DocumentDetail {
    type V = DocumentDetailView;

    open spec fn view(&self) -> DocumentDetailView {
        DocumentDetailView {
            records: self.records@,
            people: persons_view(self.people@),
            families: families_view(self.families@),
            events: events_view(self.events@),
            places: places_view(self.places@),
            sources: sources_view(self.sources@),
            repositories: repositories_view(self.repositories@),
            citations: citations_view(self.citations@),
            notes: notes_view(self.notes@),
            tags: tags_view(self.tags@),
            media: media_view(self.media@),
        }
    }
}

/// A document with nothing read: no records and no objects.
pub open spec fn empty_document() -> DocumentDetailView {
    DocumentDetailView {
        records: GraphRecordsView { namespace: Seq::empty(), nodes: Seq::empty(), edges: Seq::empty() },
        people: Seq::empty(),
        families: Seq::empty(),
        events: Seq::empty(),
        places: Seq::empty(),
        sources: Seq::empty(),
        repositories: Seq::empty(),
        citations: Seq::empty(),
        notes: Seq::empty(),
        tags: Seq::empty(),
        media: Seq::empty(),
    }
}

/// Whether `r` is what the reading outcome `s` says: the document it
/// gives, or an `XmlParseError` with its message.
pub open spec fn document_outcome(r: Result<DocumentDetail, Error>, s: Result<DocumentDetailView, Seq<char>>) -> bool {
    match s {
        Ok(d) => r matches Ok(v) && v@ == d,
        Err(m) => r matches Err(Error::XmlParseError { message }) && message@ == m,
    }
}

/// The repositories of a document, after the rest was read.
pub open spec fn from_repositories(
    c: Seq<char>,
    n: nat,
    g: GraphRecordsView,
    ps: Seq<PersonDetailView>,
    fs: Seq<FamilyDetailView>,
    es: Seq<EventDetailView>,
    pls: Seq<PlaceDetailView>,
    ss: Seq<SourceDetailView>,
) -> Result<DocumentDetailView, Seq<char>> {
    match scan_repositories_detail(c, Seq::empty(), repositories_scan_start(), n) {
        Err(m) => Err(m),
        Ok(rs) => Ok(
            DocumentDetailView {
                records: g,
                people: ps,
                families: fs,
                events: es,
                places: pls,
                sources: ss,
                repositories: rs,
                citations: Seq::empty(),
                notes: Seq::empty(),
                tags: Seq::empty(),
                media: Seq::empty(),
            },
        ),
    }
}

/// The sources of a document and what follows them.
pub open spec fn from_sources(
    c: Seq<char>,
    n: nat,
    g: GraphRecordsView,
    ps: Seq<PersonDetailView>,
    fs: Seq<FamilyDetailView>,
    es: Seq<EventDetailView>,
    pls: Seq<PlaceDetailView>,
) -> Result<DocumentDetailView, Seq<char>> {
    match scan_sources_detail(c, Seq::empty(), sources_scan_start(), n) {
        Err(m) => Err(m),
        Ok(ss) => from_repositories(c, n, g, ps, fs, es, pls, ss),
    }
}

/// The places of a document and what follows them.
pub open spec fn from_places(
    c: Seq<char>,
    n: nat,
    g: GraphRecordsView,
    ps: Seq<PersonDetailView>,
    fs: Seq<FamilyDetailView>,
    es: Seq<EventDetailView>,
) -> Result<DocumentDetailView, Seq<char>> {
    match scan_places_detail(c, Seq::empty(), places_scan_start(), n) {
        Err(m) => Err(m),
        Ok(pls) => from_sources(c, n, g, ps, fs, es, pls),
    }
}

/// The events of a document and what follows them.
pub open spec fn from_events(
    c: Seq<char>,
    n: nat,
    g: GraphRecordsView,
    ps: Seq<PersonDetailView>,
    fs: Seq<FamilyDetailView>,
) -> Result<DocumentDetailView, Seq<char>> {
    match scan_events_detail(c, Seq::empty(), events_scan_start(), n) {
        Err(m) => Err(m),
        Ok(es) => from_places(c, n, g, ps, fs, es),
    }
}

/// The families of a document and what follows them.
pub open spec fn from_families(c: Seq<char>, n: nat, g: GraphRecordsView, ps: Seq<PersonDetailView>) -> Result<
    DocumentDetailView,
    Seq<char>,
> {
    match scan_families_detail(c, Seq::empty(), families_scan_start(), n) {
        Err(m) => Err(m),
        Ok(fs) => from_events(c, n, g, ps, fs),
    }
}

/// The persons of a document and what follows them.
pub open spec fn from_people(c: Seq<char>, n: nat, g: GraphRecordsView) -> Result<DocumentDetailView, Seq<char>> {
    match scan_detail(c, Seq::empty(), detail_scan_start(), n) {
        Err(m) => Err(m),
        Ok(ps) => from_families(c, n, g, ps),
    }
}

/// The first part of reading a whole document: the records, then the
/// persons, families, events, places, sources and repositories.
pub open spec fn primary_detail(c: Seq<char>, n: nat) -> Result<DocumentDetailView, Seq<char>> {
    match scan_graph(c, Seq::empty(), graph_scan_start(), n) {
        Err(m) => Err(m),
        Ok(g) => from_people(c, n, g),
    }
}

/// The media objects of a document, after the rest was read into `d`.
pub open spec fn from_media(c: Seq<char>, n: nat, d: DocumentDetailView) -> Result<DocumentDetailView, Seq<char>> {
    match scan_media_detail(c, Seq::empty(), media_scan_start(), n) {
        Err(m) => Err(m),
        Ok(ms) => Ok(DocumentDetailView { media: ms, ..d }),
    }
}

/// The tags of a document and what follows them.
pub open spec fn from_tags(c: Seq<char>, n: nat, d: DocumentDetailView) -> Result<DocumentDetailView, Seq<char>> {
    match scan_tags_detail(c, Seq::empty(), tags_scan_start(), n) {
        Err(m) => Err(m),
        Ok(ts) => from_media(c, n, DocumentDetailView { tags: ts, ..d }),
    }
}

/// The notes of a document and what follows them.
pub open spec fn from_notes(c: Seq<char>, n: nat, d: DocumentDetailView) -> Result<DocumentDetailView, Seq<char>> {
    match scan_notes_detail(c, Seq::empty(), notes_scan_start(), n) {
        Err(m) => Err(m),
        Ok(ns) => from_tags(c, n, DocumentDetailView { notes: ns, ..d }),
    }
}

/// The citations of a document and what follows them.
pub open spec fn from_citations(c: Seq<char>, n: nat, d: DocumentDetailView) -> Result<DocumentDetailView, Seq<char>> {
    match scan_citations_detail(c, Seq::empty(), citations_scan_start(), n) {
        Err(m) => Err(m),
        Ok(cs) => from_notes(c, n, DocumentDetailView { citations: cs, ..d }),
    }
}

/// What reading a whole document gives: each reading over the reader's
/// events (taking at most `n` of them: the document's length in bytes),
/// the first error met in the order records, persons, families, events,
/// places, sources, repositories, citations, notes, tags, media objects, or
/// all their
/// results. Every reading runs over the same events, so a reader error is
/// met by the first of them.
pub open spec fn document_detail(c: Seq<char>, n: nat) -> Result<DocumentDetailView, Seq<char>> {
    match primary_detail(c, n) {
        Err(m) => Err(m),
        Ok(d) => from_citations(c, n, d),
    }
}

fn read_repositories(
    content: &str,
    records: GraphRecords,
    people: Vec<PersonDetail>,
    families: Vec<FamilyDetail>,
    events: Vec<EventDetail>,
    places: Vec<PlaceDetail>,
    sources: Vec<SourceDetail>,
) -> (r: Result<DocumentDetail, Error>)
    ensures
        document_outcome(
            r,
            from_repositories(
                content@,
                content.len() as nat,
                records@,
                persons_view(people@),
                families_view(families@),
                events_view(events@),
                places_view(places@),
                sources_view(sources@),
            ),
        ),
{
    match parse_repositories_detail(content) {
        Ok(repositories) => {
            let d = DocumentDetail {
                records,
                people,
                families,
                events,
                places,
                sources,
                repositories,
                citations: Vec::new(),
                notes: Vec::new(),
                tags: Vec::new(),
                media: Vec::new(),
            };
            assert(d@.media =~= Seq::empty());
            assert(d@.citations =~= Seq::empty());
            assert(d@.notes =~= Seq::empty());
            assert(d@.tags =~= Seq::empty());
            Ok(d)
        },
        Err(e) => Err(e),
    }
}

fn read_sources(
    content: &str,
    records: GraphRecords,
    people: Vec<PersonDetail>,
    families: Vec<FamilyDetail>,
    events: Vec<EventDetail>,
    places: Vec<PlaceDetail>,
) -> (r: Result<DocumentDetail, Error>)
    ensures
        document_outcome(
            r,
            from_sources(
                content@,
                content.len() as nat,
                records@,
                persons_view(people@),
                families_view(families@),
                events_view(events@),
                places_view(places@),
            ),
        ),
{
    match parse_sources_detail(content) {
        Ok(sources) => read_repositories(content, records, people, families, events, places, sources),
        Err(e) => Err(e),
    }
}

fn read_places(
    content: &str,
    records: GraphRecords,
    people: Vec<PersonDetail>,
    families: Vec<FamilyDetail>,
    events: Vec<EventDetail>,
) -> (r: Result<DocumentDetail, Error>)
    ensures
        document_outcome(
            r,
            from_places(content@, content.len() as nat, records@, persons_view(people@), families_view(families@), events_view(events@)),
        ),
{
    match parse_places_detail(content) {
        Ok(places) => read_sources(content, records, people, families, events, places),
        Err(e) => Err(e),
    }
}

fn read_events(content: &str, records: GraphRecords, people: Vec<PersonDetail>, families: Vec<FamilyDetail>) -> (r:
    Result<DocumentDetail, Error>)
    ensures
        document_outcome(r, from_events(content@, content.len() as nat, records@, persons_view(people@), families_view(families@))),
{
    match parse_events_detail(content) {
        Ok(events) => read_places(content, records, people, families, events),
        Err(e) => Err(e),
    }
}

fn read_families(content: &str, records: GraphRecords, people: Vec<PersonDetail>) -> (r: Result<DocumentDetail, Error>)
    ensures
        document_outcome(r, from_families(content@, content.len() as nat, records@, persons_view(people@))),
{
    match parse_families_detail(content) {
        Ok(families) => read_events(content, records, people, families),
        Err(e) => Err(e),
    }
}

fn read_people(content: &str, records: GraphRecords) -> (r: Result<DocumentDetail, Error>)
    ensures
        document_outcome(r, from_people(content@, content.len() as nat, records@)),
{
    match parse_people_detail(content) {
        Ok(people) => read_families(content, records, people),
        Err(e) => Err(e),
    }
}

fn read_primary(content: &str) -> (r: Result<DocumentDetail, Error>)
    ensures
        document_outcome(r, primary_detail(content@, content.len() as nat)),
{
    match parse_gramps_records(content) {
        Ok(records) => read_people(content, records),
        Err(e) => Err(e),
    }
}

fn read_media(content: &str, d: DocumentDetail) -> (r: Result<DocumentDetail, Error>)
    ensures
        document_outcome(r, from_media(content@, content.len() as nat, d@)),
{
    match parse_media_detail(content) {
        Ok(media) => {
            let DocumentDetail { records, people, families, events, places, sources, repositories, citations, notes, tags, media: _ } = d;
            Ok(DocumentDetail { records, people, families, events, places, sources, repositories, citations, notes, tags, media })
        },
        Err(e) => Err(e),
    }
}

fn read_tags(content: &str, d: DocumentDetail) -> (r: Result<DocumentDetail, Error>)
    ensures
        document_outcome(r, from_tags(content@, content.len() as nat, d@)),
{
    match parse_tags_detail(content) {
        Ok(tags) => {
            let DocumentDetail { records, people, families, events, places, sources, repositories, citations, notes, tags: _, media } = d;
            read_media(content, DocumentDetail { records, people, families, events, places, sources, repositories, citations, notes, tags, media })
        },
        Err(e) => Err(e),
    }
}

fn read_notes(content: &str, d: DocumentDetail) -> (r: Result<DocumentDetail, Error>)
    ensures
        document_outcome(r, from_notes(content@, content.len() as nat, d@)),
{
    match parse_notes_detail(content) {
        Ok(notes) => {
            let DocumentDetail { records, people, families, events, places, sources, repositories, citations, notes: _, tags, media } = d;
            read_tags(content, DocumentDetail { records, people, families, events, places, sources, repositories, citations, notes, tags, media })
        },
        Err(e) => Err(e),
    }
}

fn read_citations(content: &str, d: DocumentDetail) -> (r: Result<DocumentDetail, Error>)
    ensures
        document_outcome(r, from_citations(content@, content.len() as nat, d@)),
{
    match parse_citations_detail(content) {
        Ok(citations) => {
            let DocumentDetail { records, people, families, events, places, sources, repositories, citations: _, notes, tags, media } = d;
            read_notes(content, DocumentDetail { records, people, families, events, places, sources, repositories, citations, notes, tags, media })
        },
        Err(e) => Err(e),
    }
}

/// Read a whole document (see `document_detail`); a reading's error is an
/// `XmlParseError` with its message.
pub fn read_document(content: &str) -> (r: Result<DocumentDetail, Error>)
    ensures
        document_outcome(r, document_detail(content@, content.len() as nat)),
{
    match read_primary(content) {
        Ok(d) => read_citations(content, d),
        Err(e) => Err(e),
    }
}

/// The document `a` with the document `d` added after it: every object and
/// reference of `d` after those of `a`, and the namespace of `d`.
pub open spec fn appended_document(a: DocumentDetailView, d: DocumentDetailView) -> DocumentDetailView {
    DocumentDetailView {
        records: GraphRecordsView {
            namespace: d.records.namespace,
            nodes: a.records.nodes + d.records.nodes,
            edges: a.records.edges + d.records.edges,
        },
        people: a.people + d.people,
        families: a.families + d.families,
        events: a.events + d.events,
        places: a.places + d.places,
        sources: a.sources + d.sources,
        repositories: a.repositories + d.repositories,
        citations: a.citations + d.citations,
        notes: a.notes + d.notes,
        tags: a.tags + d.tags,
        media: a.media + d.media,
    }
}

fn concat<T>(a: Vec<T>, b: Vec<T>) -> (r: Vec<T>)
    ensures
        r@ == a@ + b@,
{
    let mut a = a;
    let mut b = b;
    a.append(&mut b);
    a
}

fn append_records(a: GraphRecords, b: GraphRecords) -> (r: GraphRecords)
    ensures
        r@ == (GraphRecordsView {
            namespace: b@.namespace,
            nodes: a@.nodes + b@.nodes,
            edges: a@.edges + b@.edges,
        }),
{
    let GraphRecords { namespace: _, nodes: an, edges: ae } = a;
    let GraphRecords { namespace, nodes: bn, edges: be } = b;
    let ghost (x, y, u, v) = (an@, bn@, ae@, be@);
    let nodes = concat(an, bn);
    let edges = concat(ae, be);
    assert(nodes_view(x + y) =~= nodes_view(x) + nodes_view(y));
    assert(edges_view(u + v) =~= edges_view(u) + edges_view(v));
    GraphRecords { namespace, nodes, edges }
}

fn append_document(a: DocumentDetail, b: DocumentDetail) -> (r: DocumentDetail)
    ensures
        r@ == appended_document(a@, b@),
{
    let DocumentDetail { records, people, families, events, places, sources, repositories, citations, notes, tags, media } = a;
    let DocumentDetail {
        records: r2,
        people: p2,
        families: f2,
        events: e2,
        places: l2,
        sources: s2,
        repositories: rp2,
        citations: c2,
        notes: n2,
        tags: t2,
        media: m2,
    } = b;
    proof {
        assert(persons_view(people@ + p2@) =~= persons_view(people@) + persons_view(p2@));
        assert(families_view(families@ + f2@) =~= families_view(families@) + families_view(f2@));
        assert(events_view(events@ + e2@) =~= events_view(events@) + events_view(e2@));
        assert(places_view(places@ + l2@) =~= places_view(places@) + places_view(l2@));
        assert(sources_view(sources@ + s2@) =~= sources_view(sources@) + sources_view(s2@));
        assert(repositories_view(repositories@ + rp2@) =~= repositories_view(repositories@) + repositories_view(rp2@));
        assert(citations_view(citations@ + c2@) =~= citations_view(citations@) + citations_view(c2@));
        assert(notes_view(notes@ + n2@) =~= notes_view(notes@) + notes_view(n2@));
        assert(tags_view(tags@ + t2@) =~= tags_view(tags@) + tags_view(t2@));
        assert(media_view(media@ + m2@) =~= media_view(media@) + media_view(m2@));
    }
    DocumentDetail {
        records: append_records(records, r2),
        people: concat(people, p2),
        families: concat(families, f2),
        events: concat(events, e2),
        places: concat(places, l2),
        sources: concat(sources, s2),
        repositories: concat(repositories, rp2),
        citations: concat(citations, c2),
        notes: concat(notes, n2),
        tags: concat(tags, t2),
        media: concat(media, m2),
    }
}

/// A reader of Gramps XML documents: it holds what the documents read so
/// far gave, one after the other.
pub struct Parser {
    document: DocumentDetail,
}

impl View for Parser {
    type V = DocumentDetailView;

    closed spec fn view(&self) -> DocumentDetailView {
        self.document@
    }
}

impl Parser {
    /// A parser that has read nothing.
    pub fn new() -> (r: Self)
        ensures
            r@ == empty_document(),
    {
        let r = Parser {
            document: DocumentDetail {
                records: GraphRecords { namespace: String::new(), nodes: Vec::new(), edges: Vec::new() },
                people: Vec::new(),
                families: Vec::new(),
                events: Vec::new(),
                places: Vec::new(),
                sources: Vec::new(),
                repositories: Vec::new(),
                citations: Vec::new(),
                notes: Vec::new(),
                tags: Vec::new(),
                media: Vec::new(),
            },
        };
        assert(r@.records.nodes =~= Seq::empty());
        assert(r@.records.edges =~= Seq::empty());
        assert(r@.people =~= Seq::empty());
        assert(r@.families =~= Seq::empty());
        assert(r@.events =~= Seq::empty());
        assert(r@.places =~= Seq::empty());
        assert(r@.sources =~= Seq::empty());
        assert(r@.repositories =~= Seq::empty());
        assert(r@.citations =~= Seq::empty());
        assert(r@.notes =~= Seq::empty());
        assert(r@.tags =~= Seq::empty());
        assert(r@.media =~= Seq::empty());
        r
    }

    /// Read a whole document (see `document_detail`). On success what it
    /// gave is added to what the parser holds (see `appended_document`); on
    /// an error (an `XmlParseError` with the reading's message) the parser
    /// is left as it was.
    pub fn parse_all(&mut self, content: &str) -> (r: Result<(), Error>)
        ensures
            match document_detail(content@, content.len() as nat) {
                Ok(d) => r is Ok && final(self)@ == appended_document(old(self)@, d),
                Err(m) => r matches Err(Error::XmlParseError { message }) && message@ == m && final(self)@ == old(
                    self,
                )@,
            },
    {
        match read_document(content) {
            Ok(d) => {
                let mut cur = Parser::new();
                std::mem::swap(&mut cur, self);
                *self = Parser { document: append_document(cur.document, d) };
                Ok(())
            },
            Err(e) => Err(e),
        }
    }

    /// The document read.
    pub fn into_document(self) -> (r: DocumentDetail)
        ensures
            r@ == self@,
    {
        self.document
    }

    /// The graph of the document read: its references resolved, a
    /// placeholder object recorded as inferred for each target that no
    /// object has (see `resolved`).
    pub fn into_graph(self) -> (r: ResolvedGraph)
        ensures
            r@ == resolved(self@.records),
    {
        resolve_edges(self.document.records)
    }
}

/// Parse a Gramps XML document into its resolved graph: its schema version
/// is checked first (as `detect_schema_version` does, with the same
/// errors), then the document is read (as `Parser::parse_all` does) and
/// its references resolved (as `Parser::into_graph` does).
pub fn parse_graph(content: &str) -> (r: Result<ResolvedGraph, Error>)
    ensures
        match header_version(content@, content.len() as nat) {
            Err(m) => r matches Err(Error::XmlParseError { message }) && message@ == m,
            Ok(version) => if version_accepted(version) {
                match document_detail(content@, content.len() as nat) {
                    Ok(d) => r matches Ok(g) && g@ == resolved(d.records),
                    Err(m) => r matches Err(Error::XmlParseError { message }) && message@ == m,
                }
            } else {
                r matches Err(e) && schema_outcome(version, Err(e))
            },
        },
{
    match detect_schema_version(content) {
        Err(e) => Err(e),
        Ok(_) => {
            let mut parser = Parser::new();
            match parser.parse_all(content) {
                Ok(()) => Ok(parser.into_graph()),
                Err(e) => Err(e),
            }
        },
    }
}

} // verus!
