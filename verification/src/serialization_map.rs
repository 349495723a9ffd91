//! The Gramps XML vocabulary: how each primary type and each edge variant
//! of a genealogy graph is written as XML elements and attributes, and the
//! order of the type sections in a document.

use vstd::prelude::*;
use crate::handles::strings_view;
use crate::text::push_str;

verus! {

/// Where the data of a child element comes from.
#[derive(Clone, Debug, PartialEq)]
pub enum XmlChildSource {
    /// An inline struct field (e.g. `primary_name`).
    InlineStruct(String),
    /// An array field (e.g. `alternate_names`).
    Array(String),
    /// An edge variant (e.g. `PersonEventRef`).
    Edge(String),
}

/// Abstract child source.
pub enum XmlChildSourceView {
    InlineStruct(Seq<char>),
    Array(Seq<char>),
    Edge(Seq<char>),
}

impl View for XmlChildSource {
    type V = XmlChildSourceView;

    open spec fn view(&self) -> XmlChildSourceView {
        match self {
            XmlChildSource::InlineStruct(f) => XmlChildSourceView::InlineStruct(f@),
            XmlChildSource::Array(f) => XmlChildSourceView::Array(f@),
            XmlChildSource::Edge(e) => XmlChildSourceView::Edge(e@),
        }
    }
}

/// An attribute written from a data field.
#[derive(Clone, Debug, PartialEq)]
pub struct XmlAttribute {
    /// Field name in the data struct.
    pub field: String,
    /// XML attribute name (e.g. `hlink` for handle references).
    pub attr_name: String,
}

impl View for XmlAttribute {
    type V = (Seq<char>, Seq<char>);

    open spec fn view(&self) -> (Seq<char>, Seq<char>) {
        (self.field@, self.attr_name@)
    }
}

/// A child element nested inside a type's element.
#[derive(Clone, Debug, PartialEq)]
pub struct XmlChild {
    /// The XML element name of the child.
    pub element_name: String,
    /// Where the child's data comes from.
    pub source: XmlChildSource,
}

/// Abstract child element.
pub struct XmlChildView {
    pub element_name: Seq<char>,
    pub source: XmlChildSourceView,
}

impl View for XmlChild {
    type V = XmlChildView;

    open spec fn view(&self) -> XmlChildView {
        XmlChildView { element_name: self.element_name@, source: self.source@ }
    }
}

/// How a primary type is written.
#[derive(Clone, Debug, PartialEq)]
pub struct XmlTypeInfo {
    /// The XML element name (e.g. `person`).
    pub element_name: String,
    /// The section the elements go in (e.g. `people`).
    pub section_name: String,
    /// Attributes written on the element.
    pub attributes: Vec<XmlAttribute>,
    /// Child elements nested inside the element.
    pub children: Vec<XmlChild>,
}

/// Abstract type layout.
pub struct XmlTypeInfoView {
    pub element_name: Seq<char>,
    pub section_name: Seq<char>,
    pub attributes: Seq<(Seq<char>, Seq<char>)>,
    pub children: Seq<XmlChildView>,
}

impl View for XmlTypeInfo {
    type V = XmlTypeInfoView;

    open spec fn view(&self) -> XmlTypeInfoView {
        XmlTypeInfoView {
            element_name: self.element_name@,
            section_name: self.section_name@,
            attributes: self.attributes@.map_values(|a: XmlAttribute| a@),
            children: self.children@.map_values(|c: XmlChild| c@),
        }
    }
}

/// How an edge variant is written.
#[derive(Clone, Debug, PartialEq)]
pub struct XmlEdgeInfo {
    /// The element the edge's element nests inside.
    pub parent_element: String,
    /// The XML element name of the edge (e.g. `eventref`).
    pub element_name: String,
    /// Attribute mappings: (field name, XML attribute name).
    pub attributes: Vec<(String, String)>,
}

/// Abstract edge layout.
pub struct XmlEdgeInfoView {
    pub parent_element: Seq<char>,
    pub element_name: Seq<char>,
    pub attributes: Seq<(Seq<char>, Seq<char>)>,
}

impl View for XmlEdgeInfo {
    type V = XmlEdgeInfoView;

    open spec fn view(&self) -> XmlEdgeInfoView {
        XmlEdgeInfoView {
            parent_element: self.parent_element@,
            element_name: self.element_name@,
            attributes: self.attributes@.map_values(|a: (String, String)| (a.0@, a.1@)),
        }
    }
}

/// The value of the first entry with key `k`.
pub open spec fn table_get<W>(t: Seq<(Seq<char>, W)>, k: Seq<char>) -> Option<W>
    decreases t.len(),
{
    if t.len() == 0 {
        None
    } else {
        match table_get(t.drop_last(), k) {
            Some(w) => Some(w),
            None => if t.last().0 == k {
                Some(t.last().1)
            } else {
                None
            },
        }
    }
}

proof fn lemma_table_get<W>(t: Seq<(Seq<char>, W)>, k: Seq<char>, i: int)
    requires
        0 <= i <= t.len(),
        forall|j: int| 0 <= j < i ==> t[j].0 != k,
    ensures
        i < t.len() && t[i].0 == k ==> table_get(t, k) == Some(t[i].1),
        i == t.len() ==> table_get(t, k) == None::<W>,
    decreases t.len(),
{
    if t.len() > 0 {
        if i == t.len() {
            lemma_table_get(t.drop_last(), k, i - 1);
        } else {
            lemma_table_get(t.drop_last(), k, i);
        }
    }
}

/// A table of values by name, in the order they were added; a lookup
/// finds the first entry with the name.
#[derive(Clone, Debug, PartialEq)]
pub struct NameTable<V> {
    entries: Vec<(String, V)>,
}

impl<V: View> View for NameTable<V> {
    type V = Seq<(Seq<char>, V::V)>;

    closed spec fn view(&self) -> Seq<(Seq<char>, V::V)> {
        self.entries@.map_values(|e: (String, V)| (e.0@, e.1@))
    }
}

impl<V: View> NameTable<V> {
    /// An empty table.
    pub fn new() -> (t: Self)
        ensures
            t@ == Seq::<(Seq<char>, V::V)>::empty(),
    {
        let t = NameTable { entries: Vec::new() };
        assert(t@ =~= Seq::<(Seq<char>, V::V)>::empty());
        t
    }

    /// Add an entry at the end.
    pub fn push(&mut self, name: String, value: V)
        ensures
            final(self)@ == old(self)@.push((name@, value@)),
    {
        let ghost before = self@;
        self.entries.push((name, value));
        assert(self@ =~= before.push((name@, value@)));
    }

    /// Number of entries.
    pub fn len(&self) -> (n: usize)
        ensures
            n == self@.len(),
    {
        self.entries.len()
    }

    /// The value of the first entry named `name`.
    pub fn get(&self, name: &str) -> (r: Option<&V>)
        ensures
            match r {
                Some(v) => table_get(self@, name@) == Some(v@),
                None => table_get(self@, name@) == None::<V::V>,
            },
    {
        let ghost t = self@;
        let key = name.to_owned();
        let mut i: usize = 0;
        while i < self.entries.len()
            invariant
                t == self@,
                key@ == name@,
                i <= self.entries.len(),
                forall|j: int| 0 <= j < i ==> t[j].0 != name@,
            decreases self.entries.len() - i,
        {
            let e = &self.entries[i];
            assert(t[i as int] == (e.0@, e.1@));
            if e.0 == key {
                proof {
                    lemma_table_get(t, name@, i as int);
                }
                return Some(&e.1);
            }
            i = i + 1;
        }
        proof {
            lemma_table_get(t, name@, i as int);
        }
        None
    }

    /// Whether some entry is named `name`.
    pub fn contains_key(&self, name: &str) -> (b: bool)
        ensures
            b == (table_get(self@, name@) is Some),
    {
        self.get(name).is_some()
    }

    /// The entries, in order.
    pub fn entries(&self) -> (r: &Vec<(String, V)>)
        ensures
            r@.map_values(|e: (String, V)| (e.0@, e.1@)) == self@,
    {
        &self.entries
    }
}

/// A copy of a string slice.
fn text(s: &str) -> (r: String)
    ensures
        r@ == s@,
{
    let mut r = String::new();
    push_str(&mut r, s);
    assert(r@ =~= s@);
    r
}

fn attribute(field: &str, attr_name: &str) -> (a: XmlAttribute)
    ensures
        a@ == (field@, attr_name@),
{
    XmlAttribute { field: text(field), attr_name: text(attr_name) }
}

fn child(element_name: &str, source: XmlChildSource) -> (c: XmlChild)
    ensures
        c@ == (XmlChildView { element_name: element_name@, source: source@ }),
{
    XmlChild { element_name: text(element_name), source }
}

fn inline_source(field: &str) -> (s: XmlChildSource)
    ensures
        s@ == XmlChildSourceView::InlineStruct(field@),
{
    XmlChildSource::InlineStruct(text(field))
}

fn array_source(field: &str) -> (s: XmlChildSource)
    ensures
        s@ == XmlChildSourceView::Array(field@),
{
    XmlChildSource::Array(text(field))
}

fn edge_source(edge: &str) -> (s: XmlChildSource)
    ensures
        s@ == XmlChildSourceView::Edge(edge@),
{
    XmlChildSource::Edge(text(edge))
}

/// An edge written as an element with one `hlink` attribute.
fn hlink_edge(parent_element: &str, element_name: &str) -> (e: XmlEdgeInfo)
    ensures
        e@ == (XmlEdgeInfoView {
            parent_element: parent_element@,
            element_name: element_name@,
            attributes: seq![("hlink"@, "hlink"@)],
        }),
{
    let mut attributes: Vec<(String, String)> = Vec::new();
    attributes.push((text("hlink"), text("hlink")));
    let e = XmlEdgeInfo { parent_element: text(parent_element), element_name: text(element_name), attributes };
    assert(e@.attributes =~= seq![("hlink"@, "hlink"@)]);
    e
}

/// An edge written as an element with two attributes.
fn two_attr_edge(parent_element: &str, element_name: &str, f1: &str, a1: &str, f2: &str, a2: &str) -> (e: XmlEdgeInfo)
    ensures
        e@ == (XmlEdgeInfoView {
            parent_element: parent_element@,
            element_name: element_name@,
            attributes: seq![(f1@, a1@), (f2@, a2@)],
        }),
{
    let mut attributes: Vec<(String, String)> = Vec::new();
    attributes.push((text(f1), text(a1)));
    attributes.push((text(f2), text(a2)));
    let e = XmlEdgeInfo { parent_element: text(parent_element), element_name: text(element_name), attributes };
    assert(e@.attributes =~= seq![(f1@, a1@), (f2@, a2@)]);
    e
}

/// How a `Tag` is written: the `<tag>` element in `<tags>`.
pub open spec fn tag_layout() -> XmlTypeInfoView {
    XmlTypeInfoView {
        element_name: "tag"@,
        section_name: "tags"@,
        attributes: seq![("handle"@, "handle"@), ("gramps_id"@, "id"@)],
        children: seq![
            XmlChildView { element_name: "name"@, source: XmlChildSourceView::InlineStruct("name"@) },
            XmlChildView { element_name: "color"@, source: XmlChildSourceView::InlineStruct("color"@) },
            XmlChildView { element_name: "priority"@, source: XmlChildSourceView::InlineStruct("priority"@) },
        ],
    }
}

/// How a `Event` is written: the `<event>` element in `<events>`.
pub open spec fn event_layout() -> XmlTypeInfoView {
    XmlTypeInfoView {
        element_name: "event"@,
        section_name: "events"@,
        attributes: seq![("handle"@, "handle"@), ("gramps_id"@, "id"@)],
        children: seq![
            XmlChildView { element_name: "eventtype"@, source: XmlChildSourceView::InlineStruct("event_type"@) },
            XmlChildView { element_name: "dateval"@, source: XmlChildSourceView::InlineStruct("date"@) },
            XmlChildView { element_name: "description"@, source: XmlChildSourceView::InlineStruct("description"@) },
            XmlChildView { element_name: "place"@, source: XmlChildSourceView::Edge("EventPlace"@) },
            XmlChildView { element_name: "citationref"@, source: XmlChildSourceView::Edge("EventCitation"@) },
            XmlChildView { element_name: "noteref"@, source: XmlChildSourceView::Edge("EventNote"@) },
            XmlChildView { element_name: "mediaref"@, source: XmlChildSourceView::Edge("EventMediaRef"@) },
            XmlChildView { element_name: "tagref"@, source: XmlChildSourceView::Edge("EventTag"@) },
        ],
    }
}

/// How a `Person` is written: the `<person>` element in `<people>`.
pub open spec fn person_layout() -> XmlTypeInfoView {
    XmlTypeInfoView {
        element_name: "person"@,
        section_name: "people"@,
        attributes: seq![("handle"@, "handle"@), ("gramps_id"@, "id"@)],
        children: seq![
            XmlChildView { element_name: "gender"@, source: XmlChildSourceView::InlineStruct("gender"@) },
            XmlChildView { element_name: "name"@, source: XmlChildSourceView::InlineStruct("primary_name"@) },
            XmlChildView { element_name: "name"@, source: XmlChildSourceView::Array("alternate_names"@) },
            XmlChildView { element_name: "eventref"@, source: XmlChildSourceView::Edge("PersonEventRef"@) },
            XmlChildView { element_name: "personref"@, source: XmlChildSourceView::Edge("PersonPersonRef"@) },
            XmlChildView { element_name: "parentin"@, source: XmlChildSourceView::Edge("PersonParentFamily"@) },
            XmlChildView { element_name: "childin"@, source: XmlChildSourceView::Edge("PersonFamily"@) },
            XmlChildView { element_name: "citationref"@, source: XmlChildSourceView::Edge("PersonCitation"@) },
            XmlChildView { element_name: "noteref"@, source: XmlChildSourceView::Edge("PersonNote"@) },
            XmlChildView { element_name: "mediaref"@, source: XmlChildSourceView::Edge("PersonMediaRef"@) },
            XmlChildView { element_name: "tagref"@, source: XmlChildSourceView::Edge("PersonTag"@) },
        ],
    }
}

/// How a `Family` is written: the `<family>` element in `<families>`.
pub open spec fn family_layout() -> XmlTypeInfoView {
    XmlTypeInfoView {
        element_name: "family"@,
        section_name: "families"@,
        attributes: seq![("handle"@, "handle"@), ("gramps_id"@, "id"@)],
        children: seq![
            XmlChildView { element_name: "rel"@, source: XmlChildSourceView::Edge("FamilyRelation"@) },
            XmlChildView { element_name: "father"@, source: XmlChildSourceView::Edge("FamilyFather"@) },
            XmlChildView { element_name: "mother"@, source: XmlChildSourceView::Edge("FamilyMother"@) },
            XmlChildView { element_name: "childref"@, source: XmlChildSourceView::Edge("FamilyChildRef"@) },
            XmlChildView { element_name: "eventref"@, source: XmlChildSourceView::Edge("FamilyEventRef"@) },
            XmlChildView { element_name: "citationref"@, source: XmlChildSourceView::Edge("FamilyCitation"@) },
            XmlChildView { element_name: "noteref"@, source: XmlChildSourceView::Edge("FamilyNote"@) },
            XmlChildView { element_name: "mediaref"@, source: XmlChildSourceView::Edge("FamilyMediaRef"@) },
            XmlChildView { element_name: "tagref"@, source: XmlChildSourceView::Edge("FamilyTag"@) },
        ],
    }
}

/// How a `Citation` is written: the `<citation>` element in `<citations>`.
pub open spec fn citation_layout() -> XmlTypeInfoView {
    XmlTypeInfoView {
        element_name: "citation"@,
        section_name: "citations"@,
        attributes: seq![("handle"@, "handle"@), ("gramps_id"@, "id"@)],
        children: seq![
            XmlChildView { element_name: "confidence"@, source: XmlChildSourceView::InlineStruct("confidence"@) },
            XmlChildView { element_name: "noteref"@, source: XmlChildSourceView::Edge("CitationNote"@) },
            XmlChildView { element_name: "mediaref"@, source: XmlChildSourceView::Edge("CitationMediaRef"@) },
        ],
    }
}

/// How a `Source` is written: the `<source>` element in `<sources>`.
pub open spec fn source_layout() -> XmlTypeInfoView {
    XmlTypeInfoView {
        element_name: "source"@,
        section_name: "sources"@,
        attributes: seq![("handle"@, "handle"@), ("gramps_id"@, "id"@)],
        children: seq![
            XmlChildView { element_name: "stitle"@, source: XmlChildSourceView::InlineStruct("title"@) },
            XmlChildView { element_name: "sabbrev"@, source: XmlChildSourceView::InlineStruct("abbrev"@) },
            XmlChildView { element_name: "reporef"@, source: XmlChildSourceView::Edge("SourceRepoRef"@) },
            XmlChildView { element_name: "noteref"@, source: XmlChildSourceView::Edge("SourceNote"@) },
            XmlChildView { element_name: "mediaref"@, source: XmlChildSourceView::Edge("SourceMediaRef"@) },
        ],
    }
}

/// How a `Place` is written: the `<placeobj>` element in `<places>`.
pub open spec fn place_layout() -> XmlTypeInfoView {
    XmlTypeInfoView {
        element_name: "placeobj"@,
        section_name: "places"@,
        attributes: seq![("handle"@, "handle"@), ("gramps_id"@, "id"@), ("type"@, "type"@)],
        children: seq![
            XmlChildView { element_name: "ptitle"@, source: XmlChildSourceView::InlineStruct("title"@) },
            XmlChildView { element_name: "placeref"@, source: XmlChildSourceView::Edge("PlacePlaceRef"@) },
            XmlChildView { element_name: "noteref"@, source: XmlChildSourceView::Edge("PlaceNote"@) },
            XmlChildView { element_name: "mediaref"@, source: XmlChildSourceView::Edge("PlaceMediaRef"@) },
        ],
    }
}

/// How a `Media` is written: the `<object>` element in `<objects>`.
pub open spec fn media_layout() -> XmlTypeInfoView {
    XmlTypeInfoView {
        element_name: "object"@,
        section_name: "objects"@,
        attributes: seq![("handle"@, "handle"@), ("gramps_id"@, "id"@)],
        children: seq![
            XmlChildView { element_name: "file"@, source: XmlChildSourceView::InlineStruct("file"@) },
            XmlChildView { element_name: "description"@, source: XmlChildSourceView::InlineStruct("description"@) },
            XmlChildView { element_name: "noteref"@, source: XmlChildSourceView::Edge("MediaNote"@) },
            XmlChildView { element_name: "tagref"@, source: XmlChildSourceView::Edge("MediaTag"@) },
        ],
    }
}

/// How a `Repository` is written: the `<repository>` element in `<repositories>`.
pub open spec fn repository_layout() -> XmlTypeInfoView {
    XmlTypeInfoView {
        element_name: "repository"@,
        section_name: "repositories"@,
        attributes: seq![("handle"@, "handle"@), ("gramps_id"@, "id"@)],
        children: seq![
            XmlChildView { element_name: "rname"@, source: XmlChildSourceView::InlineStruct("name"@) },
            XmlChildView { element_name: "noteref"@, source: XmlChildSourceView::Edge("RepositoryNote"@) },
        ],
    }
}

/// How a `Note` is written: the `<note>` element in `<notes>`.
pub open spec fn note_layout() -> XmlTypeInfoView {
    XmlTypeInfoView {
        element_name: "note"@,
        section_name: "notes"@,
        attributes: seq![("handle"@, "handle"@), ("gramps_id"@, "id"@), ("type"@, "type"@), ("format"@, "format"@)],
        children: seq![
            XmlChildView { element_name: "text"@, source: XmlChildSourceView::InlineStruct("text"@) },
            XmlChildView { element_name: "noteref"@, source: XmlChildSourceView::Edge("NoteNoteRef"@) },
            XmlChildView { element_name: "tagref"@, source: XmlChildSourceView::Edge("NoteTag"@) },
        ],
    }
}

/// The primary types and their layouts, in the order they are listed.
pub open spec fn gramps_types() -> Seq<(Seq<char>, XmlTypeInfoView)> {
    seq![
        ("Tag"@, tag_layout()),
        ("Event"@, event_layout()),
        ("Person"@, person_layout()),
        ("Family"@, family_layout()),
        ("Citation"@, citation_layout()),
        ("Source"@, source_layout()),
        ("Place"@, place_layout()),
        ("Media"@, media_layout()),
        ("Repository"@, repository_layout()),
        ("Note"@, note_layout()),
    ]
}

/// The edge variants and how each is written, in the order they are listed.
pub open spec fn gramps_edges() -> Seq<(Seq<char>, XmlEdgeInfoView)> {
    seq![
        ("PersonEventRef"@, XmlEdgeInfoView { parent_element: "person"@, element_name: "eventref"@, attributes: seq![("hlink"@, "hlink"@), ("role"@, "role"@)] }),
        ("FamilyChildRef"@, XmlEdgeInfoView { parent_element: "family"@, element_name: "childref"@, attributes: seq![("hlink"@, "hlink"@), ("relation"@, "rel"@)] }),
        ("FamilyEventRef"@, XmlEdgeInfoView { parent_element: "family"@, element_name: "eventref"@, attributes: seq![("hlink"@, "hlink"@), ("role"@, "role"@)] }),
        ("PersonPersonRef"@, XmlEdgeInfoView { parent_element: "person"@, element_name: "personref"@, attributes: seq![("hlink"@, "hlink"@)] }),
        ("SourceRepoRef"@, XmlEdgeInfoView { parent_element: "source"@, element_name: "reporef"@, attributes: seq![("hlink"@, "hlink"@)] }),
        ("PersonCitation"@, XmlEdgeInfoView { parent_element: "person"@, element_name: "citationref"@, attributes: seq![("hlink"@, "hlink"@)] }),
        ("EventCitation"@, XmlEdgeInfoView { parent_element: "event"@, element_name: "citationref"@, attributes: seq![("hlink"@, "hlink"@)] }),
        ("FamilyCitation"@, XmlEdgeInfoView { parent_element: "family"@, element_name: "citationref"@, attributes: seq![("hlink"@, "hlink"@)] }),
        ("PersonNote"@, XmlEdgeInfoView { parent_element: "person"@, element_name: "noteref"@, attributes: seq![("hlink"@, "hlink"@)] }),
        ("EventNote"@, XmlEdgeInfoView { parent_element: "event"@, element_name: "noteref"@, attributes: seq![("hlink"@, "hlink"@)] }),
        ("FamilyNote"@, XmlEdgeInfoView { parent_element: "family"@, element_name: "noteref"@, attributes: seq![("hlink"@, "hlink"@)] }),
        ("CitationNote"@, XmlEdgeInfoView { parent_element: "citation"@, element_name: "noteref"@, attributes: seq![("hlink"@, "hlink"@)] }),
        ("SourceNote"@, XmlEdgeInfoView { parent_element: "source"@, element_name: "noteref"@, attributes: seq![("hlink"@, "hlink"@)] }),
        ("PlaceNote"@, XmlEdgeInfoView { parent_element: "place"@, element_name: "noteref"@, attributes: seq![("hlink"@, "hlink"@)] }),
        ("MediaNote"@, XmlEdgeInfoView { parent_element: "object"@, element_name: "noteref"@, attributes: seq![("hlink"@, "hlink"@)] }),
        ("RepositoryNote"@, XmlEdgeInfoView { parent_element: "repository"@, element_name: "noteref"@, attributes: seq![("hlink"@, "hlink"@)] }),
        ("NoteNoteRef"@, XmlEdgeInfoView { parent_element: "note"@, element_name: "noteref"@, attributes: seq![("hlink"@, "hlink"@)] }),
        ("PersonMediaRef"@, XmlEdgeInfoView { parent_element: "person"@, element_name: "mediaref"@, attributes: seq![("hlink"@, "hlink"@)] }),
        ("EventMediaRef"@, XmlEdgeInfoView { parent_element: "event"@, element_name: "mediaref"@, attributes: seq![("hlink"@, "hlink"@)] }),
        ("FamilyMediaRef"@, XmlEdgeInfoView { parent_element: "family"@, element_name: "mediaref"@, attributes: seq![("hlink"@, "hlink"@)] }),
        ("CitationMediaRef"@, XmlEdgeInfoView { parent_element: "citation"@, element_name: "mediaref"@, attributes: seq![("hlink"@, "hlink"@)] }),
        ("SourceMediaRef"@, XmlEdgeInfoView { parent_element: "source"@, element_name: "mediaref"@, attributes: seq![("hlink"@, "hlink"@)] }),
        ("PlaceMediaRef"@, XmlEdgeInfoView { parent_element: "place"@, element_name: "mediaref"@, attributes: seq![("hlink"@, "hlink"@)] }),
        ("PersonTag"@, XmlEdgeInfoView { parent_element: "person"@, element_name: "tagref"@, attributes: seq![("hlink"@, "hlink"@)] }),
        ("EventTag"@, XmlEdgeInfoView { parent_element: "event"@, element_name: "tagref"@, attributes: seq![("hlink"@, "hlink"@)] }),
        ("FamilyTag"@, XmlEdgeInfoView { parent_element: "family"@, element_name: "tagref"@, attributes: seq![("hlink"@, "hlink"@)] }),
        ("MediaTag"@, XmlEdgeInfoView { parent_element: "object"@, element_name: "tagref"@, attributes: seq![("hlink"@, "hlink"@)] }),
        ("NoteTag"@, XmlEdgeInfoView { parent_element: "note"@, element_name: "tagref"@, attributes: seq![("hlink"@, "hlink"@)] }),
        ("FamilyFather"@, XmlEdgeInfoView { parent_element: "family"@, element_name: "father"@, attributes: seq![("hlink"@, "hlink"@)] }),
        ("FamilyMother"@, XmlEdgeInfoView { parent_element: "family"@, element_name: "mother"@, attributes: seq![("hlink"@, "hlink"@)] }),
        ("PersonFamily"@, XmlEdgeInfoView { parent_element: "person"@, element_name: "childin"@, attributes: seq![("hlink"@, "hlink"@)] }),
        ("PersonParentFamily"@, XmlEdgeInfoView { parent_element: "person"@, element_name: "parentin"@, attributes: seq![("hlink"@, "hlink"@)] }),
        ("EventPlace"@, XmlEdgeInfoView { parent_element: "event"@, element_name: "place"@, attributes: seq![("hlink"@, "hlink"@)] }),
        ("CitationSource"@, XmlEdgeInfoView { parent_element: "citation"@, element_name: "sourceref"@, attributes: seq![("hlink"@, "hlink"@)] }),
        ("PlacePlaceRef"@, XmlEdgeInfoView { parent_element: "placeobj"@, element_name: "placeref"@, attributes: seq![("hlink"@, "hlink"@)] }),
    ]
}

/// The order of the type sections in a document.
pub open spec fn gramps_sections() -> Seq<Seq<char>> {
    seq!["tags"@, "events"@, "people"@, "families"@, "citations"@, "sources"@, "places"@, "objects"@, "repositories"@, "notes"@]
}

fn tag_info() -> (t: XmlTypeInfo)
    ensures
        t@ == tag_layout(),
{
    let mut attributes: Vec<XmlAttribute> = Vec::new();
    attributes.push(attribute("handle", "handle"));
    attributes.push(attribute("gramps_id", "id"));
    let mut children: Vec<XmlChild> = Vec::new();
    children.push(child("name", inline_source("name")));
    children.push(child("color", inline_source("color")));
    children.push(child("priority", inline_source("priority")));
    let t = XmlTypeInfo { element_name: text("tag"), section_name: text("tags"), attributes, children };
    assert(t@.attributes =~= tag_layout().attributes);
    assert(t@.children =~= tag_layout().children);
    t
}

fn event_info() -> (t: XmlTypeInfo)
    ensures
        t@ == event_layout(),
{
    let mut attributes: Vec<XmlAttribute> = Vec::new();
    attributes.push(attribute("handle", "handle"));
    attributes.push(attribute("gramps_id", "id"));
    let mut children: Vec<XmlChild> = Vec::new();
    children.push(child("eventtype", inline_source("event_type")));
    children.push(child("dateval", inline_source("date")));
    children.push(child("description", inline_source("description")));
    children.push(child("place", edge_source("EventPlace")));
    children.push(child("citationref", edge_source("EventCitation")));
    children.push(child("noteref", edge_source("EventNote")));
    children.push(child("mediaref", edge_source("EventMediaRef")));
    children.push(child("tagref", edge_source("EventTag")));
    let t = XmlTypeInfo { element_name: text("event"), section_name: text("events"), attributes, children };
    assert(t@.attributes =~= event_layout().attributes);
    assert(t@.children =~= event_layout().children);
    t
}

fn person_info() -> (t: XmlTypeInfo)
    ensures
        t@ == person_layout(),
{
    let mut attributes: Vec<XmlAttribute> = Vec::new();
    attributes.push(attribute("handle", "handle"));
    attributes.push(attribute("gramps_id", "id"));
    let mut children: Vec<XmlChild> = Vec::new();
    children.push(child("gender", inline_source("gender")));
    children.push(child("name", inline_source("primary_name")));
    children.push(child("name", array_source("alternate_names")));
    children.push(child("eventref", edge_source("PersonEventRef")));
    children.push(child("personref", edge_source("PersonPersonRef")));
    children.push(child("parentin", edge_source("PersonParentFamily")));
    children.push(child("childin", edge_source("PersonFamily")));
    children.push(child("citationref", edge_source("PersonCitation")));
    children.push(child("noteref", edge_source("PersonNote")));
    children.push(child("mediaref", edge_source("PersonMediaRef")));
    children.push(child("tagref", edge_source("PersonTag")));
    let t = XmlTypeInfo { element_name: text("person"), section_name: text("people"), attributes, children };
    assert(t@.attributes =~= person_layout().attributes);
    assert(t@.children =~= person_layout().children);
    t
}

fn family_info() -> (t: XmlTypeInfo)
    ensures
        t@ == family_layout(),
{
    let mut attributes: Vec<XmlAttribute> = Vec::new();
    attributes.push(attribute("handle", "handle"));
    attributes.push(attribute("gramps_id", "id"));
    let mut children: Vec<XmlChild> = Vec::new();
    children.push(child("rel", edge_source("FamilyRelation")));
    children.push(child("father", edge_source("FamilyFather")));
    children.push(child("mother", edge_source("FamilyMother")));
    children.push(child("childref", edge_source("FamilyChildRef")));
    children.push(child("eventref", edge_source("FamilyEventRef")));
    children.push(child("citationref", edge_source("FamilyCitation")));
    children.push(child("noteref", edge_source("FamilyNote")));
    children.push(child("mediaref", edge_source("FamilyMediaRef")));
    children.push(child("tagref", edge_source("FamilyTag")));
    let t = XmlTypeInfo { element_name: text("family"), section_name: text("families"), attributes, children };
    assert(t@.attributes =~= family_layout().attributes);
    assert(t@.children =~= family_layout().children);
    t
}

fn citation_info() -> (t: XmlTypeInfo)
    ensures
        t@ == citation_layout(),
{
    let mut attributes: Vec<XmlAttribute> = Vec::new();
    attributes.push(attribute("handle", "handle"));
    attributes.push(attribute("gramps_id", "id"));
    let mut children: Vec<XmlChild> = Vec::new();
    children.push(child("confidence", inline_source("confidence")));
    children.push(child("noteref", edge_source("CitationNote")));
    children.push(child("mediaref", edge_source("CitationMediaRef")));
    let t = XmlTypeInfo { element_name: text("citation"), section_name: text("citations"), attributes, children };
    assert(t@.attributes =~= citation_layout().attributes);
    assert(t@.children =~= citation_layout().children);
    t
}

fn source_info() -> (t: XmlTypeInfo)
    ensures
        t@ == source_layout(),
{
    let mut attributes: Vec<XmlAttribute> = Vec::new();
    attributes.push(attribute("handle", "handle"));
    attributes.push(attribute("gramps_id", "id"));
    let mut children: Vec<XmlChild> = Vec::new();
    children.push(child("stitle", inline_source("title")));
    children.push(child("sabbrev", inline_source("abbrev")));
    children.push(child("reporef", edge_source("SourceRepoRef")));
    children.push(child("noteref", edge_source("SourceNote")));
    children.push(child("mediaref", edge_source("SourceMediaRef")));
    let t = XmlTypeInfo { element_name: text("source"), section_name: text("sources"), attributes, children };
    assert(t@.attributes =~= source_layout().attributes);
    assert(t@.children =~= source_layout().children);
    t
}

fn place_info() -> (t: XmlTypeInfo)
    ensures
        t@ == place_layout(),
{
    let mut attributes: Vec<XmlAttribute> = Vec::new();
    attributes.push(attribute("handle", "handle"));
    attributes.push(attribute("gramps_id", "id"));
    attributes.push(attribute("type", "type"));
    let mut children: Vec<XmlChild> = Vec::new();
    children.push(child("ptitle", inline_source("title")));
    children.push(child("placeref", edge_source("PlacePlaceRef")));
    children.push(child("noteref", edge_source("PlaceNote")));
    children.push(child("mediaref", edge_source("PlaceMediaRef")));
    let t = XmlTypeInfo { element_name: text("placeobj"), section_name: text("places"), attributes, children };
    assert(t@.attributes =~= place_layout().attributes);
    assert(t@.children =~= place_layout().children);
    t
}

fn media_info() -> (t: XmlTypeInfo)
    ensures
        t@ == media_layout(),
{
    let mut attributes: Vec<XmlAttribute> = Vec::new();
    attributes.push(attribute("handle", "handle"));
    attributes.push(attribute("gramps_id", "id"));
    let mut children: Vec<XmlChild> = Vec::new();
    children.push(child("file", inline_source("file")));
    children.push(child("description", inline_source("description")));
    children.push(child("noteref", edge_source("MediaNote")));
    children.push(child("tagref", edge_source("MediaTag")));
    let t = XmlTypeInfo { element_name: text("object"), section_name: text("objects"), attributes, children };
    assert(t@.attributes =~= media_layout().attributes);
    assert(t@.children =~= media_layout().children);
    t
}

fn repository_info() -> (t: XmlTypeInfo)
    ensures
        t@ == repository_layout(),
{
    let mut attributes: Vec<XmlAttribute> = Vec::new();
    attributes.push(attribute("handle", "handle"));
    attributes.push(attribute("gramps_id", "id"));
    let mut children: Vec<XmlChild> = Vec::new();
    children.push(child("rname", inline_source("name")));
    children.push(child("noteref", edge_source("RepositoryNote")));
    let t = XmlTypeInfo { element_name: text("repository"), section_name: text("repositories"), attributes, children };
    assert(t@.attributes =~= repository_layout().attributes);
    assert(t@.children =~= repository_layout().children);
    t
}

fn note_info() -> (t: XmlTypeInfo)
    ensures
        t@ == note_layout(),
{
    let mut attributes: Vec<XmlAttribute> = Vec::new();
    attributes.push(attribute("handle", "handle"));
    attributes.push(attribute("gramps_id", "id"));
    attributes.push(attribute("type", "type"));
    attributes.push(attribute("format", "format"));
    let mut children: Vec<XmlChild> = Vec::new();
    children.push(child("text", inline_source("text")));
    children.push(child("noteref", edge_source("NoteNoteRef")));
    children.push(child("tagref", edge_source("NoteTag")));
    let t = XmlTypeInfo { element_name: text("note"), section_name: text("notes"), attributes, children };
    assert(t@.attributes =~= note_layout().attributes);
    assert(t@.children =~= note_layout().children);
    t
}

fn type_table() -> (t: NameTable<XmlTypeInfo>)
    ensures
        t@ == gramps_types(),
{
    let mut t = NameTable::new();
    t.push(text("Tag"), tag_info());
    t.push(text("Event"), event_info());
    t.push(text("Person"), person_info());
    t.push(text("Family"), family_info());
    t.push(text("Citation"), citation_info());
    t.push(text("Source"), source_info());
    t.push(text("Place"), place_info());
    t.push(text("Media"), media_info());
    t.push(text("Repository"), repository_info());
    t.push(text("Note"), note_info());
    assert(t@ =~= gramps_types());
    t
}

fn edge_table() -> (t: NameTable<XmlEdgeInfo>)
    ensures
        t@ == gramps_edges(),
{
    let mut t = NameTable::new();
    t.push(text("PersonEventRef"), two_attr_edge("person", "eventref", "hlink", "hlink", "role", "role"));
    t.push(text("FamilyChildRef"), two_attr_edge("family", "childref", "hlink", "hlink", "relation", "rel"));
    t.push(text("FamilyEventRef"), two_attr_edge("family", "eventref", "hlink", "hlink", "role", "role"));
    t.push(text("PersonPersonRef"), hlink_edge("person", "personref"));
    t.push(text("SourceRepoRef"), hlink_edge("source", "reporef"));
    t.push(text("PersonCitation"), hlink_edge("person", "citationref"));
    t.push(text("EventCitation"), hlink_edge("event", "citationref"));
    t.push(text("FamilyCitation"), hlink_edge("family", "citationref"));
    t.push(text("PersonNote"), hlink_edge("person", "noteref"));
    t.push(text("EventNote"), hlink_edge("event", "noteref"));
    t.push(text("FamilyNote"), hlink_edge("family", "noteref"));
    t.push(text("CitationNote"), hlink_edge("citation", "noteref"));
    t.push(text("SourceNote"), hlink_edge("source", "noteref"));
    t.push(text("PlaceNote"), hlink_edge("place", "noteref"));
    t.push(text("MediaNote"), hlink_edge("object", "noteref"));
    t.push(text("RepositoryNote"), hlink_edge("repository", "noteref"));
    t.push(text("NoteNoteRef"), hlink_edge("note", "noteref"));
    t.push(text("PersonMediaRef"), hlink_edge("person", "mediaref"));
    t.push(text("EventMediaRef"), hlink_edge("event", "mediaref"));
    t.push(text("FamilyMediaRef"), hlink_edge("family", "mediaref"));
    t.push(text("CitationMediaRef"), hlink_edge("citation", "mediaref"));
    t.push(text("SourceMediaRef"), hlink_edge("source", "mediaref"));
    t.push(text("PlaceMediaRef"), hlink_edge("place", "mediaref"));
    t.push(text("PersonTag"), hlink_edge("person", "tagref"));
    t.push(text("EventTag"), hlink_edge("event", "tagref"));
    t.push(text("FamilyTag"), hlink_edge("family", "tagref"));
    t.push(text("MediaTag"), hlink_edge("object", "tagref"));
    t.push(text("NoteTag"), hlink_edge("note", "tagref"));
    t.push(text("FamilyFather"), hlink_edge("family", "father"));
    t.push(text("FamilyMother"), hlink_edge("family", "mother"));
    t.push(text("PersonFamily"), hlink_edge("person", "childin"));
    t.push(text("PersonParentFamily"), hlink_edge("person", "parentin"));
    t.push(text("EventPlace"), hlink_edge("event", "place"));
    t.push(text("CitationSource"), hlink_edge("citation", "sourceref"));
    t.push(text("PlacePlaceRef"), hlink_edge("placeobj", "placeref"));
    assert(t@ =~= gramps_edges());
    t
}

fn section_list() -> (v: Vec<String>)
    ensures
        strings_view(v@) == gramps_sections(),
{
    let mut v: Vec<String> = Vec::new();
    v.push(text("tags"));
    v.push(text("events"));
    v.push(text("people"));
    v.push(text("families"));
    v.push(text("citations"));
    v.push(text("sources"));
    v.push(text("places"));
    v.push(text("objects"));
    v.push(text("repositories"));
    v.push(text("notes"));
    assert(strings_view(v@) =~= gramps_sections());
    v
}
/// Maps the types and edge variants of a genealogy graph to Gramps XML.
#[derive(Clone, Debug, PartialEq)]
pub struct SerializationMap {
    /// How each primary type is written, by type name.
    pub type_map: NameTable<XmlTypeInfo>,
    /// How each edge variant is written, by variant name.
    pub edge_map: NameTable<XmlEdgeInfo>,
    /// The order in which type sections appear in a document.
    pub section_order: Vec<String>,
}

/// Abstract serialization map.
pub struct SerializationMapView {
    pub type_map: Seq<(Seq<char>, XmlTypeInfoView)>,
    pub edge_map: Seq<(Seq<char>, XmlEdgeInfoView)>,
    pub section_order: Seq<Seq<char>>,
}

impl View for SerializationMap {
    type V = SerializationMapView;

    open spec fn view(&self) -> SerializationMapView {
        SerializationMapView {
            type_map: self.type_map@,
            edge_map: self.edge_map@,
            section_order: strings_view(self.section_order@),
        }
    }
}

/// The Gramps XML vocabulary for the ten primary types.
pub open spec fn gramps_map() -> SerializationMapView {
    SerializationMapView {
        type_map: gramps_types(),
        edge_map: gramps_edges(),
        section_order: gramps_sections(),
    }
}

/// Index of the first type layout whose section is `section`.
pub open spec fn section_type(t: Seq<(Seq<char>, XmlTypeInfoView)>, section: Seq<char>) -> Option<int>
    decreases t.len(),
{
    if t.len() == 0 {
        None
    } else {
        match section_type(t.drop_last(), section) {
            Some(i) => Some(i),
            None => if t.last().1.section_name == section {
                Some(t.len() - 1)
            } else {
                None
            },
        }
    }
}

proof fn lemma_section_type(t: Seq<(Seq<char>, XmlTypeInfoView)>, section: Seq<char>, i: int)
    requires
        0 <= i <= t.len(),
        forall|j: int| 0 <= j < i ==> t[j].1.section_name != section,
    ensures
        i < t.len() && t[i].1.section_name == section ==> section_type(t, section) == Some(i),
        i == t.len() ==> section_type(t, section) == None::<int>,
    decreases t.len(),
{
    if t.len() > 0 {
        if i == t.len() {
            lemma_section_type(t.drop_last(), section, i - 1);
        } else {
            lemma_section_type(t.drop_last(), section, i);
        }
    }
}

impl SerializationMap {
    /// The Gramps XML vocabulary for all ten primary types.
    pub fn new() -> (m: Self)
        ensures
            m@ == gramps_map(),
    {
        SerializationMap { type_map: type_table(), edge_map: edge_table(), section_order: section_list() }
    }

    /// The layout of the type whose elements go in `section`, if any.
    pub fn type_for_section(&self, section: &str) -> (r: Option<&XmlTypeInfo>)
        ensures
            match r {
                Some(info) => section_type(self@.type_map, section@) matches Some(i) && self@.type_map[i].1
                    == info@,
                None => section_type(self@.type_map, section@) is None,
            },
    {
        let entries = self.type_map.entries();
        let ghost t = self@.type_map;
        let key = section.to_owned();
        let mut i: usize = 0;
        while i < entries.len()
            invariant
                t == self@.type_map,
                key@ == section@,
                entries@.map_values(|e: (String, XmlTypeInfo)| (e.0@, e.1@)) == t,
                i <= entries.len(),
                forall|j: int| 0 <= j < i ==> t[j].1.section_name != section@,
            decreases entries.len() - i,
        {
            let e = &entries[i];
            assert(t[i as int] == (e.0@, e.1@));
            if e.1.section_name == key {
                proof {
                    lemma_section_type(t, section@, i as int);
                }
                return Some(&e.1);
            }
            i = i + 1;
        }
        proof {
            lemma_section_type(t, section@, i as int);
        }
        None
    }
}

impl Default for SerializationMap {
    fn default() -> (m: Self)
        ensures
            m@ == gramps_map(),
    {
        Self::new()
    }
}


/// The sections come in the order of the types that fill them: the `i`-th
/// section is the section of the `i`-th type, and the type of a section
/// is found by its name.
pub proof fn lemma_sections_follow_types()
    ensures
        gramps_sections().len() == gramps_types().len(),
        forall|i: int|
            0 <= i < gramps_sections().len() ==> #[trigger] gramps_sections()[i] == gramps_types()[i].1.section_name,
        forall|i: int|
            0 <= i < gramps_sections().len() ==> section_type(gramps_types(), #[trigger] gramps_sections()[i])
                is Some,
{
    let t = gramps_types();
    assert forall|i: int| 0 <= i < gramps_sections().len() implies section_type(t, #[trigger] gramps_sections()[i]) is Some by {
        lemma_section_type_found(t, gramps_sections()[i], i);
    }
}

proof fn lemma_section_type_found(t: Seq<(Seq<char>, XmlTypeInfoView)>, section: Seq<char>, i: int)
    requires
        0 <= i < t.len(),
        t[i].1.section_name == section,
    ensures
        section_type(t, section) is Some,
    decreases t.len(),
{
    if i < t.len() - 1 {
        assert(t.drop_last()[i] == t[i]);
        lemma_section_type_found(t.drop_last(), section, i);
    }
}

} // verus!
