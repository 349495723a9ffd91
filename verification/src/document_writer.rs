//! Writing a whole document as Gramps XML from the library's own graph: the
//! objects of each section in the order of the serialization map, each
//! section's objects sorted by handle, each object as its element with its
//! attributes, its own fields (`inline_field`), its alternate names and the
//! elements of its outgoing references.

use vstd::prelude::*;
use crate::graph_names::{
    kw_author, kw_color, kw_desc, kw_description, kw_path, kw_pubinfo, spec_kw_author, spec_kw_color, spec_kw_desc,
    spec_kw_description, spec_kw_path, spec_kw_pubinfo,
};
use crate::graph_scan::{NodeKind, NodeRecord, NodeView};
use crate::inline_fields::{inline_field, inline_field_text, last_field, last_field_of, TypedValues, TypedValuesView};
use crate::serialization_map::{
    section_type, SerializationMap, SerializationMapView, XmlAttribute, XmlChild, XmlChildSource, XmlChildSourceView,
    XmlChildView, XmlTypeInfo, XmlTypeInfoView,
};
use crate::text::{push_str, str_chars, strings_equal};
use crate::xml_writer::{
    document_end_text, document_start_text, escape_xml, escaped, section_text, write_section_text, GraphXmlWriter,
};

verus! {

/// An object to write: its record, the typed values written as they are
/// given, and its alternate names (first name and surname).
#[derive(Debug, Clone)]
pub struct WriteNode {
    pub record: NodeRecord,
    pub typed: TypedValues,
    pub alternate_names: Vec<(String, String)>,
}

pub struct WriteNodeView {
    pub record: NodeView,
    pub typed: TypedValuesView,
    pub alternate_names: Seq<(Seq<char>, Seq<char>)>,
}

impl View for WriteNode {
    type V = WriteNodeView;

    open spec fn view(&self) -> WriteNodeView {
        WriteNodeView {
            record: self.record@,
            typed: self.typed@,
            alternate_names: self.alternate_names@.map_values(|p: (String, String)| (p.0@, p.1@)),
        }
    }
}

/// A reference to write: its variant name (such as `PersonEventRef`), its
/// source and target handles, and the role and relation texts written for
/// event and child references.
#[derive(Debug, Clone)]
pub struct WriteEdge {
    pub variant: String,
    pub source: String,
    pub target: String,
    pub role: String,
    pub relation: String,
}

pub struct WriteEdgeView {
    pub variant: Seq<char>,
    pub source: Seq<char>,
    pub target: Seq<char>,
    pub role: Seq<char>,
    pub relation: Seq<char>,
}

impl View for WriteEdge {
    type V = WriteEdgeView;

    open spec fn view(&self) -> WriteEdgeView {
        WriteEdgeView {
            variant: self.variant@,
            source: self.source@,
            target: self.target@,
            role: self.role@,
            relation: self.relation@,
        }
    }
}

/// A graph to write: its objects and its references, in order.
#[derive(Debug, Clone)]
pub struct WriteGraph {
    pub nodes: Vec<WriteNode>,
    pub edges: Vec<WriteEdge>,
}

pub struct WriteGraphView {
    pub nodes: Seq<WriteNodeView>,
    pub edges: Seq<WriteEdgeView>,
}

impl View for WriteGraph {
    type V = WriteGraphView;

    open spec fn view(&self) -> WriteGraphView {
        WriteGraphView {
            nodes: self.nodes@.map_values(|n: WriteNode| n@),
            edges: self.edges@.map_values(|e: WriteEdge| e@),
        }
    }
}

// ---------------------------------------------------------------------------
// Order of handles
// ---------------------------------------------------------------------------

/// Whether text `a` comes before or equals text `b`, comparing code points
/// from the first (the order of `String`).
pub open spec fn text_le(a: Seq<char>, b: Seq<char>) -> bool
    decreases a.len(),
{
    if a.len() == 0 {
        true
    } else if b.len() == 0 {
        false
    } else if a[0] != b[0] {
        (a[0] as int) < (b[0] as int)
    } else {
        text_le(a.drop_first(), b.drop_first())
    }
}

fn chars_le(a: &[char], b: &[char]) -> (r: bool)
    ensures
        r == text_le(a@, b@),
{
    let mut i: usize = 0;
    assert(a@.skip(0) =~= a@);
    assert(b@.skip(0) =~= b@);
    while i < a.len() && i < b.len()
        invariant
            i <= a.len(),
            i <= b.len(),
            text_le(a@, b@) == text_le(a@.skip(i as int), b@.skip(i as int)),
        decreases a.len() - i,
    {
        assert(a@.skip(i as int)[0] == a@[i as int]);
        assert(b@.skip(i as int)[0] == b@[i as int]);
        if a[i] != b[i] {
            return a[i] < b[i];
        }
        assert(a@.skip(i + 1) =~= a@.skip(i as int).drop_first());
        assert(b@.skip(i + 1) =~= b@.skip(i as int).drop_first());
        i = i + 1;
    }
    i == a.len()
}

/// Whether text `a` comes before or equals text `b` (see `text_le`).
pub fn text_less_or_equal(a: &str, b: &str) -> (r: bool)
    ensures
        r == text_le(a@, b@),
{
    let x = str_chars(a);
    let y = str_chars(b);
    chars_le(x.as_slice(), y.as_slice())
}

/// `x` inserted into `r` after every element whose handle comes before or
/// equals its own, scanning from the end.
pub open spec fn insert_by_handle(r: Seq<WriteNodeView>, x: WriteNodeView) -> Seq<WriteNodeView>
    decreases r.len(),
{
    if r.len() == 0 {
        seq![x]
    } else if text_le(r.last().record.handle, x.record.handle) {
        r.push(x)
    } else {
        insert_by_handle(r.drop_last(), x).push(r.last())
    }
}

/// The objects sorted by handle, equal handles keeping their order (the
/// result of a stable sort by handle).
pub open spec fn sorted_by_handle(s: Seq<WriteNodeView>) -> Seq<WriteNodeView>
    decreases s.len(),
{
    if s.len() == 0 {
        Seq::empty()
    } else {
        insert_by_handle(sorted_by_handle(s.drop_last()), s.last())
    }
}

proof fn lemma_insert_at(r: Seq<WriteNodeView>, x: WriteNodeView, j: int)
    requires
        0 <= j <= r.len(),
        forall|i: int| j <= i < r.len() ==> !text_le(#[trigger] r[i].record.handle, x.record.handle),
        j == 0 || text_le(r[j - 1].record.handle, x.record.handle),
    ensures
        insert_by_handle(r, x) == r.take(j).push(x) + r.skip(j),
    decreases r.len(),
{
    if r.len() == 0 {
        assert(r.take(j).push(x) + r.skip(j) =~= seq![x]);
    } else if j == r.len() {
        assert(r.take(j).push(x) + r.skip(j) =~= r.push(x));
    } else {
        let init = r.drop_last();
        assert(!text_le(r[r.len() - 1].record.handle, x.record.handle));
        assert forall|i: int| j <= i < init.len() implies !text_le(#[trigger] init[i].record.handle, x.record.handle) by {
            assert(init[i] == r[i]);
        }
        if j > 0 {
            assert(init[j - 1] == r[j - 1]);
        }
        lemma_insert_at(init, x, j);
        assert(init.take(j).push(x) + init.skip(j) + seq![r.last()] =~= r.take(j).push(x) + r.skip(j));
    }
}

/// Every text comes before or equals every other, or the other way round.
proof fn lemma_text_le_total(a: Seq<char>, b: Seq<char>)
    ensures
        text_le(a, b) || text_le(b, a),
    decreases a.len(),
{
    if a.len() > 0 && b.len() > 0 {
        if a[0] == b[0] {
            lemma_text_le_total(a.drop_first(), b.drop_first());
        } else {
            assert((a[0] as int) != (b[0] as int));
        }
    }
}

/// The order of texts is transitive.
proof fn lemma_text_le_transitive(a: Seq<char>, b: Seq<char>, c: Seq<char>)
    requires
        text_le(a, b),
        text_le(b, c),
    ensures
        text_le(a, c),
    decreases a.len(),
{
    if a.len() > 0 && b.len() > 0 && c.len() > 0 && a[0] == b[0] && b[0] == c[0] {
        lemma_text_le_transitive(a.drop_first(), b.drop_first(), c.drop_first());
    }
}

/// Whether the objects are in the order of their handles.
pub open spec fn sorted_handles(s: Seq<WriteNodeView>) -> bool {
    forall|i: int, j: int| 0 <= i < j < s.len() ==> text_le(#[trigger] s[i].record.handle, #[trigger] s[j].record.handle)
}

proof fn lemma_insert_keeps(r: Seq<WriteNodeView>, x: WriteNodeView)
    ensures
        insert_by_handle(r, x).to_multiset() == r.to_multiset().insert(x),
        insert_by_handle(r, x).len() == r.len() + 1,
    decreases r.len(),
{
    broadcast use vstd::seq_lib::group_to_multiset_ensures, vstd::multiset::group_multiset_axioms;

    if r.len() == 0 {
        assert(seq![x] =~= r.push(x));
    } else if !text_le(r.last().record.handle, x.record.handle) {
        lemma_insert_keeps(r.drop_last(), x);
        assert(r.drop_last().push(r.last()) =~= r);
        assert(insert_by_handle(r, x).to_multiset() =~= r.to_multiset().insert(x));
    }
}

proof fn lemma_insert_bounded(r: Seq<WriteNodeView>, x: WriteNodeView, b: Seq<char>)
    requires
        forall|i: int| 0 <= i < r.len() ==> text_le(#[trigger] r[i].record.handle, b),
        text_le(x.record.handle, b),
    ensures
        forall|k: int| 0 <= k < insert_by_handle(r, x).len() ==> text_le(#[trigger] insert_by_handle(r, x)[k].record.handle, b),
    decreases r.len(),
{
    lemma_insert_keeps(r, x);
    if r.len() > 0 && !text_le(r.last().record.handle, x.record.handle) {
        let init = r.drop_last();
        assert forall|i: int| 0 <= i < init.len() implies text_le(#[trigger] init[i].record.handle, b) by {
            assert(init[i] == r[i]);
        }
        lemma_insert_bounded(init, x, b);
        lemma_insert_keeps(init, x);
        let ins = insert_by_handle(init, x);
        assert forall|k: int| 0 <= k < insert_by_handle(r, x).len() implies text_le(#[trigger] insert_by_handle(r, x)[k].record.handle, b) by {
            if k < ins.len() {
                assert(insert_by_handle(r, x)[k] == ins[k]);
            } else {
                assert(insert_by_handle(r, x)[k] == r[r.len() - 1]);
            }
        }
    } else if r.len() > 0 {
        assert forall|k: int| 0 <= k < insert_by_handle(r, x).len() implies text_le(#[trigger] insert_by_handle(r, x)[k].record.handle, b) by {
            if k < r.len() {
                assert(insert_by_handle(r, x)[k] == r[k]);
            }
        }
    }
}

proof fn lemma_insert_sorted(r: Seq<WriteNodeView>, x: WriteNodeView)
    requires
        sorted_handles(r),
    ensures
        sorted_handles(insert_by_handle(r, x)),
    decreases r.len(),
{
    lemma_insert_keeps(r, x);
    if r.len() > 0 {
        let last = r.last();
        if text_le(last.record.handle, x.record.handle) {
            let res = r.push(x);
            assert forall|i: int, j: int| 0 <= i < j < res.len() implies text_le(#[trigger] res[i].record.handle, #[trigger] res[j].record.handle) by {
                if j == r.len() {
                    if i < r.len() - 1 {
                        lemma_text_le_transitive(r[i].record.handle, last.record.handle, x.record.handle);
                    }
                } else {
                    assert(res[i] == r[i] && res[j] == r[j]);
                }
            }
        } else {
            let init = r.drop_last();
            assert forall|i: int, j: int| 0 <= i < j < init.len() implies text_le(#[trigger] init[i].record.handle, #[trigger] init[j].record.handle) by {
                assert(init[i] == r[i] && init[j] == r[j]);
            }
            lemma_insert_sorted(init, x);
            lemma_text_le_total(last.record.handle, x.record.handle);
            assert forall|i: int| 0 <= i < init.len() implies text_le(#[trigger] init[i].record.handle, last.record.handle) by {
                assert(init[i] == r[i]);
                assert(r[r.len() - 1] == last);
            }
            lemma_insert_bounded(init, x, last.record.handle);
            lemma_insert_keeps(init, x);
            let ins = insert_by_handle(init, x);
            let res = ins.push(last);
            assert(res == insert_by_handle(r, x));
            assert forall|i: int, j: int| 0 <= i < j < res.len() implies text_le(#[trigger] res[i].record.handle, #[trigger] res[j].record.handle) by {
                if j == ins.len() {
                    assert(res[i] == ins[i]);
                } else {
                    assert(res[i] == ins[i] && res[j] == ins[j]);
                }
            }
        }
    }
}

/// A section's objects are written in the order of their handles, each of
/// them once: the sorted objects are in handle order and hold exactly the
/// objects given.
pub proof fn lemma_sorted_by_handle(s: Seq<WriteNodeView>)
    ensures
        sorted_handles(sorted_by_handle(s)),
        sorted_by_handle(s).to_multiset() == s.to_multiset(),
        sorted_by_handle(s).len() == s.len(),
    decreases s.len(),
{
    broadcast use vstd::seq_lib::group_to_multiset_ensures, vstd::multiset::group_multiset_axioms;

    if s.len() > 0 {
        lemma_sorted_by_handle(s.drop_last());
        lemma_insert_sorted(sorted_by_handle(s.drop_last()), s.last());
        lemma_insert_keeps(sorted_by_handle(s.drop_last()), s.last());
        assert(s.drop_last().push(s.last()) =~= s);
    } else {
        assert(s =~= Seq::<WriteNodeView>::empty());
        assert(sorted_by_handle(s) =~= Seq::<WriteNodeView>::empty());
    }
}

/// The objects `nodes` picked by the indices `idx`, in order.
pub open spec fn picked(nodes: Seq<WriteNodeView>, idx: Seq<usize>) -> Seq<WriteNodeView> {
    idx.map_values(|i: usize| nodes[i as int])
}

/// Insert index `x` into the index list `idx`, sorted by handle.
fn insert_index(nodes: &Vec<WriteNode>, idx: &mut Vec<usize>, x: usize)
    requires
        x < nodes.len(),
        forall|i: int| 0 <= i < old(idx)@.len() ==> old(idx)@[i] < nodes.len(),
    ensures
        forall|i: int| 0 <= i < final(idx)@.len() ==> final(idx)@[i] < nodes.len(),
        picked(nodes@.map_values(|n: WriteNode| n@), final(idx)@) == insert_by_handle(
            picked(nodes@.map_values(|n: WriteNode| n@), old(idx)@),
            nodes@[x as int]@,
        ),
{
    let ghost nv = nodes@.map_values(|n: WriteNode| n@);
    let ghost r = picked(nv, idx@);
    let ghost xv = nv[x as int];
    let mut j: usize = idx.len();
    while j > 0 && !text_less_or_equal(nodes[idx[j - 1]].record.handle.as_str(), nodes[x].record.handle.as_str())
        invariant
            j <= idx.len(),
            idx@ == old(idx)@,
            nv == nodes@.map_values(|n: WriteNode| n@),
            r == picked(nv, idx@),
            xv == nv[x as int],
            x < nodes.len(),
            forall|i: int| 0 <= i < idx@.len() ==> idx@[i] < nodes.len(),
            forall|i: int| j <= i < r.len() ==> !text_le(#[trigger] r[i].record.handle, xv.record.handle),
        decreases j,
    {
        assert(r[j - 1] == nodes@[idx@[j - 1] as int]@);
        j = j - 1;
    }
    proof {
        if j > 0 {
            assert(r[j - 1] == nodes@[idx@[j - 1] as int]@);
        }
        lemma_insert_at(r, xv, j as int);
    }
    idx.insert(j, x);
    assert(picked(nv, idx@) =~= r.take(j as int).push(xv) + r.skip(j as int));
}


// ---------------------------------------------------------------------------
// The objects of a section
// ---------------------------------------------------------------------------

/// The element an object of kind `k` is written as.
pub open spec fn element_of(k: NodeKind) -> Seq<char> {
    match k {
        NodeKind::Person => "person"@,
        NodeKind::Family => "family"@,
        NodeKind::Event => "event"@,
        NodeKind::Place => "placeobj"@,
        NodeKind::Source => "source"@,
        NodeKind::Citation => "citation"@,
        NodeKind::Repository => "repository"@,
        NodeKind::Media => "object"@,
        NodeKind::Note => "note"@,
        NodeKind::Tag => "tag"@,
    }
}

fn element_of_kind(k: NodeKind) -> (r: &'static str)
    ensures
        r@ == element_of(k),
{
    match k {
        NodeKind::Person => "person",
        NodeKind::Family => "family",
        NodeKind::Event => "event",
        NodeKind::Place => "placeobj",
        NodeKind::Source => "source",
        NodeKind::Citation => "citation",
        NodeKind::Repository => "repository",
        NodeKind::Media => "object",
        NodeKind::Note => "note",
        NodeKind::Tag => "tag",
    }
}

/// The objects written as element `el`, in order.
pub open spec fn of_element(s: Seq<WriteNodeView>, el: Seq<char>) -> Seq<WriteNodeView>
    decreases s.len(),
{
    if s.len() == 0 {
        Seq::empty()
    } else if element_of(s.last().record.kind) == el {
        of_element(s.drop_last(), el).push(s.last())
    } else {
        of_element(s.drop_last(), el)
    }
}

/// The indices of the objects written as element `el`, sorted by handle.
fn section_indices(nodes: &Vec<WriteNode>, el: &str) -> (r: Vec<usize>)
    ensures
        forall|i: int| 0 <= i < r@.len() ==> r@[i] < nodes.len(),
        picked(nodes@.map_values(|n: WriteNode| n@), r@) == sorted_by_handle(
            of_element(nodes@.map_values(|n: WriteNode| n@), el@),
        ),
{
    let ghost nv = nodes@.map_values(|n: WriteNode| n@);
    let mut idx: Vec<usize> = Vec::new();
    let mut i: usize = 0;
    assert(nv.take(0) =~= Seq::<WriteNodeView>::empty());
    assert(picked(nv, idx@) =~= Seq::<WriteNodeView>::empty());
    while i < nodes.len()
        invariant
            i <= nodes.len(),
            nv == nodes@.map_values(|n: WriteNode| n@),
            forall|k: int| 0 <= k < idx@.len() ==> idx@[k] < nodes.len(),
            picked(nv, idx@) == sorted_by_handle(of_element(nv.take(i as int), el@)),
        decreases nodes.len() - i,
    {
        assert(nv.take(i + 1).drop_last() =~= nv.take(i as int));
        assert(nv.take(i + 1).last() == nv[i as int]);
        let e = element_of_kind(nodes[i].record.kind);
        if strings_equal(e, el) {
            let ghost before = of_element(nv.take(i as int), el@);
            insert_index(nodes, &mut idx, i);
            assert(before.push(nv[i as int]).drop_last() =~= before);
        }
        i = i + 1;
    }
    assert(nv.take(nodes.len() as int) =~= nv);
    idx
}

// ---------------------------------------------------------------------------
// The element of an object
// ---------------------------------------------------------------------------

/// The value of the field `field` written as an attribute: the handle, the
/// id when there is one, nothing for other fields.
pub open spec fn attr_value(n: WriteNodeView, field: Seq<char>) -> Option<Seq<char>> {
    if field == "handle"@ {
        Some(n.record.handle)
    } else if field == "gramps_id"@ {
        n.record.gramps_id
    } else {
        None
    }
}

/// The attributes of an object's start tag: ` name="value"` for each
/// attribute whose field has a value, escaped.
pub open spec fn attrs_text(n: WriteNodeView, attrs: Seq<(Seq<char>, Seq<char>)>) -> Seq<char>
    decreases attrs.len(),
{
    if attrs.len() == 0 {
        Seq::empty()
    } else {
        attrs_text(n, attrs.drop_last()) + match attr_value(n, attrs.last().0) {
            Some(v) => " "@ + attrs.last().1 + "=\""@ + escaped(v) + "\""@,
            None => Seq::<char>::empty(),
        }
    }
}

/// The references from handle `h` of variant `v`, in order.
pub open spec fn edges_from(es: Seq<WriteEdgeView>, h: Seq<char>, v: Seq<char>) -> Seq<WriteEdgeView>
    decreases es.len(),
{
    if es.len() == 0 {
        Seq::empty()
    } else if es.last().source == h && es.last().variant == v {
        edges_from(es.drop_last(), h, v).push(es.last())
    } else {
        edges_from(es.drop_last(), h, v)
    }
}

/// Whether a reference element `el` is written with its target alone.
pub open spec fn plain_ref_element(el: Seq<char>) -> bool {
    el == "childin"@ || el == "parentin"@ || el == "father"@ || el == "mother"@ || el == "place"@
        || el == "sourceref"@ || el == "placeref"@ || el == "citationref"@ || el == "noteref"@
        || el == "mediaref"@ || el == "tagref"@ || el == "personref"@ || el == "reporef"@
}

/// The line written for reference `e` as element `el`: its target, with
/// the role for `eventref` and the relation for `childref`; nothing for
/// other elements.
pub open spec fn edge_line(el: Seq<char>, e: WriteEdgeView) -> Seq<char> {
    if plain_ref_element(el) {
        "      <"@ + el + " hlink=\""@ + escaped(e.target) + "\"/>\n"@
    } else if el == "eventref"@ {
        "      <"@ + el + " hlink=\""@ + escaped(e.target) + "\"><role>"@ + escaped(e.role) + "</role></"@ + el
            + ">\n"@
    } else if el == "childref"@ {
        "      <"@ + el + " hlink=\""@ + escaped(e.target) + "\" rel=\""@ + escaped(e.relation) + "\"/>\n"@
    } else {
        Seq::empty()
    }
}

/// The lines of references `es` as element `el`.
pub open spec fn edge_lines(el: Seq<char>, es: Seq<WriteEdgeView>) -> Seq<char>
    decreases es.len(),
{
    if es.len() == 0 {
        Seq::empty()
    } else {
        edge_lines(el, es.drop_last()) + edge_line(el, es.last())
    }
}

/// The lines of alternate names as element `el`.
pub open spec fn name_lines(el: Seq<char>, names: Seq<(Seq<char>, Seq<char>)>) -> Seq<char>
    decreases names.len(),
{
    if names.len() == 0 {
        Seq::empty()
    } else {
        name_lines(el, names.drop_last()) + "      <"@ + el + "><first>"@ + escaped(names.last().0)
            + "</first><surname>"@ + escaped(names.last().1) + "</surname></"@ + el + ">\n"@
    }
}

/// Whether an object has a value for the inline field `field`.
pub open spec fn has_inline(n: WriteNodeView, field: Seq<char>) -> bool {
    let k = n.record.kind;
    let f = n.record.fields;
    if field == "gender"@ {
        k == NodeKind::Person
    } else if field == "primary_name"@ || field == "event_type"@ {
        true
    } else if field == "date"@ {
        k == NodeKind::Event && n.record.date is Some
    } else if field == "description"@ {
        (k == NodeKind::Event && last_field(f, spec_kw_description()) is Some) || (k == NodeKind::Media
            && last_field(f, spec_kw_desc()) is Some)
    } else if field == "name"@ {
        k == NodeKind::Tag || k == NodeKind::Repository
    } else if field == "color"@ {
        k == NodeKind::Tag && last_field(f, spec_kw_color()) is Some
    } else if field == "priority"@ {
        k == NodeKind::Tag && n.typed.tag_priority is Some
    } else if field == "confidence"@ {
        k == NodeKind::Citation && n.typed.confidence is Some
    } else if field == "title"@ {
        k == NodeKind::Source || k == NodeKind::Place
    } else if field == "abbrev"@ {
        k == NodeKind::Source && (last_field(f, spec_kw_author()) is Some || last_field(f, spec_kw_pubinfo()) is Some)
    } else if field == "file"@ {
        k == NodeKind::Media && last_field(f, spec_kw_path()) is Some
    } else if field == "text"@ {
        k == NodeKind::Note
    } else if field == "format"@ {
        k == NodeKind::Note && n.typed.note_format is Some
    } else {
        false
    }
}

/// Whether the child `c` of an object's layout has something to write.
pub open spec fn has_child(n: WriteNodeView, c: XmlChildView, es: Seq<WriteEdgeView>) -> bool {
    match c.source {
        XmlChildSourceView::InlineStruct(f) => has_inline(n, f),
        XmlChildSourceView::Array(f) => f == "alternate_names"@ && n.record.kind == NodeKind::Person
            && n.alternate_names.len() > 0,
        XmlChildSourceView::Edge(v) => edges_from(es, n.record.handle, v).len() > 0,
    }
}

/// Whether any child of an object's layout has something to write.
pub open spec fn has_children(n: WriteNodeView, cs: Seq<XmlChildView>, es: Seq<WriteEdgeView>) -> bool
    decreases cs.len(),
{
    if cs.len() == 0 {
        false
    } else {
        has_children(n, cs.drop_last(), es) || has_child(n, cs.last(), es)
    }
}

/// The text written for the child `c` of an object's layout.
pub open spec fn child_text(n: WriteNodeView, c: XmlChildView, es: Seq<WriteEdgeView>) -> Seq<char> {
    match c.source {
        XmlChildSourceView::InlineStruct(f) => inline_field(n.record, c.element_name, f, n.typed),
        XmlChildSourceView::Array(_) => if c.element_name == "name"@ && n.record.kind == NodeKind::Person {
            name_lines("name"@, n.alternate_names)
        } else {
            Seq::empty()
        },
        XmlChildSourceView::Edge(v) => edge_lines(c.element_name, edges_from(es, n.record.handle, v)),
    }
}

/// The text written for the children of an object's layout, in order.
pub open spec fn children_text(n: WriteNodeView, cs: Seq<XmlChildView>, es: Seq<WriteEdgeView>) -> Seq<char>
    decreases cs.len(),
{
    if cs.len() == 0 {
        Seq::empty()
    } else {
        children_text(n, cs.drop_last(), es) + child_text(n, cs.last(), es)
    }
}

/// The element of an object with the layout `t`: its start tag with the
/// attributes, then, when a child has something to write, the children's
/// lines and the end tag; otherwise an empty-element tag.
pub open spec fn node_element(n: WriteNodeView, t: XmlTypeInfoView, es: Seq<WriteEdgeView>) -> Seq<char> {
    "<"@ + t.element_name + attrs_text(n, t.attributes) + if t.children.len() > 0 && has_children(
        n,
        t.children,
        es,
    ) {
        ">\n"@ + children_text(n, t.children, es) + "    </"@ + t.element_name + ">"@
    } else {
        "/>"@
    }
}

fn push_attrs(s: &mut String, n: &WriteNode, attrs: &Vec<XmlAttribute>)
    ensures
        final(s)@ == old(s)@ + attrs_text(n@, attrs@.map_values(|a: XmlAttribute| a@)),
{
    let ghost av = attrs@.map_values(|a: XmlAttribute| a@);
    let ghost start = s@;
    let mut i: usize = 0;
    assert(av.take(0) =~= Seq::<(Seq<char>, Seq<char>)>::empty());
    assert(s@ =~= start + attrs_text(n@, av.take(0)));
    while i < attrs.len()
        invariant
            i <= attrs.len(),
            av == attrs@.map_values(|a: XmlAttribute| a@),
            s@ == start + attrs_text(n@, av.take(i as int)),
        decreases attrs.len() - i,
    {
        assert(av.take(i + 1).drop_last() =~= av.take(i as int));
        assert(av.take(i + 1).last() == attrs@[i as int]@);
        let a = &attrs[i];
        let value: Option<String> = if strings_equal(a.field.as_str(), "handle") {
            Some(n.record.handle.clone())
        } else if strings_equal(a.field.as_str(), "gramps_id") {
            n.record.gramps_id.clone()
        } else {
            None
        };
        let ghost before = s@;
        match value {
            Some(v) => {
                push_str(s, " ");
                push_str(s, a.attr_name.as_str());
                push_str(s, "=\"");
                let e = escape_xml(v.as_str());
                push_str(s, e.as_str());
                push_str(s, "\"");
                assert(s@ =~= before + (" "@ + a.attr_name@ + "=\""@ + escaped(v@) + "\""@));
            },
            None => {
                assert(s@ =~= before + Seq::<char>::empty());
            },
        }
        assert(s@ =~= start + attrs_text(n@, av.take(i + 1)));
        i = i + 1;
    }
    assert(av.take(attrs.len() as int) =~= av);
}

fn is_plain_ref_element(el: &str) -> (b: bool)
    ensures
        b == plain_ref_element(el@),
{
    strings_equal(el, "childin") || strings_equal(el, "parentin") || strings_equal(el, "father") || strings_equal(
        el,
        "mother",
    ) || strings_equal(el, "place") || strings_equal(el, "sourceref") || strings_equal(el, "placeref")
        || strings_equal(el, "citationref") || strings_equal(el, "noteref") || strings_equal(el, "mediaref")
        || strings_equal(el, "tagref") || strings_equal(el, "personref") || strings_equal(el, "reporef")
}

fn push_edge_line(s: &mut String, el: &str, e: &WriteEdge)
    ensures
        final(s)@ == old(s)@ + edge_line(el@, e@),
{
    let ghost before = s@;
    if is_plain_ref_element(el) {
        push_str(s, "      <");
        push_str(s, el);
        push_str(s, " hlink=\"");
        let t = escape_xml(e.target.as_str());
        push_str(s, t.as_str());
        push_str(s, "\"/>\n");
        assert(s@ =~= before + edge_line(el@, e@));
    } else if strings_equal(el, "eventref") {
        push_str(s, "      <");
        push_str(s, el);
        push_str(s, " hlink=\"");
        let t = escape_xml(e.target.as_str());
        push_str(s, t.as_str());
        push_str(s, "\"><role>");
        let r = escape_xml(e.role.as_str());
        push_str(s, r.as_str());
        push_str(s, "</role></");
        push_str(s, el);
        push_str(s, ">\n");
        assert(s@ =~= before + edge_line(el@, e@));
    } else if strings_equal(el, "childref") {
        push_str(s, "      <");
        push_str(s, el);
        push_str(s, " hlink=\"");
        let t = escape_xml(e.target.as_str());
        push_str(s, t.as_str());
        push_str(s, "\" rel=\"");
        let r = escape_xml(e.relation.as_str());
        push_str(s, r.as_str());
        push_str(s, "\"/>\n");
        assert(s@ =~= before + edge_line(el@, e@));
    } else {
        assert(s@ =~= before + edge_line(el@, e@));
    }
}

fn push_edge_lines(s: &mut String, el: &str, edges: &Vec<WriteEdge>, h: &str, v: &str)
    ensures
        final(s)@ == old(s)@ + edge_lines(el@, edges_from(edges@.map_values(|e: WriteEdge| e@), h@, v@)),
{
    let ghost ev = edges@.map_values(|e: WriteEdge| e@);
    let ghost start = s@;
    let mut i: usize = 0;
    assert(ev.take(0) =~= Seq::<WriteEdgeView>::empty());
    assert(s@ =~= start + edge_lines(el@, edges_from(ev.take(0), h@, v@)));
    while i < edges.len()
        invariant
            i <= edges.len(),
            ev == edges@.map_values(|e: WriteEdge| e@),
            s@ == start + edge_lines(el@, edges_from(ev.take(i as int), h@, v@)),
        decreases edges.len() - i,
    {
        assert(ev.take(i + 1).drop_last() =~= ev.take(i as int));
        assert(ev.take(i + 1).last() == edges@[i as int]@);
        let e = &edges[i];
        if strings_equal(e.source.as_str(), h) && strings_equal(e.variant.as_str(), v) {
            let ghost prev = edges_from(ev.take(i as int), h@, v@);
            push_edge_line(s, el, e);
            assert(prev.push(e@).drop_last() =~= prev);
        }
        i = i + 1;
    }
    assert(ev.take(edges.len() as int) =~= ev);
}

fn has_edges(edges: &Vec<WriteEdge>, h: &str, v: &str) -> (b: bool)
    ensures
        b == (edges_from(edges@.map_values(|e: WriteEdge| e@), h@, v@).len() > 0),
{
    let ghost ev = edges@.map_values(|e: WriteEdge| e@);
    let mut i: usize = 0;
    assert(ev.take(0) =~= Seq::<WriteEdgeView>::empty());
    while i < edges.len()
        invariant
            i <= edges.len(),
            ev == edges@.map_values(|e: WriteEdge| e@),
            edges_from(ev.take(i as int), h@, v@).len() == 0,
        decreases edges.len() - i,
    {
        assert(ev.take(i + 1).drop_last() =~= ev.take(i as int));
        assert(ev.take(i + 1).last() == edges@[i as int]@);
        let e = &edges[i];
        if strings_equal(e.source.as_str(), h) && strings_equal(e.variant.as_str(), v) {
            proof {
                lemma_edges_from_grows(ev, h@, v@, i as int + 1);
            }
            return true;
        }
        i = i + 1;
    }
    assert(ev.take(edges.len() as int) =~= ev);
    false
}

proof fn lemma_edges_from_grows(es: Seq<WriteEdgeView>, h: Seq<char>, v: Seq<char>, k: int)
    requires
        0 <= k <= es.len(),
    ensures
        edges_from(es.take(k), h, v).len() <= edges_from(es, h, v).len(),
    decreases es.len() - k,
{
    if k < es.len() {
        lemma_edges_from_grows(es, h, v, k + 1);
        assert(es.take(k + 1).drop_last() =~= es.take(k));
    } else {
        assert(es.take(k) =~= es);
    }
}

fn push_name_lines(s: &mut String, names: &Vec<(String, String)>)
    ensures
        final(s)@ == old(s)@ + name_lines("name"@, names@.map_values(|p: (String, String)| (p.0@, p.1@))),
{
    let ghost nv = names@.map_values(|p: (String, String)| (p.0@, p.1@));
    let ghost start = s@;
    let mut i: usize = 0;
    assert(nv.take(0) =~= Seq::<(Seq<char>, Seq<char>)>::empty());
    assert(s@ =~= start + name_lines("name"@, nv.take(0)));
    while i < names.len()
        invariant
            i <= names.len(),
            nv == names@.map_values(|p: (String, String)| (p.0@, p.1@)),
            s@ == start + name_lines("name"@, nv.take(i as int)),
        decreases names.len() - i,
    {
        assert(nv.take(i + 1).drop_last() =~= nv.take(i as int));
        assert(nv.take(i + 1).last() == (names@[i as int].0@, names@[i as int].1@));
        let ghost before = s@;
        let el = "name";
        push_str(s, "      <");
        push_str(s, el);
        push_str(s, "><first>");
        let f = escape_xml(names[i].0.as_str());
        push_str(s, f.as_str());
        push_str(s, "</first><surname>");
        let l = escape_xml(names[i].1.as_str());
        push_str(s, l.as_str());
        push_str(s, "</surname></");
        push_str(s, el);
        push_str(s, ">\n");
        assert(s@ =~= start + name_lines("name"@, nv.take(i + 1)));
        i = i + 1;
    }
    assert(nv.take(names.len() as int) =~= nv);
}

fn has_inline_value(n: &WriteNode, field: &str) -> (b: bool)
    ensures
        b == has_inline(n@, field@),
{
    let k = n.record.kind;
    if strings_equal(field, "gender") {
        k == NodeKind::Person
    } else if strings_equal(field, "primary_name") || strings_equal(field, "event_type") {
        true
    } else if strings_equal(field, "date") {
        k == NodeKind::Event && n.record.date.is_some()
    } else if strings_equal(field, "description") {
        (k == NodeKind::Event && last_field_of(&n.record, kw_description().as_slice()).is_some()) || (k
            == NodeKind::Media && last_field_of(&n.record, kw_desc().as_slice()).is_some())
    } else if strings_equal(field, "name") {
        k == NodeKind::Tag || k == NodeKind::Repository
    } else if strings_equal(field, "color") {
        k == NodeKind::Tag && last_field_of(&n.record, kw_color().as_slice()).is_some()
    } else if strings_equal(field, "priority") {
        k == NodeKind::Tag && n.typed.tag_priority.is_some()
    } else if strings_equal(field, "confidence") {
        k == NodeKind::Citation && n.typed.confidence.is_some()
    } else if strings_equal(field, "title") {
        k == NodeKind::Source || k == NodeKind::Place
    } else if strings_equal(field, "abbrev") {
        k == NodeKind::Source && (last_field_of(&n.record, kw_author().as_slice()).is_some() || last_field_of(
            &n.record,
            kw_pubinfo().as_slice(),
        ).is_some())
    } else if strings_equal(field, "file") {
        k == NodeKind::Media && last_field_of(&n.record, kw_path().as_slice()).is_some()
    } else if strings_equal(field, "text") {
        k == NodeKind::Note
    } else if strings_equal(field, "format") {
        k == NodeKind::Note && n.typed.note_format.is_some()
    } else {
        false
    }
}

fn has_child_value(n: &WriteNode, c: &XmlChild, edges: &Vec<WriteEdge>) -> (b: bool)
    ensures
        b == has_child(n@, c@, edges@.map_values(|e: WriteEdge| e@)),
{
    match &c.source {
        XmlChildSource::InlineStruct(f) => has_inline_value(n, f.as_str()),
        XmlChildSource::Array(f) => strings_equal(f.as_str(), "alternate_names") && n.record.kind == NodeKind::Person
            && n.alternate_names.len() > 0,
        XmlChildSource::Edge(v) => has_edges(edges, n.record.handle.as_str(), v.as_str()),
    }
}

fn any_child(n: &WriteNode, cs: &Vec<XmlChild>, edges: &Vec<WriteEdge>) -> (b: bool)
    ensures
        b == has_children(n@, cs@.map_values(|c: XmlChild| c@), edges@.map_values(|e: WriteEdge| e@)),
{
    let ghost cv = cs@.map_values(|c: XmlChild| c@);
    let ghost ev = edges@.map_values(|e: WriteEdge| e@);
    let mut i: usize = 0;
    assert(cv.take(0) =~= Seq::<XmlChildView>::empty());
    while i < cs.len()
        invariant
            i <= cs.len(),
            cv == cs@.map_values(|c: XmlChild| c@),
            ev == edges@.map_values(|e: WriteEdge| e@),
            !has_children(n@, cv.take(i as int), ev),
        decreases cs.len() - i,
    {
        assert(cv.take(i + 1).drop_last() =~= cv.take(i as int));
        assert(cv.take(i + 1).last() == cs@[i as int]@);
        if has_child_value(n, &cs[i], edges) {
            proof {
                lemma_has_children_grows(n@, cv, ev, i as int + 1);
            }
            return true;
        }
        i = i + 1;
    }
    assert(cv.take(cs.len() as int) =~= cv);
    false
}

proof fn lemma_has_children_grows(n: WriteNodeView, cs: Seq<XmlChildView>, es: Seq<WriteEdgeView>, k: int)
    requires
        0 <= k <= cs.len(),
        has_children(n, cs.take(k), es),
    ensures
        has_children(n, cs, es),
    decreases cs.len() - k,
{
    if k < cs.len() {
        assert(cs.take(k + 1).drop_last() =~= cs.take(k));
        lemma_has_children_grows(n, cs, es, k + 1);
    } else {
        assert(cs.take(k) =~= cs);
    }
}

fn push_child(s: &mut String, n: &WriteNode, c: &XmlChild, edges: &Vec<WriteEdge>)
    ensures
        final(s)@ == old(s)@ + child_text(n@, c@, edges@.map_values(|e: WriteEdge| e@)),
{
    let ghost before = s@;
    match &c.source {
        XmlChildSource::InlineStruct(f) => {
            let t = inline_field_text(&n.record, c.element_name.as_str(), f.as_str(), &n.typed);
            push_str(s, t.as_str());
        },
        XmlChildSource::Array(_) => {
            if strings_equal(c.element_name.as_str(), "name") && n.record.kind == NodeKind::Person {
                push_name_lines(s, &n.alternate_names);
            } else {
                assert(s@ =~= before + Seq::<char>::empty());
            }
        },
        XmlChildSource::Edge(v) => {
            push_edge_lines(s, c.element_name.as_str(), edges, n.record.handle.as_str(), v.as_str());
        },
    }
}

fn push_children(s: &mut String, n: &WriteNode, cs: &Vec<XmlChild>, edges: &Vec<WriteEdge>)
    ensures
        final(s)@ == old(s)@ + children_text(n@, cs@.map_values(|c: XmlChild| c@), edges@.map_values(|e: WriteEdge| e@)),
{
    let ghost cv = cs@.map_values(|c: XmlChild| c@);
    let ghost ev = edges@.map_values(|e: WriteEdge| e@);
    let ghost start = s@;
    let mut i: usize = 0;
    assert(cv.take(0) =~= Seq::<XmlChildView>::empty());
    assert(s@ =~= start + children_text(n@, cv.take(0), ev));
    while i < cs.len()
        invariant
            i <= cs.len(),
            cv == cs@.map_values(|c: XmlChild| c@),
            ev == edges@.map_values(|e: WriteEdge| e@),
            s@ == start + children_text(n@, cv.take(i as int), ev),
        decreases cs.len() - i,
    {
        assert(cv.take(i + 1).drop_last() =~= cv.take(i as int));
        assert(cv.take(i + 1).last() == cs@[i as int]@);
        push_child(s, n, &cs[i], edges);
        assert(s@ =~= start + children_text(n@, cv.take(i + 1), ev));
        i = i + 1;
    }
    assert(cv.take(cs.len() as int) =~= cv);
}

/// The element of the object `n` with the layout `t` (see `node_element`).
pub fn node_element_text(n: &WriteNode, t: &XmlTypeInfo, edges: &Vec<WriteEdge>) -> (r: String)
    ensures
        r@ == node_element(n@, t@, edges@.map_values(|e: WriteEdge| e@)),
{
    let mut s = String::new();
    push_str(&mut s, "<");
    push_str(&mut s, t.element_name.as_str());
    push_attrs(&mut s, n, &t.attributes);
    let ghost head = s@;
    if t.children.len() > 0 && any_child(n, &t.children, edges) {
        push_str(&mut s, ">\n");
        push_children(&mut s, n, &t.children, edges);
        push_str(&mut s, "    </");
        push_str(&mut s, t.element_name.as_str());
        push_str(&mut s, ">");
    } else {
        push_str(&mut s, "/>");
    }
    assert(s@ =~= node_element(n@, t@, edges@.map_values(|e: WriteEdge| e@)));
    s
}

// ---------------------------------------------------------------------------
// Sections and documents
// ---------------------------------------------------------------------------

/// The elements of the objects written with the layout `t`, sorted by
/// handle.
pub open spec fn section_elements(g: WriteGraphView, t: XmlTypeInfoView) -> Seq<Seq<char>> {
    sorted_by_handle(of_element(g.nodes, t.element_name)).map_values(|n: WriteNodeView| node_element(n, t, g.edges))
}

/// The text of the section `section`: nothing when no layout of the map
/// fills it or it has no objects.
pub open spec fn section_of(m: SerializationMapView, g: WriteGraphView, section: Seq<char>) -> Seq<char> {
    match section_type(m.type_map, section) {
        Some(i) => section_text(section, section_elements(g, m.type_map[i].1)),
        None => Seq::empty(),
    }
}

/// The texts of the sections `secs`, in order.
pub open spec fn sections_text(m: SerializationMapView, g: WriteGraphView, secs: Seq<Seq<char>>) -> Seq<char>
    decreases secs.len(),
{
    if secs.len() == 0 {
        Seq::empty()
    } else {
        sections_text(m, g, secs.drop_last()) + section_of(m, g, secs.last())
    }
}

/// The text of the section `section` of the graph (see `section_of`).
pub fn write_section(m: &SerializationMap, g: &WriteGraph, section: &str) -> (r: String)
    ensures
        r@ == section_of(m@, g@, section@),
{
    match m.type_for_section(section) {
        None => String::new(),
        Some(t) => {
            let ghost nv = g.nodes@.map_values(|n: WriteNode| n@);
            let ghost ev = g.edges@.map_values(|e: WriteEdge| e@);
            let idx = section_indices(&g.nodes, t.element_name.as_str());
            let ghost sorted = picked(nv, idx@);
            let ghost want = sorted.map_values(|n: WriteNodeView| node_element(n, t@, ev));
            let mut elements: Vec<String> = Vec::new();
            let mut k: usize = 0;
            while k < idx.len()
                invariant
                    k <= idx.len(),
                    nv == g.nodes@.map_values(|n: WriteNode| n@),
                    ev == g.edges@.map_values(|e: WriteEdge| e@),
                    sorted == picked(nv, idx@),
                    want == sorted.map_values(|n: WriteNodeView| node_element(n, t@, ev)),
                    forall|i: int| 0 <= i < idx@.len() ==> idx@[i] < g.nodes.len(),
                    elements@.map_values(|e: String| e@) == want.take(k as int),
                decreases idx.len() - k,
            {
                let e = node_element_text(&g.nodes[idx[k]], t, &g.edges);
                assert(sorted[k as int] == nv[idx@[k as int] as int]);
                assert(nv[idx@[k as int] as int] == g.nodes@[idx@[k as int] as int]@);
                assert(want[k as int] == node_element(sorted[k as int], t@, ev));
                assert(e@ == want[k as int]);
                let ghost before = elements@.map_values(|e: String| e@);
                elements.push(e);
                assert(elements@.map_values(|e: String| e@) =~= before.push(want[k as int]));
                assert(want.take(k + 1) =~= want.take(k as int).push(want[k as int]));
                assert(elements@.map_values(|e: String| e@) =~= want.take(k + 1));
                k = k + 1;
            }
            assert(want.take(idx.len() as int) =~= want);
            write_section_text(section, &elements)
        },
    }
}

/// The text of the sections `secs` of the graph, in order (see
/// `sections_text`).
pub fn write_sections(m: &SerializationMap, g: &WriteGraph, secs: &Vec<String>) -> (r: String)
    ensures
        r@ == sections_text(m@, g@, secs@.map_values(|s: String| s@)),
{
    let ghost sv = secs@.map_values(|s: String| s@);
    let mut r = String::new();
    let mut i: usize = 0;
    assert(sv.take(0) =~= Seq::<Seq<char>>::empty());
    assert(r@ =~= sections_text(m@, g@, sv.take(0)));
    while i < secs.len()
        invariant
            i <= secs.len(),
            sv == secs@.map_values(|s: String| s@),
            r@ == sections_text(m@, g@, sv.take(i as int)),
        decreases secs.len() - i,
    {
        assert(sv.take(i + 1).drop_last() =~= sv.take(i as int));
        assert(sv.take(i + 1).last() == secs@[i as int]@);
        let t = write_section(m, g, secs[i].as_str());
        push_str(&mut r, t.as_str());
        assert(r@ =~= sections_text(m@, g@, sv.take(i + 1)));
        i = i + 1;
    }
    assert(sv.take(secs.len() as int) =~= sv);
    r
}

/// The text of a whole document for the graph written by `w`: the
/// declaration and header, the sections in the map's order, and the end.
pub open spec fn document_text(w: GraphXmlWriter, g: WriteGraphView) -> Seq<char> {
    document_start_text(w.namespace_view(), w.date_view(), w.version_view()) + sections_text(
        w.map_view(),
        g,
        w.map_view().section_order,
    ) + document_end_text()
}

impl GraphXmlWriter {
    /// The whole document for the graph (see `document_text`).
    pub fn write(&self, g: &WriteGraph) -> (r: String)
        ensures
            r@ == document_text(*self, g@),
    {
        let mut r = self.document_start();
        let m = self.map();
        let body = write_sections(m, g, &m.section_order);
        push_str(&mut r, body.as_str());
        let end = self.document_end();
        push_str(&mut r, end.as_str());
        r
    }
}

} // verus!
