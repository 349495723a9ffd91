//! Handle-based merging of diff rows with visualizer selections: a full
//! outer join of the Person rows of a diff against the selections.

use vstd::prelude::*;
use crate::handles::HandleSet;
use crate::integrate::{copy_opt, DiffRow, DiffRowView, Selection, SelectionView};
use crate::text::{push_char, push_str};
use crate::types::{opt_text, results_view};

verus! {

/// The provenance of a merged row: which inputs contributed to it.
#[derive(Debug, Clone, Copy, PartialEq, Eq, Structural)]
pub enum RowKind {
    /// The person appears in the diff and in the selections.
    Matched,
    /// The person appears only in the diff; the selection fields are empty.
    DiffOnly,
    /// The person appears only in the selections; the diff fields are empty.
    VizOnly,
}

/// A diff row combined with the selection it matched, if any.
#[derive(Debug, Clone, PartialEq)]
pub struct MergedRow {
    pub classification: String,
    pub item_type: String,
    pub handle_a: Option<String>,
    pub gramps_id_a: Option<String>,
    pub display_name_a: Option<String>,
    pub handle_b: Option<String>,
    pub gramps_id_b: Option<String>,
    pub display_name_b: Option<String>,
    /// Bits of the confidence score (`f64::to_bits`).
    pub confidence: u64,
    pub field_name: String,
    pub field_kind: String,
    pub old_value: String,
    pub new_value: String,
    /// Bits of the similarity score (`f64::to_bits`).
    pub similarity: u64,
    /// Which handle matched: "a" or "b"; empty for unmatched rows.
    pub side: String,
    /// Matched, diff-only or viz-only.
    pub row_kind: RowKind,
    /// Name of the selected person.
    pub viz_name: Option<String>,
    /// Birth date of the selected person.
    pub viz_birth_date: Option<String>,
    /// Death date of the selected person.
    pub viz_death_date: Option<String>,
    /// Gender of the selected person.
    pub viz_gender: Option<String>,
    /// Family group of the selected person.
    pub viz_family_group: Option<usize>,
}

/// Abstract merged row.
pub struct MergedRowView {
    pub classification: Seq<char>,
    pub item_type: Seq<char>,
    pub handle_a: Option<Seq<char>>,
    pub gramps_id_a: Option<Seq<char>>,
    pub display_name_a: Option<Seq<char>>,
    pub handle_b: Option<Seq<char>>,
    pub gramps_id_b: Option<Seq<char>>,
    pub display_name_b: Option<Seq<char>>,
    pub confidence: u64,
    pub field_name: Seq<char>,
    pub field_kind: Seq<char>,
    pub old_value: Seq<char>,
    pub new_value: Seq<char>,
    pub similarity: u64,
    pub side: Seq<char>,
    pub row_kind: RowKind,
    pub viz_name: Option<Seq<char>>,
    pub viz_birth_date: Option<Seq<char>>,
    pub viz_death_date: Option<Seq<char>>,
    pub viz_gender: Option<Seq<char>>,
    pub viz_family_group: Option<usize>,
}

impl View for MergedRow {
    type V = MergedRowView;

    open spec fn view(&self) -> MergedRowView {
        MergedRowView {
            classification: self.classification@,
            item_type: self.item_type@,
            handle_a: opt_text(self.handle_a),
            gramps_id_a: opt_text(self.gramps_id_a),
            display_name_a: opt_text(self.display_name_a),
            handle_b: opt_text(self.handle_b),
            gramps_id_b: opt_text(self.gramps_id_b),
            display_name_b: opt_text(self.display_name_b),
            confidence: self.confidence,
            field_name: self.field_name@,
            field_kind: self.field_kind@,
            old_value: self.old_value@,
            new_value: self.new_value@,
            similarity: self.similarity,
            side: self.side@,
            row_kind: self.row_kind,
            viz_name: opt_text(self.viz_name),
            viz_birth_date: opt_text(self.viz_birth_date),
            viz_death_date: opt_text(self.viz_death_date),
            viz_gender: opt_text(self.viz_gender),
            viz_family_group: self.viz_family_group,
        }
    }
}

/// Whether a diff row is about a person.
pub open spec fn is_person(r: DiffRowView) -> bool {
    r.item_type == "Person"@
}

/// Index of the last selection with handle `h`: the one a handle index
/// built from the selections in order keeps.
pub open spec fn last_with_handle(sels: Seq<SelectionView>, h: Seq<char>) -> Option<int>
    decreases sels.len(),
{
    if sels.len() == 0 {
        None
    } else if sels.last().handle == h {
        Some(sels.len() - 1)
    } else {
        last_with_handle(sels.drop_last(), h)
    }
}

/// The selection a handle picks is the last one with that handle: it has
/// the handle and no later selection does; no selection has a handle that
/// picks none.
pub proof fn lemma_last_with_handle(sels: Seq<SelectionView>, h: Seq<char>)
    ensures
        last_with_handle(sels, h) matches Some(k) ==> 0 <= k < sels.len() && sels[k].handle == h && forall|j: int|
            k < j < sels.len() ==> #[trigger] sels[j].handle != h,
        last_with_handle(sels, h) is None ==> forall|k: int| 0 <= k < sels.len() ==> #[trigger] sels[k].handle != h,
    decreases sels.len(),
{
    if sels.len() > 0 {
        lemma_last_with_handle(sels.drop_last(), h);
        if sels.last().handle != h {
            assert forall|k: int| 0 <= k < sels.len() - 1 implies sels[k] == sels.drop_last()[k] by {}
        }
    }
}

/// Whether some selection has the (present) handle `h`.
pub open spec fn selected(sels: Seq<SelectionView>, h: Option<Seq<char>>) -> bool {
    match h {
        Some(h) => last_with_handle(sels, h) is Some,
        None => false,
    }
}

/// The handle by which a diff row matches a selection: `handle_a` when a
/// selection has it, else `handle_b` when a selection has it.
pub open spec fn match_key(sels: Seq<SelectionView>, r: DiffRowView) -> Option<Seq<char>> {
    if selected(sels, r.handle_a) {
        r.handle_a
    } else if selected(sels, r.handle_b) {
        r.handle_b
    } else {
        None
    }
}

/// The side label of a matched row: "a" when it matched through its
/// `handle_a` (present, and some selection has it), "b" when it matched
/// through its `handle_b`.
pub open spec fn side_of(sels: Seq<SelectionView>, r: DiffRowView) -> Seq<char> {
    side_of_handles(sels, r.handle_a)
}

/// A diff row merged with the selection `s` on side `side`.
pub open spec fn matched_row(r: DiffRowView, s: SelectionView, side: Seq<char>) -> MergedRowView {
    MergedRowView {
        classification: r.classification,
        item_type: r.item_type,
        handle_a: r.handle_a,
        gramps_id_a: r.gramps_id_a,
        display_name_a: r.display_name_a,
        handle_b: r.handle_b,
        gramps_id_b: r.gramps_id_b,
        display_name_b: r.display_name_b,
        confidence: r.confidence,
        field_name: r.field_name,
        field_kind: r.field_kind,
        old_value: r.old_value,
        new_value: r.new_value,
        similarity: r.similarity,
        side,
        row_kind: RowKind::Matched,
        viz_name: Some(s.name),
        viz_birth_date: s.birth_date,
        viz_death_date: s.death_date,
        viz_gender: Some(s.gender),
        viz_family_group: Some(s.family_group),
    }
}

/// A diff row that matched no selection.
pub open spec fn diff_only_row(r: DiffRowView) -> MergedRowView {
    MergedRowView {
        classification: r.classification,
        item_type: r.item_type,
        handle_a: r.handle_a,
        gramps_id_a: r.gramps_id_a,
        display_name_a: r.display_name_a,
        handle_b: r.handle_b,
        gramps_id_b: r.gramps_id_b,
        display_name_b: r.display_name_b,
        confidence: r.confidence,
        field_name: r.field_name,
        field_kind: r.field_kind,
        old_value: r.old_value,
        new_value: r.new_value,
        similarity: r.similarity,
        side: Seq::empty(),
        row_kind: RowKind::DiffOnly,
        viz_name: None,
        viz_birth_date: None,
        viz_death_date: None,
        viz_gender: None,
        viz_family_group: None,
    }
}

/// A selection that no diff row matched: empty diff fields (scores 0.0,
/// item type "Person").
pub open spec fn viz_only_row(s: SelectionView) -> MergedRowView {
    MergedRowView {
        classification: Seq::empty(),
        item_type: "Person"@,
        handle_a: None,
        gramps_id_a: None,
        display_name_a: None,
        handle_b: None,
        gramps_id_b: None,
        display_name_b: None,
        confidence: 0,
        field_name: Seq::empty(),
        field_kind: Seq::empty(),
        old_value: Seq::empty(),
        new_value: Seq::empty(),
        similarity: 0,
        side: Seq::empty(),
        row_kind: RowKind::VizOnly,
        viz_name: Some(s.name),
        viz_birth_date: s.birth_date,
        viz_death_date: s.death_date,
        viz_gender: Some(s.gender),
        viz_family_group: Some(s.family_group),
    }
}

/// The merged row of a person diff row.
pub open spec fn merged_for(sels: Seq<SelectionView>, r: DiffRowView) -> MergedRowView {
    match match_key(sels, r) {
        Some(h) => matched_row(r, sels[last_with_handle(sels, h)->Some_0], side_of(sels, r)),
        None => diff_only_row(r),
    }
}

/// The merged rows of the person rows among `rows`, in order.
pub open spec fn diff_part(sels: Seq<SelectionView>, rows: Seq<DiffRowView>) -> Seq<MergedRowView>
    decreases rows.len(),
{
    if rows.len() == 0 {
        Seq::empty()
    } else if is_person(rows.last()) {
        diff_part(sels, rows.drop_last()).push(merged_for(sels, rows.last()))
    } else {
        diff_part(sels, rows.drop_last())
    }
}

/// The handles by which the person rows among `rows` matched a selection.
pub open spec fn matched_keys(sels: Seq<SelectionView>, rows: Seq<DiffRowView>) -> Set<Seq<char>>
    decreases rows.len(),
{
    if rows.len() == 0 {
        Set::empty()
    } else if is_person(rows.last()) && match_key(sels, rows.last()) is Some {
        matched_keys(sels, rows.drop_last()).insert(match_key(sels, rows.last())->Some_0)
    } else {
        matched_keys(sels, rows.drop_last())
    }
}

/// The viz-only rows of the selections among `sels` whose handle is not in
/// `keys`, in order.
pub open spec fn viz_part(keys: Set<Seq<char>>, sels: Seq<SelectionView>) -> Seq<MergedRowView>
    decreases sels.len(),
{
    if sels.len() == 0 {
        Seq::empty()
    } else if keys.contains(sels.last().handle) {
        viz_part(keys, sels.drop_last())
    } else {
        viz_part(keys, sels.drop_last()).push(viz_only_row(sels.last()))
    }
}

/// The full outer join of the person rows of a diff with the selections:
/// one row per person diff row (matched or diff-only), then one viz-only
/// row per selection whose handle no person row matched.
pub open spec fn merged(rows: Seq<DiffRowView>, sels: Seq<SelectionView>) -> Seq<MergedRowView> {
    diff_part(sels, rows) + viz_part(matched_keys(sels, rows), sels)
}

/// Number of person rows among `rows`.
pub open spec fn person_count(rows: Seq<DiffRowView>) -> nat
    decreases rows.len(),
{
    if rows.len() == 0 {
        0
    } else if is_person(rows.last()) {
        person_count(rows.drop_last()) + 1
    } else {
        person_count(rows.drop_last())
    }
}

proof fn lemma_diff_part_shape(sels: Seq<SelectionView>, rows: Seq<DiffRowView>)
    ensures
        diff_part(sels, rows).len() == person_count(rows),
        forall|i: int|
            0 <= i < rows.len() && is_person(rows[i]) ==> person_count(rows.take(i)) < person_count(rows)
                && #[trigger] diff_part(sels, rows)[person_count(rows.take(i)) as int] == merged_for(sels, rows[i]),
    decreases rows.len(),
{
    if rows.len() > 0 {
        let init = rows.drop_last();
        lemma_diff_part_shape(sels, init);
        assert(rows.take(rows.len() - 1) =~= init);
        assert forall|i: int|
            0 <= i < rows.len() && is_person(rows[i]) implies person_count(rows.take(i)) < person_count(rows)
                && #[trigger] diff_part(sels, rows)[person_count(rows.take(i)) as int] == merged_for(sels, rows[i]) by {
            if i < rows.len() - 1 {
                assert(init.take(i) =~= rows.take(i));
                assert(init[i] == rows[i]);
                assert(diff_part(sels, init)[person_count(init.take(i)) as int] == merged_for(sels, init[i]));
            }
        }
    }
}

proof fn lemma_diff_part_rows(sels: Seq<SelectionView>, rows: Seq<DiffRowView>)
    ensures
        forall|k: int| 0 <= k < diff_part(sels, rows).len() ==> {
            let m = #[trigger] diff_part(sels, rows)[k];
            &&& m.item_type == "Person"@
            &&& m.row_kind != RowKind::VizOnly
            &&& m.row_kind == RowKind::Matched <==> (selected(sels, m.handle_a) || selected(sels, m.handle_b))
            &&& m.row_kind == RowKind::Matched ==> m.side == side_of_handles(sels, m.handle_a)
        },
    decreases rows.len(),
{
    if rows.len() > 0 {
        lemma_diff_part_rows(sels, rows.drop_last());
    }
}

proof fn lemma_viz_part_rows(keys: Set<Seq<char>>, sels: Seq<SelectionView>)
    ensures
        forall|k: int| 0 <= k < viz_part(keys, sels).len() ==> {
            let m = #[trigger] viz_part(keys, sels)[k];
            &&& m.item_type == "Person"@
            &&& m.row_kind == RowKind::VizOnly
            &&& m.handle_a is None && m.handle_b is None
        },
        forall|j: int| 0 <= j < sels.len() && !keys.contains(sels[j].handle) ==> viz_part(keys, sels).contains(
            viz_only_row(#[trigger] sels[j]),
        ),
        forall|k: int| 0 <= k < viz_part(keys, sels).len() ==> exists|j: int|
            0 <= j < sels.len() && !keys.contains(sels[j].handle) && #[trigger] viz_part(keys, sels)[k]
                == viz_only_row(sels[j]),
    decreases sels.len(),
{
    if sels.len() > 0 {
        let init = sels.drop_last();
        lemma_viz_part_rows(keys, init);
        let p = viz_part(keys, init);
        assert forall|j: int| 0 <= j < sels.len() && !keys.contains(sels[j].handle) implies viz_part(
            keys,
            sels,
        ).contains(viz_only_row(#[trigger] sels[j])) by {
            if j < sels.len() - 1 {
                assert(init[j] == sels[j]);
                assert(p.contains(viz_only_row(init[j])));
                let x = choose|x: int| 0 <= x < p.len() && p[x] == viz_only_row(init[j]);
                assert(viz_part(keys, sels)[x] == p[x]);
            } else {
                assert(viz_part(keys, sels)[p.len() as int] == viz_only_row(sels[j]));
            }
        }
        assert forall|k: int| 0 <= k < viz_part(keys, sels).len() implies exists|j: int|
            0 <= j < sels.len() && !keys.contains(sels[j].handle) && #[trigger] viz_part(keys, sels)[k]
                == viz_only_row(sels[j]) by {
            if k < p.len() {
                assert(viz_part(keys, sels)[k] == p[k]);
                let j = choose|j: int| 0 <= j < init.len() && !keys.contains(init[j].handle) && p[k] == viz_only_row(init[j]);
                assert(init[j] == sels[j]);
            } else {
                assert(viz_part(keys, sels)[k] == viz_only_row(sels[sels.len() - 1]));
            }
        }
    }
}

/// The side label of a matched row with the given `handle_a`: "a" when
/// it is present and some selection has it, else "b".
pub open spec fn side_of_handles(sels: Seq<SelectionView>, handle_a: Option<Seq<char>>) -> Seq<char> {
    if selected(sels, handle_a) {
        seq!['a']
    } else {
        seq!['b']
    }
}

proof fn lemma_matched_keys(sels: Seq<SelectionView>, rows: Seq<DiffRowView>)
    ensures
        forall|h: Seq<char>| #[trigger] matched_keys(sels, rows).contains(h) ==> exists|k: int|
            0 <= k < diff_part(sels, rows).len() && diff_part(sels, rows)[k].row_kind == RowKind::Matched
                && (diff_part(sels, rows)[k].handle_a == Some(h) || diff_part(sels, rows)[k].handle_b == Some(h))
                && diff_part(sels, rows)[k].viz_name == Some(sels[last_with_handle(sels, h)->Some_0].name),
    decreases rows.len(),
{
    if rows.len() > 0 {
        let init = rows.drop_last();
        lemma_matched_keys(sels, init);
        assert forall|h: Seq<char>| #[trigger] matched_keys(sels, rows).contains(h) implies exists|k: int|
            0 <= k < diff_part(sels, rows).len() && diff_part(sels, rows)[k].row_kind == RowKind::Matched
                && (diff_part(sels, rows)[k].handle_a == Some(h) || diff_part(sels, rows)[k].handle_b == Some(h))
                && diff_part(sels, rows)[k].viz_name == Some(sels[last_with_handle(sels, h)->Some_0].name) by {
            if matched_keys(sels, init).contains(h) {
                let k = choose|k: int|
                    0 <= k < diff_part(sels, init).len() && diff_part(sels, init)[k].row_kind == RowKind::Matched
                        && (diff_part(sels, init)[k].handle_a == Some(h) || diff_part(sels, init)[k].handle_b == Some(h))
                        && diff_part(sels, init)[k].viz_name == Some(sels[last_with_handle(sels, h)->Some_0].name);
                assert(diff_part(sels, rows)[k] == diff_part(sels, init)[k]);
            } else {
                let k = diff_part(sels, init).len() as int;
                assert(diff_part(sels, rows)[k] == merged_for(sels, rows.last()));
            }
        }
    }
}

/// The merge is a full outer join of the person rows and the selections,
/// in order:
/// - its rows are the merged person rows, one each and in order, followed
///   by viz-only rows;
/// - every row is about a person;
/// - a row is matched exactly when a selection has its `handle_a` or
///   `handle_b`, and then its side is "a" exactly when it matched through
///   its `handle_a` (present, and a selection has it), else "b";
/// - each viz-only row comes from a selection that no person row matched,
///   and each such selection gives one;
/// - each handle that some person row matched appears in a matched row,
///   with the data of the last selection of that handle.
pub proof fn lemma_merge_full_outer_join(rows: Seq<DiffRowView>, sels: Seq<SelectionView>)
    ensures
        merged(rows, sels).len() == person_count(rows) + viz_part(matched_keys(sels, rows), sels).len(),
        forall|i: int|
            0 <= i < rows.len() && is_person(rows[i]) ==> #[trigger] merged(rows, sels)[person_count(
                rows.take(i),
            ) as int] == merged_for(sels, rows[i]),
        forall|k: int| 0 <= k < merged(rows, sels).len() ==> (#[trigger] merged(rows, sels)[k]).item_type == "Person"@,
        forall|k: int|
            0 <= k < merged(rows, sels).len() ==> ((#[trigger] merged(rows, sels)[k]).row_kind == RowKind::Matched
                <==> (k < person_count(rows) && (selected(sels, merged(rows, sels)[k].handle_a) || selected(
                sels,
                merged(rows, sels)[k].handle_b,
            )))),
        forall|k: int|
            0 <= k < merged(rows, sels).len() && (#[trigger] merged(rows, sels)[k]).row_kind == RowKind::Matched
                ==> merged(rows, sels)[k].side == side_of_handles(sels, merged(rows, sels)[k].handle_a),
        forall|k: int|
            person_count(rows) <= k < merged(rows, sels).len() ==> exists|j: int|
                0 <= j < sels.len() && !matched_keys(sels, rows).contains(sels[j].handle)
                    && #[trigger] merged(rows, sels)[k] == viz_only_row(sels[j]),
        forall|j: int|
            0 <= j < sels.len() && !matched_keys(sels, rows).contains(#[trigger] sels[j].handle)
                ==> merged(rows, sels).contains(viz_only_row(sels[j])),
        forall|h: Seq<char>| #[trigger] matched_keys(sels, rows).contains(h) ==> exists|k: int|
            0 <= k < merged(rows, sels).len() && merged(rows, sels)[k].row_kind == RowKind::Matched
                && (merged(rows, sels)[k].handle_a == Some(h) || merged(rows, sels)[k].handle_b == Some(h))
                && merged(rows, sels)[k].viz_name == Some(sels[last_with_handle(sels, h)->Some_0].name),
{
    let d = diff_part(sels, rows);
    let keys = matched_keys(sels, rows);
    let v = viz_part(keys, sels);
    let m = merged(rows, sels);
    lemma_diff_part_shape(sels, rows);
    lemma_diff_part_rows(sels, rows);
    lemma_viz_part_rows(keys, sels);
    lemma_matched_keys(sels, rows);
    assert forall|k: int| 0 <= k < d.len() implies #[trigger] m[k] == d[k] by {}
    assert forall|k: int| d.len() <= k < m.len() implies #[trigger] m[k] == v[k - d.len()] by {}
    assert forall|i: int|
        0 <= i < rows.len() && is_person(rows[i]) implies #[trigger] m[person_count(rows.take(i)) as int]
            == merged_for(sels, rows[i]) by {
        assert(d[person_count(rows.take(i)) as int] == merged_for(sels, rows[i]));
    }
    assert forall|k: int| 0 <= k < m.len() implies (#[trigger] m[k]).item_type == "Person"@ by {
        if k < d.len() {
            assert(d[k].item_type == "Person"@);
        } else {
            assert(v[k - d.len()].item_type == "Person"@);
        }
    }
    assert forall|k: int| 0 <= k < m.len() implies ((#[trigger] m[k]).row_kind == RowKind::Matched <==> (k
        < person_count(rows) && (selected(sels, m[k].handle_a) || selected(sels, m[k].handle_b)))) by {
        if k < d.len() {
            assert(d[k].row_kind == RowKind::Matched <==> (selected(sels, d[k].handle_a) || selected(sels, d[k].handle_b)));
        } else {
            assert(v[k - d.len()].row_kind == RowKind::VizOnly);
        }
    }
    assert forall|k: int|
        0 <= k < m.len() && (#[trigger] m[k]).row_kind == RowKind::Matched implies m[k].side == side_of_handles(
        sels,
        m[k].handle_a,
    ) by {
        if k < d.len() {
            assert(d[k].row_kind == RowKind::Matched ==> d[k].side == side_of_handles(sels, d[k].handle_a));
        } else {
            assert(v[k - d.len()].row_kind == RowKind::VizOnly);
        }
    }
    assert forall|k: int| person_count(rows) <= k < m.len() implies exists|j: int|
        0 <= j < sels.len() && !keys.contains(sels[j].handle) && #[trigger] m[k] == viz_only_row(sels[j]) by {
        assert(v[k - d.len()] == m[k]);
    }
    assert forall|j: int|
        0 <= j < sels.len() && !keys.contains(#[trigger] sels[j].handle) implies m.contains(viz_only_row(sels[j])) by {
        assert(v.contains(viz_only_row(sels[j])));
        let x = choose|x: int| 0 <= x < v.len() && v[x] == viz_only_row(sels[j]);
        assert(m[d.len() + x] == v[x]);
    }
    assert forall|h: Seq<char>| #[trigger] keys.contains(h) implies exists|k: int|
        0 <= k < m.len() && m[k].row_kind == RowKind::Matched && (m[k].handle_a == Some(h) || m[k].handle_b == Some(h))
            && m[k].viz_name == Some(sels[last_with_handle(sels, h)->Some_0].name) by {
        let k = choose|k: int|
            0 <= k < d.len() && d[k].row_kind == RowKind::Matched && (d[k].handle_a == Some(h) || d[k].handle_b == Some(h))
                && d[k].viz_name == Some(sels[last_with_handle(sels, h)->Some_0].name);
        assert(m[k] == d[k]);
    }
}

/// What each merged row carries. A person row that matches a selection (by
/// its key, through the last selection with that handle) gives a matched
/// row with the row's own diff data and that selection's name, birth date,
/// death date, gender and family group; a person row that matches none
/// gives a diff-only row with no selection data; each viz-only row carries
/// the name, birth date, death date, gender and family group of a
/// selection that no person row matched.
pub proof fn lemma_merge_carries_selection(rows: Seq<DiffRowView>, sels: Seq<SelectionView>)
    ensures
        forall|i: int|
            #![trigger merged(rows, sels)[person_count(rows.take(i)) as int]]
            0 <= i < rows.len() && is_person(rows[i]) && match_key(sels, rows[i]) is Some ==> {
                let m = merged(rows, sels)[person_count(rows.take(i)) as int];
                let s = sels[last_with_handle(sels, match_key(sels, rows[i])->Some_0)->Some_0];
                &&& m.row_kind == RowKind::Matched
                &&& (m.side == seq!['a'] || m.side == seq!['b'])
                &&& (m.side == seq!['a'] <==> exists|j: int|
                    0 <= j < sels.len() && Some(#[trigger] sels[j].handle) == rows[i].handle_a)
                &&& (m.side == seq!['a'] ==> Some(s.handle) == rows[i].handle_a)
                &&& (m.side == seq!['b'] ==> Some(s.handle) == rows[i].handle_b)
                &&& m.handle_a == rows[i].handle_a
                &&& m.handle_b == rows[i].handle_b
                &&& m.classification == rows[i].classification
                &&& m.old_value == rows[i].old_value
                &&& m.new_value == rows[i].new_value
                &&& s.handle == match_key(sels, rows[i])->Some_0
                &&& m.viz_name == Some(s.name)
                &&& m.viz_birth_date == s.birth_date
                &&& m.viz_death_date == s.death_date
                &&& m.viz_gender == Some(s.gender)
                &&& m.viz_family_group == Some(s.family_group)
            },
        forall|i: int|
            0 <= i < rows.len() ==> ((#[trigger] match_key(sels, rows[i]) is Some) <==> exists|j: int|
                0 <= j < sels.len() && (Some(#[trigger] sels[j].handle) == rows[i].handle_a || Some(sels[j].handle)
                    == rows[i].handle_b)),
        forall|i: int|
            #![trigger merged(rows, sels)[person_count(rows.take(i)) as int]]
            0 <= i < rows.len() && is_person(rows[i]) && match_key(sels, rows[i]) is None ==> {
                let m = merged(rows, sels)[person_count(rows.take(i)) as int];
                &&& m.row_kind == RowKind::DiffOnly
                &&& m.handle_a == rows[i].handle_a
                &&& m.handle_b == rows[i].handle_b
                &&& m.viz_name is None
                &&& m.viz_birth_date is None
                &&& m.viz_death_date is None
                &&& m.viz_gender is None
                &&& m.viz_family_group is None
            },
        forall|k: int|
            person_count(rows) <= k < merged(rows, sels).len() ==> exists|j: int|
                0 <= j < sels.len() && !matched_keys(sels, rows).contains(sels[j].handle) && {
                    let m = #[trigger] merged(rows, sels)[k];
                    &&& m.row_kind == RowKind::VizOnly
                    &&& m.viz_name == Some(sels[j].name)
                    &&& m.viz_birth_date == sels[j].birth_date
                    &&& m.viz_death_date == sels[j].death_date
                    &&& m.viz_gender == Some(sels[j].gender)
                    &&& m.viz_family_group == Some(sels[j].family_group)
                },
{
    lemma_merge_full_outer_join(rows, sels);
    assert forall|i: int|
        0 <= i < rows.len() && is_person(rows[i]) && match_key(sels, rows[i]) is Some implies {
            let m = #[trigger] merged(rows, sels)[person_count(rows.take(i)) as int];
            let s = sels[last_with_handle(sels, match_key(sels, rows[i])->Some_0)->Some_0];
            &&& m.row_kind == RowKind::Matched
            &&& (m.side == seq!['a'] || m.side == seq!['b'])
            &&& (m.side == seq!['a'] <==> exists|j: int|
                0 <= j < sels.len() && Some(#[trigger] sels[j].handle) == rows[i].handle_a)
            &&& (m.side == seq!['a'] ==> Some(s.handle) == rows[i].handle_a)
            &&& (m.side == seq!['b'] ==> Some(s.handle) == rows[i].handle_b)
            &&& m.handle_a == rows[i].handle_a
            &&& m.handle_b == rows[i].handle_b
            &&& m.classification == rows[i].classification
            &&& m.old_value == rows[i].old_value
            &&& m.new_value == rows[i].new_value
            &&& s.handle == match_key(sels, rows[i])->Some_0
            &&& m.viz_name == Some(s.name)
            &&& m.viz_birth_date == s.birth_date
            &&& m.viz_death_date == s.death_date
            &&& m.viz_gender == Some(s.gender)
            &&& m.viz_family_group == Some(s.family_group)
        } by {
        let h = match_key(sels, rows[i])->Some_0;
        lemma_last_with_handle(sels, h);
        match rows[i].handle_a {
            Some(a) => lemma_last_with_handle(sels, a),
            None => {},
        }
        assert(merged(rows, sels)[person_count(rows.take(i)) as int] == merged_for(sels, rows[i]));
        let m = merged(rows, sels)[person_count(rows.take(i)) as int];
        assert(seq!['a'][0] != seq!['b'][0]);
        assert(seq!['a'] != seq!['b']);
        if selected(sels, rows[i].handle_a) {
            assert(match_key(sels, rows[i]) == rows[i].handle_a);
            assert(m.side == seq!['a']);
        } else {
            assert(m.side == seq!['b']);
            assert(match_key(sels, rows[i]) == rows[i].handle_b);
        }
    }
    assert forall|i: int| 0 <= i < rows.len() implies ((#[trigger] match_key(sels, rows[i]) is Some) <==> exists|j: int|
        0 <= j < sels.len() && (Some(#[trigger] sels[j].handle) == rows[i].handle_a || Some(sels[j].handle)
            == rows[i].handle_b)) by {
        match rows[i].handle_a {
            Some(a) => lemma_last_with_handle(sels, a),
            None => {},
        }
        match rows[i].handle_b {
            Some(b) => lemma_last_with_handle(sels, b),
            None => {},
        }
    }
    assert forall|i: int|
        0 <= i < rows.len() && is_person(rows[i]) && match_key(sels, rows[i]) is None implies {
            let m = #[trigger] merged(rows, sels)[person_count(rows.take(i)) as int];
            &&& m.row_kind == RowKind::DiffOnly
            &&& m.handle_a == rows[i].handle_a
            &&& m.handle_b == rows[i].handle_b
            &&& m.viz_name is None
            &&& m.viz_birth_date is None
            &&& m.viz_death_date is None
            &&& m.viz_gender is None
            &&& m.viz_family_group is None
        } by {
        assert(merged(rows, sels)[person_count(rows.take(i)) as int] == merged_for(sels, rows[i]));
    }
}

/// Index of the last selection with handle `h`.
fn find_last(sels: &Vec<Selection>, h: &String) -> (r: Option<usize>)
    ensures
        match r {
            Some(k) => k < sels.len() && last_with_handle(results_view(sels@), h@) == Some(k as int),
            None => last_with_handle(results_view(sels@), h@) == None::<int>,
        },
{
    let ghost sv = results_view(sels@);
    let mut k: usize = sels.len();
    assert(sv.take(k as int) =~= sv);
    while k > 0
        invariant
            sv == results_view(sels@),
            k <= sels.len(),
            last_with_handle(sv, h@) == last_with_handle(sv.take(k as int), h@),
        decreases k,
    {
        assert(sv.take(k as int).drop_last() =~= sv.take(k - 1));
        assert(sv.take(k as int).last() == sels@[k - 1]@);
        if sels[k - 1].handle == *h {
            return Some(k - 1);
        }
        k = k - 1;
    }
    None
}

fn copy_string(s: &String) -> (r: String)
    ensures
        r@ == s@,
{
    s.clone()
}

fn person_text() -> (s: String)
    ensures
        s@ == "Person"@,
{
    let mut s = String::new();
    push_str(&mut s, "Person");
    assert(s@ =~= "Person"@);
    s
}

fn side_text(c: char) -> (s: String)
    ensures
        s@ == seq![c],
{
    let mut s = String::new();
    push_char(&mut s, c);
    assert(s@ =~= seq![c]);
    s
}

/// Whether some selection has the (present) handle `h`.
fn lookup(sels: &Vec<Selection>, h: &Option<String>) -> (r: Option<usize>)
    ensures
        match r {
            Some(k) => k < sels.len() && h is Some && last_with_handle(results_view(sels@), h->Some_0@)
                == Some(k as int),
            None => !selected(results_view(sels@), opt_text(*h)),
        },
{
    match h {
        Some(h) => find_last(sels, h),
        None => None,
    }
}

/// The merged row of a person diff row.
fn merge_row(row: &DiffRow, sels: &Vec<Selection>) -> (r: (MergedRow, Option<String>))
    ensures
        r.0@ == merged_for(results_view(sels@), row@),
        opt_text(r.1) == match_key(results_view(sels@), row@),
{
    let ghost sv = results_view(sels@);
    let hit_a = lookup(sels, &row.handle_a);
    let hit = match hit_a {
        Some(k) => Some(k),
        None => lookup(sels, &row.handle_b),
    };
    match hit {
        Some(k) => {
            let sel = &sels[k];
            assert(sv[k as int] == sel@);
            let side = if hit_a.is_some() {
                side_text('a')
            } else {
                side_text('b')
            };
            let key = copy_string(&sel.handle);
            let m = MergedRow {
                classification: copy_string(&row.classification),
                item_type: copy_string(&row.item_type),
                handle_a: copy_opt(&row.handle_a),
                gramps_id_a: copy_opt(&row.gramps_id_a),
                display_name_a: copy_opt(&row.display_name_a),
                handle_b: copy_opt(&row.handle_b),
                gramps_id_b: copy_opt(&row.gramps_id_b),
                display_name_b: copy_opt(&row.display_name_b),
                confidence: row.confidence,
                field_name: copy_string(&row.field_name),
                field_kind: copy_string(&row.field_kind),
                old_value: copy_string(&row.old_value),
                new_value: copy_string(&row.new_value),
                similarity: row.similarity,
                side,
                row_kind: RowKind::Matched,
                viz_name: Some(copy_string(&sel.name)),
                viz_birth_date: copy_opt(&sel.birth_date),
                viz_death_date: copy_opt(&sel.death_date),
                viz_gender: Some(copy_string(&sel.gender)),
                viz_family_group: Some(sel.family_group),
            };
            proof {
                let key_v = match_key(sv, row@)->Some_0;
                assert(last_with_handle(sv, key_v) == Some(k as int));
                lemma_last_with_handle(sv, key_v);
            }
            (m, Some(key))
        },
        None => {
            let m = MergedRow {
                classification: copy_string(&row.classification),
                item_type: copy_string(&row.item_type),
                handle_a: copy_opt(&row.handle_a),
                gramps_id_a: copy_opt(&row.gramps_id_a),
                display_name_a: copy_opt(&row.display_name_a),
                handle_b: copy_opt(&row.handle_b),
                gramps_id_b: copy_opt(&row.gramps_id_b),
                display_name_b: copy_opt(&row.display_name_b),
                confidence: row.confidence,
                field_name: copy_string(&row.field_name),
                field_kind: copy_string(&row.field_kind),
                old_value: copy_string(&row.old_value),
                new_value: copy_string(&row.new_value),
                similarity: row.similarity,
                side: String::new(),
                row_kind: RowKind::DiffOnly,
                viz_name: None,
                viz_birth_date: None,
                viz_death_date: None,
                viz_gender: None,
                viz_family_group: None,
            };
            (m, None)
        },
    }
}

/// The viz-only row of a selection.
fn viz_row(sel: &Selection) -> (m: MergedRow)
    ensures
        m@ == viz_only_row(sel@),
{
    MergedRow {
        classification: String::new(),
        item_type: person_text(),
        handle_a: None,
        gramps_id_a: None,
        display_name_a: None,
        handle_b: None,
        gramps_id_b: None,
        display_name_b: None,
        confidence: 0,
        field_name: String::new(),
        field_kind: String::new(),
        old_value: String::new(),
        new_value: String::new(),
        similarity: 0,
        side: String::new(),
        row_kind: RowKind::VizOnly,
        viz_name: Some(copy_string(&sel.name)),
        viz_birth_date: copy_opt(&sel.birth_date),
        viz_death_date: copy_opt(&sel.death_date),
        viz_gender: Some(copy_string(&sel.gender)),
        viz_family_group: Some(sel.family_group),
    }
}

/// Merge diff rows with visualizer selections by handle (full outer join).
///
/// Only rows with item type "Person" take part. Each of them gives one
/// row, in order: matched when a selection has its `handle_a` or, failing
/// that, its `handle_b` (the last selection with that handle; side "a" or
/// "b"), diff-only otherwise. Then each selection whose handle no person
/// row matched gives a viz-only row, in order.
pub fn merge_diff_viz(diff_rows: Vec<DiffRow>, selections: Vec<Selection>) -> (r: Vec<MergedRow>)
    ensures
        results_view(r@) == merged(results_view(diff_rows@), results_view(selections@)),
{
    let ghost dv = results_view(diff_rows@);
    let ghost sv = results_view(selections@);
    let person = person_text();
    let mut out: Vec<MergedRow> = Vec::new();
    let mut matched = HandleSet::new();
    let mut i: usize = 0;
    assert(dv.take(0) =~= Seq::<DiffRowView>::empty());
    assert(results_view(out@) =~= Seq::<MergedRowView>::empty());
    while i < diff_rows.len()
        invariant
            dv == results_view(diff_rows@),
            sv == results_view(selections@),
            person@ == "Person"@,
            i <= diff_rows.len(),
            results_view(out@) == diff_part(sv, dv.take(i as int)),
            forall|h: Seq<char>| #[trigger] matched@.contains(h) <==> matched_keys(sv, dv.take(i as int)).contains(h),
        decreases diff_rows.len() - i,
    {
        let row = &diff_rows[i];
        assert(dv[i as int] == row@);
        assert(dv.take(i + 1).drop_last() =~= dv.take(i as int));
        assert(dv.take(i + 1).last() == row@);
        if row.item_type == person {
            let (m, key) = merge_row(row, &selections);
            let ghost before = results_view(out@);
            out.push(m);
            assert(results_view(out@) =~= before.push(m@));
            let ghost old_set = matched@;
            match key {
                Some(k) => {
                    let ghost kv = k@;
                    let added = matched.insert(k);
                    proof {
                        assert forall|h: Seq<char>| #[trigger] matched@.contains(h) <==> (old_set.contains(h) || h == kv) by {
                            if added {
                                assert(matched@ == old_set.push(kv));
                                if matched@.contains(h) {
                                    let x = choose|x: int| 0 <= x < matched@.len() && matched@[x] == h;
                                    if x < old_set.len() {
                                        assert(old_set[x] == h);
                                    }
                                }
                                if old_set.contains(h) {
                                    let x = choose|x: int| 0 <= x < old_set.len() && old_set[x] == h;
                                    assert(matched@[x] == h);
                                }
                                assert(matched@[old_set.len() as int] == kv);
                            } else {
                                assert(old_set.contains(kv));
                            }
                        }
                        assert(matched_keys(sv, dv.take(i + 1)) == matched_keys(sv, dv.take(i as int)).insert(kv));
                    }
                },
                None => {
                    assert(matched_keys(sv, dv.take(i + 1)) == matched_keys(sv, dv.take(i as int)));
                },
            }
        } else {
            assert(matched_keys(sv, dv.take(i + 1)) == matched_keys(sv, dv.take(i as int)));
        }
        i = i + 1;
    }
    assert(dv.take(diff_rows.len() as int) =~= dv);
    let ghost keys = matched_keys(sv, dv);
    let ghost head = results_view(out@);
    let mut j: usize = 0;
    assert(sv.take(0) =~= Seq::<SelectionView>::empty());
    assert(head + viz_part(keys, sv.take(0)) =~= head);
    while j < selections.len()
        invariant
            sv == results_view(selections@),
            j <= selections.len(),
            keys == matched_keys(sv, dv),
            forall|h: Seq<char>| matched@.contains(h) <==> keys.contains(h),
            results_view(out@) == head + viz_part(keys, sv.take(j as int)),
        decreases selections.len() - j,
    {
        let sel = &selections[j];
        assert(sv[j as int] == sel@);
        assert(sv.take(j + 1).drop_last() =~= sv.take(j as int));
        assert(sv.take(j + 1).last() == sel@);
        if !matched.contains(sel.handle.as_str()) {
            let m = viz_row(sel);
            let ghost before = results_view(out@);
            out.push(m);
            assert(results_view(out@) =~= before.push(m@));
            assert(head + viz_part(keys, sv.take(j + 1)) =~= (head + viz_part(keys, sv.take(j as int))).push(m@));
        }
        j = j + 1;
    }
    assert(sv.take(selections.len() as int) =~= sv);
    out
}

} // verus!
