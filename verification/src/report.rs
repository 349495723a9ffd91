//! The content of the integration reports: the columns of the CSV report
//! and the entries of the JSON report, built from merged rows. Turning
//! them into CSV or JSON text is left to the serializers.

use vstd::prelude::*;
use crate::integrate::{copy_opt, DiffRow, DiffRowView};
use crate::merge::{MergedRow, MergedRowView, RowKind};
use crate::text::push_str;
use crate::types::{opt_text, results_view};

verus! {

/// The diff fields of a merged row.
pub open spec fn diff_fields(m: MergedRowView) -> DiffRowView {
    DiffRowView {
        classification: m.classification,
        item_type: m.item_type,
        handle_a: m.handle_a,
        gramps_id_a: m.gramps_id_a,
        display_name_a: m.display_name_a,
        handle_b: m.handle_b,
        gramps_id_b: m.gramps_id_b,
        display_name_b: m.display_name_b,
        confidence: m.confidence,
        field_name: m.field_name,
        field_kind: m.field_kind,
        old_value: m.old_value,
        new_value: m.new_value,
        similarity: m.similarity,
    }
}

impl MergedRow {
    /// The diff row that a merged row carries.
    pub fn diff_row(&self) -> (d: DiffRow)
        ensures
            d@ == diff_fields(self@),
    {
        DiffRow {
            classification: self.classification.clone(),
            item_type: self.item_type.clone(),
            handle_a: copy_opt(&self.handle_a),
            gramps_id_a: copy_opt(&self.gramps_id_a),
            display_name_a: copy_opt(&self.display_name_a),
            handle_b: copy_opt(&self.handle_b),
            gramps_id_b: copy_opt(&self.gramps_id_b),
            display_name_b: copy_opt(&self.display_name_b),
            confidence: self.confidence,
            field_name: self.field_name.clone(),
            field_kind: self.field_kind.clone(),
            old_value: self.old_value.clone(),
            new_value: self.new_value.clone(),
            similarity: self.similarity,
        }
    }
}

/// The selection part of a JSON report entry.
#[derive(Debug, Clone, PartialEq)]
pub struct SelectionPart {
    pub name: String,
    pub birth_date: Option<String>,
    pub death_date: Option<String>,
    pub gender: String,
    pub family_group: usize,
}

/// Abstract selection part.
pub struct SelectionPartView {
    pub name: Seq<char>,
    pub birth_date: Option<Seq<char>>,
    pub death_date: Option<Seq<char>>,
    pub gender: Seq<char>,
    pub family_group: usize,
}

impl View for SelectionPart {
    type V = SelectionPartView;

    open spec fn view(&self) -> SelectionPartView {
        SelectionPartView {
            name: self.name@,
            birth_date: opt_text(self.birth_date),
            death_date: opt_text(self.death_date),
            gender: self.gender@,
            family_group: self.family_group,
        }
    }
}

/// One entry of a JSON report.
#[derive(Debug, Clone, PartialEq)]
pub struct MatchEntry {
    pub row_kind: RowKind,
    pub side: String,
    pub diff: DiffRow,
    /// The selection data; absent for diff-only rows.
    pub selection: Option<SelectionPart>,
}

/// Abstract report entry.
pub struct MatchEntryView {
    pub row_kind: RowKind,
    pub side: Seq<char>,
    pub diff: DiffRowView,
    pub selection: Option<SelectionPartView>,
}

impl View for MatchEntry {
    type V = MatchEntryView;

    open spec fn view(&self) -> MatchEntryView {
        MatchEntryView {
            row_kind: self.row_kind,
            side: self.side@,
            diff: self.diff@,
            selection: match self.selection {
                Some(s) => Some(s@),
                None => None,
            },
        }
    }
}

/// The report entry of a merged row: its kind, side and diff fields, and
/// its selection fields unless it is diff-only (a missing name or gender
/// counting as empty, a missing family group as 0).
pub open spec fn entry_of(m: MergedRowView) -> MatchEntryView {
    MatchEntryView {
        row_kind: m.row_kind,
        side: m.side,
        diff: diff_fields(m),
        selection: if m.row_kind == RowKind::DiffOnly {
            None
        } else {
            Some(
                SelectionPartView {
                    name: match m.viz_name {
                        Some(n) => n,
                        None => Seq::empty(),
                    },
                    birth_date: m.viz_birth_date,
                    death_date: m.viz_death_date,
                    gender: match m.viz_gender {
                        Some(g) => g,
                        None => Seq::empty(),
                    },
                    family_group: match m.viz_family_group {
                        Some(f) => f,
                        None => 0,
                    },
                },
            )
        },
    }
}

/// Number of matched rows.
pub open spec fn matched_count(rows: Seq<MergedRowView>) -> nat
    decreases rows.len(),
{
    if rows.len() == 0 {
        0
    } else if rows.last().row_kind == RowKind::Matched {
        matched_count(rows.drop_last()) + 1
    } else {
        matched_count(rows.drop_last())
    }
}

/// The content of a JSON report.
#[derive(Debug, Clone, PartialEq)]
pub struct JsonReport {
    /// Path of the diff CSV file.
    pub diff_file: String,
    /// Path of the selections JSON file.
    pub selection_file: String,
    /// Number of rows.
    pub row_count: usize,
    /// Number of matched rows.
    pub matched_count: usize,
    /// One entry per row, in order.
    pub matches: Vec<MatchEntry>,
}

fn entry(m: &MergedRow) -> (e: MatchEntry)
    ensures
        e@ == entry_of(m@),
{
    let selection = if m.row_kind == RowKind::DiffOnly {
        None
    } else {
        Some(
            SelectionPart {
                name: match &m.viz_name {
                    Some(n) => n.clone(),
                    None => String::new(),
                },
                birth_date: copy_opt(&m.viz_birth_date),
                death_date: copy_opt(&m.viz_death_date),
                gender: match &m.viz_gender {
                    Some(g) => g.clone(),
                    None => String::new(),
                },
                family_group: match m.viz_family_group {
                    Some(f) => f,
                    None => 0,
                },
            },
        )
    };
    MatchEntry { row_kind: m.row_kind, side: m.side.clone(), diff: m.diff_row(), selection }
}

/// A report entry carries its row: the kind, side and diff fields of the
/// row, and, unless the row is diff-only, the row's selected name, birth
/// date, death date, gender and family group (a missing name or gender
/// read as empty, a missing family group as 0); a matched row's entry
/// carries exactly the selection the row matched.
pub proof fn lemma_entry_carries_row(m: MergedRowView)
    ensures
        entry_of(m).row_kind == m.row_kind,
        entry_of(m).side == m.side,
        entry_of(m).diff.handle_a == m.handle_a,
        entry_of(m).diff.handle_b == m.handle_b,
        entry_of(m).diff.classification == m.classification,
        entry_of(m).diff.item_type == m.item_type,
        entry_of(m).diff.gramps_id_a == m.gramps_id_a,
        entry_of(m).diff.gramps_id_b == m.gramps_id_b,
        entry_of(m).diff.display_name_a == m.display_name_a,
        entry_of(m).diff.display_name_b == m.display_name_b,
        entry_of(m).diff.confidence == m.confidence,
        entry_of(m).diff.field_name == m.field_name,
        entry_of(m).diff.field_kind == m.field_kind,
        entry_of(m).diff.old_value == m.old_value,
        entry_of(m).diff.new_value == m.new_value,
        entry_of(m).diff.similarity == m.similarity,
        (entry_of(m).selection is None) == (m.row_kind == RowKind::DiffOnly),
        entry_of(m).selection matches Some(sp) ==> {
            &&& sp.birth_date == m.viz_birth_date
            &&& sp.death_date == m.viz_death_date
            &&& (m.viz_name matches Some(n) ==> sp.name == n)
            &&& (m.viz_name is None ==> sp.name == Seq::<char>::empty())
            &&& (m.viz_gender matches Some(g) ==> sp.gender == g)
            &&& (m.viz_gender is None ==> sp.gender == Seq::<char>::empty())
            &&& (m.viz_family_group matches Some(f) ==> sp.family_group == f)
            &&& (m.viz_family_group is None ==> sp.family_group == 0)
        },
{
}

/// The matched count of a report counts the matched rows: it is at most
/// the number of rows, and adding a row adds one exactly when it is
/// matched.
pub proof fn lemma_matched_count(rows: Seq<MergedRowView>, m: MergedRowView)
    ensures
        matched_count(rows) <= rows.len(),
        matched_count(rows.push(m)) == matched_count(rows) + if m.row_kind == RowKind::Matched {
            1int
        } else {
            0int
        },
    decreases rows.len(),
{
    if rows.len() > 0 {
        lemma_matched_count(rows.drop_last(), rows.last());
    }
    assert(rows.push(m).drop_last() =~= rows);
}

/// The content of the JSON report of merged rows read from the given
/// files: the two paths, the number of rows and of matched rows, and one
/// entry per row.
pub fn build_json_report(rows: &Vec<MergedRow>, diff_path: &str, sel_path: &str) -> (r: JsonReport)
    ensures
        r.diff_file@ == diff_path@,
        r.selection_file@ == sel_path@,
        r.row_count == rows.len(),
        r.matched_count == matched_count(results_view(rows@)),
        results_view(r.matches@) == results_view(rows@).map_values(|m: MergedRowView| entry_of(m)),
{
    let ghost rv = results_view(rows@);
    let mut matches: Vec<MatchEntry> = Vec::new();
    let mut matched: usize = 0;
    let mut i: usize = 0;
    assert(rv.take(0) =~= Seq::<MergedRowView>::empty());
    while i < rows.len()
        invariant
            rv == results_view(rows@),
            i <= rows.len(),
            matched <= i,
            matched == matched_count(rv.take(i as int)),
            results_view(matches@) == rv.take(i as int).map_values(|m: MergedRowView| entry_of(m)),
        decreases rows.len() - i,
    {
        let m = &rows[i];
        assert(rv.take(i + 1).drop_last() =~= rv.take(i as int));
        assert(rv.take(i + 1).last() == m@);
        if m.row_kind == RowKind::Matched {
            matched = matched + 1;
        }
        let ghost before = results_view(matches@);
        let e = entry(m);
        matches.push(e);
        assert(results_view(matches@) =~= before.push(e@));
        assert(rv.take(i + 1).map_values(|m: MergedRowView| entry_of(m)) =~= rv.take(i as int).map_values(
            |m: MergedRowView| entry_of(m),
        ).push(entry_of(m@)));
        i = i + 1;
    }
    assert(rv.take(rows.len() as int) =~= rv);
    let mut diff_file = String::new();
    push_str(&mut diff_file, diff_path);
    let mut selection_file = String::new();
    push_str(&mut selection_file, sel_path);
    assert(diff_file@ =~= diff_path@);
    assert(selection_file@ =~= sel_path@);
    JsonReport { diff_file, selection_file, row_count: rows.len(), matched_count: matched, matches }
}

/// The column names of the CSV report, in order: the diff columns, then
/// the merge columns.
pub open spec fn csv_columns() -> Seq<Seq<char>> {
    seq![
        "classification"@,
        "item_type"@,
        "handle_a"@,
        "gramps_id_a"@,
        "display_name_a"@,
        "handle_b"@,
        "gramps_id_b"@,
        "display_name_b"@,
        "confidence"@,
        "field_name"@,
        "field_kind"@,
        "old_value"@,
        "new_value"@,
        "similarity"@,
        "side"@,
        "row_kind"@,
        "viz_name"@,
        "viz_birth_date"@,
        "viz_death_date"@,
        "viz_gender"@,
        "viz_family_group"@,
    ]
}

fn push_column(v: &mut Vec<String>, name: &str)
    ensures
        final(v)@.map_values(|s: String| s@) == old(v)@.map_values(|s: String| s@).push(name@),
{
    let ghost before = v@.map_values(|s: String| s@);
    let mut s = String::new();
    push_str(&mut s, name);
    assert(s@ =~= name@);
    v.push(s);
    assert(v@.map_values(|s: String| s@) =~= before.push(name@));
}

/// The header row of the CSV report.
pub fn csv_header() -> (v: Vec<String>)
    ensures
        v@.map_values(|s: String| s@) == csv_columns(),
{
    let mut v: Vec<String> = Vec::new();
    assert(v@.map_values(|s: String| s@) =~= Seq::<Seq<char>>::empty());
    push_column(&mut v, "classification");
    push_column(&mut v, "item_type");
    push_column(&mut v, "handle_a");
    push_column(&mut v, "gramps_id_a");
    push_column(&mut v, "display_name_a");
    push_column(&mut v, "handle_b");
    push_column(&mut v, "gramps_id_b");
    push_column(&mut v, "display_name_b");
    push_column(&mut v, "confidence");
    push_column(&mut v, "field_name");
    push_column(&mut v, "field_kind");
    push_column(&mut v, "old_value");
    push_column(&mut v, "new_value");
    push_column(&mut v, "similarity");
    push_column(&mut v, "side");
    push_column(&mut v, "row_kind");
    push_column(&mut v, "viz_name");
    push_column(&mut v, "viz_birth_date");
    push_column(&mut v, "viz_death_date");
    push_column(&mut v, "viz_gender");
    push_column(&mut v, "viz_family_group");
    assert(v@.map_values(|s: String| s@) =~= csv_columns());
    v
}

} // verus!
