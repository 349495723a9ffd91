use gramps_reader::integrate::{DiffRow, Selection};
use gramps_reader::merge::{merge_diff_viz, RowKind};


/// Helper: build a minimal DiffRow.
fn diff_row(
    classification: &str,
    handle_a: Option<&str>,
    handle_b: Option<&str>,
    field_name: &str,
) -> DiffRow {
    DiffRow {
        classification: classification.to_string(),
        item_type: "Person".to_string(),
        handle_a: handle_a.map(String::from),
        gramps_id_a: None,
        display_name_a: None,
        handle_b: handle_b.map(String::from),
        gramps_id_b: None,
        display_name_b: None,
        confidence: 1.0f64.to_bits(),
        field_name: field_name.to_string(),
        field_kind: String::new(),
        old_value: String::new(),
        new_value: String::new(),
        similarity: 0.0f64.to_bits(),
    }
}

/// Helper: build a non-Person diff row (Family).
fn family_row(classification: &str, handle_a: Option<&str>, handle_b: Option<&str>) -> DiffRow {
    DiffRow {
        classification: classification.to_string(),
        item_type: "Family".to_string(),
        handle_a: handle_a.map(String::from),
        gramps_id_a: None,
        display_name_a: None,
        handle_b: handle_b.map(String::from),
        gramps_id_b: None,
        display_name_b: None,
        confidence: 1.0f64.to_bits(),
        field_name: String::new(),
        field_kind: String::new(),
        old_value: String::new(),
        new_value: String::new(),
        similarity: 0.0f64.to_bits(),
    }
}

/// Helper: build a Selection.
fn sel(handle: &str, name: &str, family_group: usize) -> Selection {
    Selection {
        handle: handle.to_string(),
        name: name.to_string(),
        birth_date: None,
        death_date: None,
        gender: "male".to_string(),
        family_group,
    }
}

/// Match via handle_a → side = "a".
#[test]
fn match_handle_a_side_a() {
    let rows = vec![diff_row("Modified", Some("H001"), Some("H002"), "surname")];
    let selections = vec![sel("H001", "John Smith", 1)];
    let result = merge_diff_viz(rows, selections);
    assert_eq!(result.len(), 1);
    assert_eq!(result[0].side, "a");
    assert_eq!(result[0].row_kind, RowKind::Matched);
    assert_eq!(result[0].viz_name.as_deref(), Some("John Smith"));
    assert_eq!(result[0].viz_family_group, Some(1));
}

/// Match via handle_b → side = "b".
#[test]
fn match_handle_b_side_b() {
    let rows = vec![diff_row("Modified", Some("H001"), Some("H002"), "surname")];
    let selections = vec![sel("H002", "Jane Doe", 2)];
    let result = merge_diff_viz(rows, selections);
    assert_eq!(result.len(), 1);
    assert_eq!(result[0].side, "b");
    assert_eq!(result[0].row_kind, RowKind::Matched);
    assert_eq!(result[0].viz_name.as_deref(), Some("Jane Doe"));
    assert_eq!(result[0].viz_family_group, Some(2));
}

/// Added person (handle_a=None) matching handle_b → side = "b".
#[test]
fn match_added_handle_b() {
    let rows = vec![diff_row("Added", None, Some("H002"), "")];
    let selections = vec![sel("H002", "Added Person", 0)];
    let result = merge_diff_viz(rows, selections);
    assert_eq!(result.len(), 1);
    assert_eq!(result[0].side, "b");
    assert_eq!(result[0].row_kind, RowKind::Matched);
    assert_eq!(result[0].viz_name.as_deref(), Some("Added Person"));
}

/// Removed person (handle_b=None) matching handle_a → side = "a".
#[test]
fn match_removed_handle_a() {
    let rows = vec![diff_row("Removed", Some("H001"), None, "")];
    let selections = vec![sel("H001", "Removed Person", 0)];
    let result = merge_diff_viz(rows, selections);
    assert_eq!(result.len(), 1);
    assert_eq!(result[0].side, "a");
    assert_eq!(result[0].row_kind, RowKind::Matched);
    assert_eq!(result[0].viz_name.as_deref(), Some("Removed Person"));
}

/// Person not in selections (neither handle matches) → DiffOnly row + VizOnly row.
#[test]
fn no_match_diff_only() {
    let rows = vec![diff_row("Modified", Some("H001"), Some("H002"), "surname")];
    let selections = vec![sel("H999", "Other Person", 0)];
    let result = merge_diff_viz(rows, selections);
    // 1 DiffOnly row + 1 VizOnly row = 2 rows
    assert_eq!(result.len(), 2);
    // Row 0: DiffOnly — diff fields populated, viz fields None
    assert_eq!(result[0].row_kind, RowKind::DiffOnly);
    assert_eq!(result[0].side, "");
    assert_eq!(result[0].handle_a.as_deref(), Some("H001"));
    assert_eq!(result[0].viz_name, None);
    // Row 1: VizOnly — diff fields empty, viz fields populated
    assert_eq!(result[1].row_kind, RowKind::VizOnly);
    assert_eq!(result[1].side, "");
    assert_eq!(result[1].handle_a, None);
    assert_eq!(result[1].viz_name.as_deref(), Some("Other Person"));
}

/// Same handle on both sides → side = "a" (first match wins).
#[test]
fn same_handle_both_sides_side_a() {
    let rows = vec![diff_row("Same", Some("H001"), Some("H001"), "")];
    let selections = vec![sel("H001", "Same Person", 1)];
    let result = merge_diff_viz(rows, selections);
    assert_eq!(result.len(), 1);
    assert_eq!(result[0].side, "a");
    assert_eq!(result[0].row_kind, RowKind::Matched);
}

/// Empty selections → all diff rows emitted as DiffOnly.
#[test]
fn empty_selections_diff_only() {
    let rows = vec![diff_row("Modified", Some("H001"), Some("H002"), "surname")];
    let result = merge_diff_viz(rows, vec![]);
    assert_eq!(result.len(), 1);
    assert_eq!(result[0].row_kind, RowKind::DiffOnly);
    assert_eq!(result[0].side, "");
    assert_eq!(result[0].viz_name, None);
}

/// Person rows but none match selections → DiffOnly + VizOnly rows.
#[test]
fn person_rows_no_match_diff_only() {
    let rows = vec![diff_row("Modified", Some("H001"), Some("H002"), "surname")];
    let selections = vec![sel("H003", "Unrelated", 0)];
    let result = merge_diff_viz(rows, selections);
    // 1 DiffOnly + 1 VizOnly = 2 rows
    assert_eq!(result.len(), 2);
    assert_eq!(result[0].row_kind, RowKind::DiffOnly);
    assert_eq!(result[1].row_kind, RowKind::VizOnly);
}

/// No Person rows in diff → VizOnly rows for selections.
#[test]
fn no_person_rows_viz_only() {
    let rows = vec![family_row("Same", Some("F001"), Some("F001"))];
    let selections = vec![sel("F001", "Family Name", 0)];
    let result = merge_diff_viz(rows, selections);
    assert_eq!(result.len(), 1);
    assert_eq!(result[0].row_kind, RowKind::VizOnly);
    assert_eq!(result[0].viz_name.as_deref(), Some("Family Name"));
}

/// Multiple rows, mixed matches and non-matches.
#[test]
fn mixed_matches() {
    let rows = vec![
        diff_row("Modified", Some("H001"), Some("H002"), "surname"),
        diff_row("Modified", Some("H003"), Some("H004"), "given_name"),
        diff_row("Modified", Some("H005"), Some("H006"), "surname"),
    ];
    let selections = vec![
        sel("H001", "Matched A", 1),
        sel("H004", "Matched B", 2), // H003 not in index, but H004 is
        sel("H007", "VizOnly C", 3), // no matching diff row
    ];
    let result = merge_diff_viz(rows, selections);
    // 2 matched + 1 diff-only (H005/H006) + 1 viz-only (H007) = 4
    assert_eq!(result.len(), 4);

    // H001 matched via handle_a
    assert_eq!(result[0].side, "a");
    assert_eq!(result[0].row_kind, RowKind::Matched);
    assert_eq!(result[0].viz_name.as_deref(), Some("Matched A"));

    // H003 NOT matched via handle_a, but H004 matched via handle_b
    assert_eq!(result[1].side, "b");
    assert_eq!(result[1].row_kind, RowKind::Matched);
    assert_eq!(result[1].viz_name.as_deref(), Some("Matched B"));

    // H005/H006: DiffOnly (no matching selection)
    assert_eq!(result[2].row_kind, RowKind::DiffOnly);
    assert_eq!(result[2].side, "");
    assert_eq!(result[2].handle_a.as_deref(), Some("H005"));
    assert_eq!(result[2].viz_name, None);

    // H007: VizOnly (no matching diff row)
    assert_eq!(result[3].row_kind, RowKind::VizOnly);
    assert_eq!(result[3].side, "");
    assert_eq!(result[3].handle_a, None);
    assert_eq!(result[3].viz_name.as_deref(), Some("VizOnly C"));
}

/// A diff-only row is emitted with RowKind::DiffOnly and None viz fields.
#[test]
fn emits_diff_only_row() {
    let rows = vec![diff_row("Added", Some("H001"), None, "")];
    let selections = vec![sel("H002", "Other Person", 0)]; // no match
    let result = merge_diff_viz(rows, selections);
    // Should contain at least one DiffOnly row
    let diff_only: Vec<_> = result
        .iter()
        .filter(|r| r.row_kind == RowKind::DiffOnly)
        .collect();
    assert_eq!(diff_only.len(), 1);
    assert_eq!(diff_only[0].handle_a.as_deref(), Some("H001"));
    assert_eq!(diff_only[0].viz_name, None);
    assert_eq!(diff_only[0].viz_gender, None);
    assert_eq!(diff_only[0].viz_family_group, None);
    assert_eq!(diff_only[0].side, "");
}

/// A viz-only row is emitted with RowKind::VizOnly and empty diff fields.
#[test]
fn emits_viz_only_row() {
    let rows = vec![diff_row("Modified", Some("H001"), None, "surname")];
    let selections = vec![sel("H999", "Viz Person", 5)]; // no match
    let result = merge_diff_viz(rows, selections);
    let viz_only: Vec<_> = result
        .iter()
        .filter(|r| r.row_kind == RowKind::VizOnly)
        .collect();
    assert_eq!(viz_only.len(), 1);
    assert_eq!(viz_only[0].handle_a, None);
    assert_eq!(viz_only[0].classification, "");
    assert_eq!(f64::from_bits(viz_only[0].confidence), 0.0);
    assert_eq!(viz_only[0].viz_name.as_deref(), Some("Viz Person"));
    assert_eq!(viz_only[0].viz_family_group, Some(5));
    assert_eq!(viz_only[0].side, "");
}

/// Full outer join: 2 diff rows + 3 selections → 1 Matched + 1 DiffOnly + 2 VizOnly
/// = 4 rows total.
#[test]
fn full_outer_join_4_rows() {
    let rows = vec![
        diff_row("Modified", Some("H001"), None, "surname"),
        diff_row("Added", None, Some("H003"), ""),
    ];
    let selections = vec![
        sel("H001", "Matched Person", 1),
        sel("H999", "Viz Only A", 2),
        sel("H888", "Viz Only B", 3),
    ];
    let result = merge_diff_viz(rows, selections);
    // 1 Matched + 1 DiffOnly + 2 VizOnly = 4
    assert_eq!(result.len(), 4);

    // Row 0: H001 matched (Matched)
    assert_eq!(result[0].row_kind, RowKind::Matched);
    assert_eq!(result[0].side, "a");
    assert_eq!(result[0].viz_name.as_deref(), Some("Matched Person"));

    // Row 1: H003 not in selections (DiffOnly)
    assert_eq!(result[1].row_kind, RowKind::DiffOnly);
    assert_eq!(result[1].side, "");
    assert_eq!(result[1].handle_b.as_deref(), Some("H003"));
    assert_eq!(result[1].viz_name, None);

    // Row 2: H999 (VizOnly)
    assert_eq!(result[2].row_kind, RowKind::VizOnly);
    assert_eq!(result[2].side, "");
    assert_eq!(result[2].handle_a, None);
    assert_eq!(result[2].viz_name.as_deref(), Some("Viz Only A"));

    // Row 3: H888 (VizOnly)
    assert_eq!(result[3].row_kind, RowKind::VizOnly);
    assert_eq!(result[3].side, "");
    assert_eq!(result[3].handle_a, None);
    assert_eq!(result[3].viz_name.as_deref(), Some("Viz Only B"));
}

/// MergedRow preserves all diff fields of the diff row it came from.
#[test]
fn preserves_diff_fields() {
    let rows = vec![DiffRow {
        classification: "Modified".to_string(),
        item_type: "Person".to_string(),
        handle_a: Some("H001".to_string()),
        gramps_id_a: Some("I0001".to_string()),
        display_name_a: Some("Old Name".to_string()),
        handle_b: Some("H002".to_string()),
        gramps_id_b: Some("I0002".to_string()),
        display_name_b: Some("New Name".to_string()),
        confidence: 0.95f64.to_bits(),
        field_name: "surname".to_string(),
        field_kind: "Text".to_string(),
        old_value: "Smith".to_string(),
        new_value: "Jones".to_string(),
        similarity: 0.5f64.to_bits(),
    }];
    let selections = vec![sel("H001", "John Smith", 3)];
    let result = merge_diff_viz(rows, selections);
    assert_eq!(result.len(), 1);
    assert_eq!(result[0].row_kind, RowKind::Matched);
    assert_eq!(result[0].classification, "Modified");
    assert_eq!(result[0].gramps_id_a.as_deref(), Some("I0001"));
    assert_eq!(result[0].display_name_a.as_deref(), Some("Old Name"));
    assert_eq!(f64::from_bits(result[0].confidence), 0.95);
    assert_eq!(result[0].field_name, "surname");
    assert_eq!(result[0].old_value, "Smith");
    assert_eq!(result[0].new_value, "Jones");
    assert!((f64::from_bits(result[0].similarity) - 0.5).abs() < 1e-10);
}


#[test]
fn duplicate_selection_handles_last_wins_and_both_suppressed() {
    let rows = vec![diff_row("Modified", Some("H001"), None, "")];
    let selections = vec![sel("H001", "First", 1), sel("H001", "Second", 2)];
    let result = merge_diff_viz(rows, selections);
    assert_eq!(result.len(), 1);
    assert_eq!(result[0].viz_name.as_deref(), Some("Second"));
    assert_eq!(result[0].viz_family_group, Some(2));
}

#[test]
fn duplicate_unmatched_selections_each_viz_only() {
    let selections = vec![sel("H001", "First", 1), sel("H001", "Second", 2)];
    let result = merge_diff_viz(vec![], selections);
    assert_eq!(result.len(), 2);
    assert_eq!(result[0].viz_name.as_deref(), Some("First"));
    assert_eq!(result[1].viz_name.as_deref(), Some("Second"));
    assert!(result.iter().all(|r| r.row_kind == RowKind::VizOnly && r.item_type == "Person"));
}

#[test]
fn side_names_the_handle_that_matched() {
    // With no handle_a, a selection with an empty handle does not make the
    // row match through side "a": only handle_b matched.
    let rows = vec![diff_row("Added", None, Some("H2"), "")];
    let selections = vec![sel("", "Blank", 0), sel("H2", "Bob", 1)];
    let result = merge_diff_viz(rows, selections);
    assert_eq!(result.len(), 2);
    assert_eq!(result[0].row_kind, RowKind::Matched);
    assert_eq!(result[0].viz_name.as_deref(), Some("Bob"));
    assert_eq!(result[0].side, "b");
    assert_eq!(result[1].row_kind, RowKind::VizOnly);
    assert_eq!(result[1].viz_name.as_deref(), Some("Blank"));
}

#[test]
fn both_inputs_empty_give_no_rows() {
    assert!(merge_diff_viz(vec![], vec![]).is_empty());
    let rows = vec![family_row("Same", Some("F1"), None)];
    assert!(merge_diff_viz(rows, vec![]).is_empty());
}
