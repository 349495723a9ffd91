use std::collections::HashMap;

use gramps_reader::dsu::Dsu;
use gramps_reader::generations::{
    compute_generation_table, compute_generations, FamilyGroupGenerationTable, MAX_GENERATION,
};
use gramps_reader::handles::HandleSet;
use gramps_reader::types::FamilyRecord;

#[test]
fn dsu_singleton() {
    let mut dsu = Dsu::new();
    dsu.make_set("p1");
    assert_eq!(dsu.find("p1"), "p1");
}

#[test]
fn dsu_union_connects_sets() {
    let mut dsu = Dsu::new();
    dsu.union("p1", "p2");
    dsu.union("p3", "p4");
    assert_eq!(dsu.find("p1"), dsu.find("p2"));
    assert_eq!(dsu.find("p3"), dsu.find("p4"));
    assert_ne!(dsu.find("p1"), dsu.find("p3"));
}

#[test]
fn dsu_union_transitive() {
    let mut dsu = Dsu::new();
    dsu.union("p1", "p2");
    dsu.union("p2", "p3");
    assert_eq!(dsu.find("p1"), dsu.find("p3"));
}

#[test]
fn dsu_find_unknown_returns_self() {
    let mut dsu = Dsu::new();
    assert_eq!(dsu.find("p9"), "p9");
}

fn rec(parents: &[&str], children: &[&str]) -> FamilyRecord {
    FamilyRecord {
        parent_handles: parents.iter().map(|s| s.to_string()).collect(),
        child_handles: children.iter().map(|s| s.to_string()).collect(),
    }
}

fn collect_handles(records: &[FamilyRecord]) -> HandleSet {
    let mut all = HandleSet::new();
    for r in records {
        for h in r.parent_handles.iter().chain(r.child_handles.iter()) {
            all.insert(h.clone());
        }
    }
    all
}

fn handle_set(hs: &[&str]) -> HandleSet {
    let mut all = HandleSet::new();
    for h in hs {
        all.insert(h.to_string());
    }
    all
}

fn assert_cell(table: &FamilyGroupGenerationTable, size: usize, span: usize, count: usize) {
    assert!(table.row_total(size).is_some(), "row exists");
    assert_eq!(table.cell(size, span), Some(count), "cell size={size} span={span}");
}

fn assert_row_total(table: &FamilyGroupGenerationTable, size: usize, total: usize) {
    assert_eq!(table.row_total(size), Some(total), "row total size={size}");
}

#[test]
fn generation_table_empty() {
    let records: Vec<FamilyRecord> = Vec::new();
    let all = HandleSet::new();
    let (table, _distribution, warnings) = compute_generation_table(&records, &all);
    assert!(table.is_empty());
    assert!(warnings.is_empty());
}

#[test]
fn generation_table_single_family_no_children() {
    let records = vec![rec(&["p1", "p2"], &[])];
    let all = collect_handles(&records);
    let (table, _distribution, warnings) = compute_generation_table(&records, &all);
    assert!(warnings.is_empty());
    assert_cell(&table, 2, 1, 1);
    assert_row_total(&table, 2, 1);
}

#[test]
fn generation_table_single_family_with_children() {
    let records = vec![rec(&["p1", "p2"], &["p3"])];
    let all = collect_handles(&records);
    let (table, _distribution, warnings) = compute_generation_table(&records, &all);
    assert!(warnings.is_empty());
    assert_cell(&table, 3, 2, 1);
    assert_row_total(&table, 3, 1);
}

#[test]
fn generation_table_two_family_chain() {
    let records = vec![rec(&["p1", "p2"], &["p3"]), rec(&["p3", "p4"], &["p5"])];
    let all = collect_handles(&records);
    let (table, distribution, warnings) = compute_generation_table(&records, &all);
    assert!(warnings.is_empty());
    assert_cell(&table, 5, 3, 1);
    assert_row_total(&table, 5, 1);
    assert_eq!(distribution.get(5), Some(1));
}

#[test]
fn generation_table_two_family_chain_with_extra_children() {
    let records = vec![
        rec(&["p1", "p2"], &["p3", "p4"]),
        rec(&["p3", "p5"], &["p6"]),
    ];
    let all = collect_handles(&records);
    let (table, distribution, warnings) = compute_generation_table(&records, &all);
    assert!(warnings.is_empty());
    assert_cell(&table, 6, 3, 1);
    assert_row_total(&table, 6, 1);
    assert_eq!(distribution.get(6), Some(1));
}

#[test]
fn generation_table_three_generation_chain() {
    let records = vec![
        rec(&["p1", "p2"], &["p3"]),
        rec(&["p3", "p4"], &["p5"]),
        rec(&["p5", "p6"], &["p7"]),
    ];
    let all = collect_handles(&records);
    let (table, distribution, warnings) = compute_generation_table(&records, &all);
    assert!(warnings.is_empty());
    assert_cell(&table, 7, 4, 1);
    assert_row_total(&table, 7, 1);
    assert_eq!(distribution.get(7), Some(1));
}

#[test]
fn generation_table_isolated_person() {
    let records: Vec<FamilyRecord> = Vec::new();
    let all = handle_set(&["p1"]);
    let (table, distribution, warnings) = compute_generation_table(&records, &all);
    assert_cell(&table, 1, 1, 1);
    assert_row_total(&table, 1, 1);
    assert_eq!(distribution.get(1), Some(1));
    assert!(warnings.is_empty());
}

#[test]
fn generation_table_disconnected_components() {
    let records = vec![rec(&["p1", "p2"], &["p3"]), rec(&["p4", "p5"], &[])];
    let all = collect_handles(&records);
    let (table, _distribution, warnings) = compute_generation_table(&records, &all);
    assert!(warnings.is_empty());
    assert_cell(&table, 3, 2, 1);
    assert_cell(&table, 2, 1, 1);
    assert_row_total(&table, 3, 1);
    assert_row_total(&table, 2, 1);
}

#[test]
fn generation_table_pedigree_collapse() {
    let records = vec![
        rec(&["g1", "g2"], &["p1", "p2"]),
        rec(&["p1", "x"], &["c1"]),
        rec(&["p2", "y"], &["c2"]),
        rec(&["c1", "c2"], &["z"]),
    ];
    let all = collect_handles(&records);
    let (table, distribution, warnings) = compute_generation_table(&records, &all);
    assert!(warnings.is_empty());
    assert_cell(&table, 9, 4, 1);
    assert_row_total(&table, 9, 1);
    assert_eq!(distribution.get(9), Some(1));
}

#[test]
fn generation_table_cycle() {
    let records = vec![rec(&["p1"], &["p2"]), rec(&["p2"], &["p1"])];
    let all = collect_handles(&records);
    let (table, _distribution, warnings) = compute_generation_table(&records, &all);
    assert_eq!(warnings.len(), 1);
    assert!(warnings[0].contains("cycle"), "Expected cycle warning, got: {}", warnings[0]);
    for ((size, span), _count) in table.cells.entries() {
        assert!(*span <= MAX_GENERATION + 1, "size {} span {} exceeds cap", size, span);
    }
    assert_cell(&table, 2, MAX_GENERATION + 1, 1);
    assert_row_total(&table, 2, 1);
}

#[test]
fn generation_table_duplicate_handles_across_families() {
    let records = vec![rec(&["p1", "p2"], &["p3"]), rec(&["p1", "p4"], &["p5"])];
    let all = collect_handles(&records);
    let (table, distribution, warnings) = compute_generation_table(&records, &all);
    assert!(warnings.is_empty());
    assert_cell(&table, 5, 2, 1);
    assert_row_total(&table, 5, 1);
    assert_eq!(distribution.get(5), Some(1));
}

#[test]
fn generation_table_single_parent_family() {
    let records = vec![rec(&["p1"], &["p2"])];
    let all = collect_handles(&records);
    let (table, _distribution, warnings) = compute_generation_table(&records, &all);
    assert!(warnings.is_empty());
    assert_cell(&table, 2, 2, 1);
    assert_row_total(&table, 2, 1);
}

#[test]
fn generation_table_child_only_family() {
    let records = vec![rec(&[], &["p1", "p2"])];
    let all = collect_handles(&records);
    let (table, _distribution, warnings) = compute_generation_table(&records, &all);
    assert!(warnings.is_empty());
    assert_cell(&table, 2, 1, 1);
    assert_row_total(&table, 2, 1);
}

#[test]
fn generation_table_single_member_family() {
    let records = vec![rec(&["p1"], &[])];
    let all = collect_handles(&records);
    let (table, _distribution, warnings) = compute_generation_table(&records, &all);
    assert!(warnings.is_empty());
    assert_cell(&table, 1, 1, 1);
    assert_row_total(&table, 1, 1);
}

#[test]
fn generation_table_dangling_refs_skipped() {
    let records = vec![rec(&["p1", "p2"], &[])];
    let mut all = collect_handles(&records);
    all.remove("p2");
    let (table, distribution, warnings) = compute_generation_table(&records, &all);
    assert!(warnings.is_empty());
    assert_cell(&table, 1, 1, 1);
    assert_row_total(&table, 1, 1);
    assert_eq!(distribution.get(1), Some(1));
}

fn gen_map(records: &[FamilyRecord], all: &HandleSet) -> HashMap<String, usize> {
    compute_generations(records, all).into_iter().collect()
}

#[test]
fn compute_generations_chain() {
    let records = vec![rec(&["p1", "p2"], &["p3"]), rec(&["p3"], &["p4"])];
    let all = collect_handles(&records);
    let gens = gen_map(&records, &all);
    assert_eq!(gens.get("p1"), Some(&0));
    assert_eq!(gens.get("p2"), Some(&0));
    assert_eq!(gens.get("p3"), Some(&1));
    assert_eq!(gens.get("p4"), Some(&2));
}

#[test]
fn compute_generations_isolated_person() {
    let records: Vec<FamilyRecord> = Vec::new();
    let all = handle_set(&["p1"]);
    let gens = gen_map(&records, &all);
    assert_eq!(gens.get("p1"), Some(&0));
}

#[test]
fn compute_generations_child_only_family() {
    let records = vec![rec(&[], &["c1", "c2"])];
    let all = collect_handles(&records);
    let gens = gen_map(&records, &all);
    assert_eq!(gens.get("c1"), Some(&0));
    assert_eq!(gens.get("c2"), Some(&0));
}

#[test]
fn compute_generations_cycle_capped() {
    let records = vec![rec(&["p1"], &["p2"]), rec(&["p2"], &["p1"])];
    let all = collect_handles(&records);
    let gens = gen_map(&records, &all);
    for g in gens.values() {
        assert!(*g <= MAX_GENERATION, "generation {g} exceeds cap");
    }
}

#[test]
fn compute_generations_matches_table_span() {
    let records = vec![rec(&["p1", "p2"], &["p3"]), rec(&["p3", "p4"], &["p5"])];
    let all = collect_handles(&records);
    let gens = gen_map(&records, &all);
    let (table, _dist, _warnings) = compute_generation_table(&records, &all);
    let max_gen = gens.values().copied().max().unwrap_or(0);
    assert!(table.row_total(5).is_some(), "row exists");
    assert_eq!(table.cell(5, max_gen + 1), Some(1));
}

#[test]
fn dangling_references_do_not_change_generations() {
    let records = vec![rec(&["p1", "x9"], &["p2", "x8"]), rec(&["p2"], &["p3"])];
    let all = handle_set(&["p1", "p2", "p3"]);
    let restricted = vec![rec(&["p1"], &["p2"]), rec(&["p2"], &["p3"])];
    let with_dangling = gen_map(&records, &all);
    let without = gen_map(&restricted, &all);
    assert_eq!(with_dangling, without);
    assert_eq!(with_dangling.get("p3"), Some(&2));
    assert!(!with_dangling.contains_key("x9"));
}

#[test]
fn table_span_is_one_more_than_largest_generation() {
    let records = vec![rec(&["a1"], &["a2"]), rec(&["a2"], &["a3"]), rec(&["b1", "b2"], &[])];
    let all = collect_handles(&records);
    let gens = gen_map(&records, &all);
    assert_eq!(gens.get("a3"), Some(&2));
    let (table, _dist, _warnings) = compute_generation_table(&records, &all);
    assert_cell(&table, 3, 3, 1);
    assert_cell(&table, 2, 1, 1);
}
