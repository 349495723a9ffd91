//! Records of the diff/selection integration: diff rows, visualizer
//! selections, and the errors of reading them.
//!
//! Scores of a diff row are carried as the IEEE-754 bit patterns of their
//! `f64` values (`f64::to_bits`), so that rows move through the merge
//! unchanged, bit for bit.

use vstd::prelude::*;
use crate::text::push_str;
use crate::types::opt_text;

verus! {

/// Errors that can occur during integration.
#[derive(Debug, Clone, PartialEq)]
pub enum IntegrateError {
    /// The diff CSV file could not be read or parsed.
    DiffReadError(String),
    /// The selections JSON file could not be read or parsed.
    SelectionsReadError(String),
    /// Output write error.
    OutputError(String),
}

/// The human-readable text of an integration error.
pub open spec fn integrate_error_text(e: IntegrateError) -> Seq<char> {
    match e {
        IntegrateError::DiffReadError(m) => "diff CSV read error: "@ + m@,
        IntegrateError::SelectionsReadError(m) => "selections JSON read error: "@ + m@,
        IntegrateError::OutputError(m) => "output error: "@ + m@,
    }
}

impl IntegrateError {
    /// The human-readable description of the error (its display text).
    pub fn describe(&self) -> (r: String)
        ensures
            r@ == integrate_error_text(*self),
    {
        let mut r = String::new();
        match self {
            IntegrateError::DiffReadError(m) => {
                push_str(&mut r, "diff CSV read error: ");
                push_str(&mut r, m.as_str());
            },
            IntegrateError::SelectionsReadError(m) => {
                push_str(&mut r, "selections JSON read error: ");
                push_str(&mut r, m.as_str());
            },
            IntegrateError::OutputError(m) => {
                push_str(&mut r, "output error: ");
                push_str(&mut r, m.as_str());
            },
        }
        assert(r@ =~= integrate_error_text(*self));
        r
    }
}

/// A single row of a diff CSV file (`gramps-gen diff --output csv`).
#[derive(Debug, Clone, PartialEq, Default)]
pub struct DiffRow {
    /// Classification: Same, Modified, Added, Removed, NeedsReview, ExtrinsicOnly.
    pub classification: String,
    /// Type of primary item (e.g. "Person", "Family", "Event").
    pub item_type: String,
    /// Handle in the first graph (A); none for added items.
    pub handle_a: Option<String>,
    /// Gramps database ID in the first graph.
    pub gramps_id_a: Option<String>,
    /// Display name in the first graph.
    pub display_name_a: Option<String>,
    /// Handle in the second graph (B); none for removed items.
    pub handle_b: Option<String>,
    /// Gramps database ID in the second graph.
    pub gramps_id_b: Option<String>,
    /// Display name in the second graph.
    pub display_name_b: Option<String>,
    /// Bits of the confidence score of the match (0.0 to 1.0).
    pub confidence: u64,
    /// Field name that changed (empty for Same/Added/Removed).
    pub field_name: String,
    /// Kind of field (Text, Date, HandleRef, ...).
    pub field_kind: String,
    /// Old value in graph A.
    pub old_value: String,
    /// New value in graph B.
    pub new_value: String,
    /// Bits of the similarity score between old and new value (0.0 to 1.0).
    pub similarity: u64,
}

/// Abstract diff row.
pub struct DiffRowView {
    pub classification: Seq<char>,
    pub item_type: Seq<char>,
    pub handle_a: Option<Seq<char>>,
    pub gramps_id_a: Option<Seq<char>>,
    pub display_name_a: Option<Seq<char>>,
    pub handle_b: Option<Seq<char>>,
    pub gramps_id_b: Option<Seq<char>>,
    pub display_name_b: Option<Seq<char>>,
    pub confidence: u64,
    pub field_name: Seq<char>,
    pub field_kind: Seq<char>,
    pub old_value: Seq<char>,
    pub new_value: Seq<char>,
    pub similarity: u64,
}

impl View for DiffRow {
    type V = DiffRowView;

    open spec fn view(&self) -> DiffRowView {
        DiffRowView {
            classification: self.classification@,
            item_type: self.item_type@,
            handle_a: opt_text(self.handle_a),
            gramps_id_a: opt_text(self.gramps_id_a),
            display_name_a: opt_text(self.display_name_a),
            handle_b: opt_text(self.handle_b),
            gramps_id_b: opt_text(self.gramps_id_b),
            display_name_b: opt_text(self.display_name_b),
            confidence: self.confidence,
            field_name: self.field_name@,
            field_kind: self.field_kind@,
            old_value: self.old_value@,
            new_value: self.new_value@,
            similarity: self.similarity,
        }
    }
}

/// A single person selected in the visualizer.
#[derive(Debug, Clone, PartialEq)]
pub struct Selection {
    /// Gramps handle: the join key against diff row handles.
    pub handle: String,
    /// Full name.
    pub name: String,
    /// Birth date as a display string.
    pub birth_date: Option<String>,
    /// Death date as a display string.
    pub death_date: Option<String>,
    /// Gender: "male", "female" or "unknown".
    pub gender: String,
    /// Family group (connected component) number.
    pub family_group: usize,
}

/// Abstract selection.
pub struct SelectionView {
    pub handle: Seq<char>,
    pub name: Seq<char>,
    pub birth_date: Option<Seq<char>>,
    pub death_date: Option<Seq<char>>,
    pub gender: Seq<char>,
    pub family_group: usize,
}

impl View for Selection {
    type V = SelectionView;

    open spec fn view(&self) -> SelectionView {
        SelectionView {
            handle: self.handle@,
            name: self.name@,
            birth_date: opt_text(self.birth_date),
            death_date: opt_text(self.death_date),
            gender: self.gender@,
            family_group: self.family_group,
        }
    }
}

/// A copy of an optional string.
pub fn copy_opt(o: &Option<String>) -> (r: Option<String>)
    ensures
        opt_text(r) == opt_text(*o),
{
    match o {
        Some(s) => Some(s.clone()),
        None => None,
    }
}

} // verus!
