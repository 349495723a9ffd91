//! Records extracted from Gramps XML documents.

use vstd::prelude::*;
use crate::handles::{find_string, strings_view};

verus! {

/// Raw extracted event data: one `<event>` element.
#[derive(Debug, Clone, PartialEq, Default)]
pub struct ParsedEvent {
    pub handle: String,
    /// The text of `<eventtype><type>`, e.g. "Birth".
    pub event_type: Option<String>,
    /// The `val` attribute of `<dateval>`, e.g. "1850-07-13".
    pub date_val: Option<String>,
    /// The year parsed from `date_val`, e.g. 1850.
    pub date_year: Option<i32>,
}

/// Raw extracted person data: one `<person>` element.
#[derive(Debug, Clone, PartialEq, Default)]
pub struct ParsedPerson {
    pub handle: String,
    pub given_name: Option<String>,
    pub surname: Option<String>,
    pub birth_date: Option<String>,
    pub death_date: Option<String>,
    pub birth_year: Option<i32>,
    pub gender: Option<String>,
    /// Handles of `<eventref>` elements of the person.
    pub event_refs: Vec<String>,
}

/// Raw extracted family data: one `<family>` element.
#[derive(Debug, Clone, PartialEq, Default)]
pub struct ParsedFamily {
    pub handle: String,
    pub father_handle: Option<String>,
    pub mother_handle: Option<String>,
    pub child_handles: Vec<String>,
}

/// The abstract contents of an optional string.
pub open spec fn opt_text(o: Option<String>) -> Option<Seq<char>> {
    match o {
        Some(s) => Some(s@),
        None => None,
    }
}

/// The abstract contents of a list of records.
pub open spec fn results_view<T: View>(v: Seq<T>) -> Seq<T::V> {
    v.map_values(|x: T| x@)
}

/// Abstract event record.
pub struct ParsedEventView {
    pub handle: Seq<char>,
    pub event_type: Option<Seq<char>>,
    pub date_val: Option<Seq<char>>,
    pub date_year: Option<i32>,
}

impl View for ParsedEvent {
    type V = ParsedEventView;

    open spec fn view(&self) -> ParsedEventView {
        ParsedEventView {
            handle: self.handle@,
            event_type: opt_text(self.event_type),
            date_val: opt_text(self.date_val),
            date_year: self.date_year,
        }
    }
}

/// Abstract person record.
pub struct ParsedPersonView {
    pub handle: Seq<char>,
    pub given_name: Option<Seq<char>>,
    pub surname: Option<Seq<char>>,
    pub birth_date: Option<Seq<char>>,
    pub death_date: Option<Seq<char>>,
    pub birth_year: Option<i32>,
    pub gender: Option<Seq<char>>,
    pub event_refs: Seq<Seq<char>>,
}

impl View for ParsedPerson {
    type V = ParsedPersonView;

    open spec fn view(&self) -> ParsedPersonView {
        ParsedPersonView {
            handle: self.handle@,
            given_name: opt_text(self.given_name),
            surname: opt_text(self.surname),
            birth_date: opt_text(self.birth_date),
            death_date: opt_text(self.death_date),
            birth_year: self.birth_year,
            gender: opt_text(self.gender),
            event_refs: strings_view(self.event_refs@),
        }
    }
}

/// Abstract family record.
pub struct ParsedFamilyView {
    pub handle: Seq<char>,
    pub father_handle: Option<Seq<char>>,
    pub mother_handle: Option<Seq<char>>,
    pub child_handles: Seq<Seq<char>>,
}

impl View for ParsedFamily {
    type V = ParsedFamilyView;

    open spec fn view(&self) -> ParsedFamilyView {
        ParsedFamilyView {
            handle: self.handle@,
            father_handle: opt_text(self.father_handle),
            mother_handle: opt_text(self.mother_handle),
            child_handles: strings_view(self.child_handles@),
        }
    }
}

/// One nuclear family's parent and child handles.
#[derive(Debug, Clone, PartialEq, Eq)]
pub struct FamilyRecord {
    pub parent_handles: Vec<String>,
    pub child_handles: Vec<String>,
}

/// Abstract family record: (parent handles, child handles).
pub type FamilyRecordView = (Seq<Seq<char>>, Seq<Seq<char>>);

impl View for FamilyRecord {
    type V = FamilyRecordView;

    open spec fn view(&self) -> FamilyRecordView {
        (strings_view(self.parent_handles@), strings_view(self.child_handles@))
    }
}

/// The abstract contents of a list of family records.
pub open spec fn records_view(v: Seq<FamilyRecord>) -> Seq<FamilyRecordView> {
    v.map_values(|r: FamilyRecord| r@)
}

/// Append to `distinct` each string of `hs` that it does not hold yet.
fn add_distinct(distinct: &mut Vec<String>, hs: &Vec<String>)
    requires
        strings_view(old(distinct)@).no_duplicates(),
    ensures
        strings_view(final(distinct)@).no_duplicates(),
        strings_view(final(distinct)@).to_set() == strings_view(old(distinct)@).to_set()
            + strings_view(hs@).to_set(),
{
    let ghost d_start = strings_view(distinct@).to_set();
    let ghost all = strings_view(hs@);
    let mut i: usize = 0;
    while i < hs.len()
        invariant
            all == strings_view(hs@),
            i <= hs.len(),
            strings_view(distinct@).no_duplicates(),
            strings_view(distinct@).to_set() == d_start + all.take(i as int).to_set(),
        decreases hs.len() - i,
    {
        let h = &hs[i];
        assert(h@ == all[i as int]);
        proof {
            assert(all.take(i as int + 1) =~= all.take(i as int).push(h@));
            all.take(i as int).lemma_push_to_set_commute(h@);
        }
        match find_string(distinct, h) {
            Some(k) => {
                proof {
                    assert(strings_view(distinct@)[k as int] == h@);
                    assert(strings_view(distinct@).to_set().contains(h@));
                    assert(d_start + all.take(i as int + 1).to_set() =~= strings_view(distinct@).to_set());
                }
            },
            None => {
                let ghost d0 = strings_view(distinct@);
                distinct.push(h.clone());
                proof {
                    assert(strings_view(distinct@) =~= d0.push(h@));
                    d0.lemma_push_to_set_commute(h@);
                    assert(d_start + all.take(i as int + 1).to_set() =~= strings_view(distinct@).to_set());
                }
            },
        }
        i = i + 1;
    }
    proof {
        assert(all.take(all.len() as int) =~= all);
    }
}

impl FamilyRecord {
    /// Number of distinct person handles across both parents and children.
    pub fn size(&self) -> (n: usize)
        ensures
            n == (self@.0 + self@.1).to_set().len(),
    {
        let mut distinct: Vec<String> = Vec::new();
        proof {
            assert(strings_view(distinct@) =~= Seq::<Seq<char>>::empty());
        }
        add_distinct(&mut distinct, &self.parent_handles);
        add_distinct(&mut distinct, &self.child_handles);
        proof {
            assert(strings_view(distinct@).to_set() =~= (self@.0 + self@.1).to_set()) by {
                broadcast use vstd::seq_lib::group_seq_properties;
                broadcast use vstd::set::group_set_axioms;
                assert(Seq::<Seq<char>>::empty().to_set() =~= Set::<Seq<char>>::empty());
                vstd::seq_lib::seq_to_set_distributes_over_add(self@.0, self@.1);
            }
            strings_view(distinct@).unique_seq_to_set();
        }
        distinct.len()
    }
}


/// How the first bytes of a Gramps file say to read it.
#[derive(Debug, Clone, Copy, PartialEq, Eq, Structural)]
pub enum ContentKind {
    /// Fewer than two bytes: the content is empty.
    Empty,
    /// Gzip magic bytes `1f 8b`: the content is compressed.
    Gzip,
    /// Anything else: the content is plain text.
    Plain,
}

/// How to read a file whose first bytes are `first` (at most two bytes are
/// looked at).
pub open spec fn content_kind_of(first: Seq<u8>) -> ContentKind {
    if first.len() < 2 {
        ContentKind::Empty
    } else if first[0] == 0x1fu8 && first[1] == 0x8bu8 {
        ContentKind::Gzip
    } else {
        ContentKind::Plain
    }
}

/// Classify a file by its first bytes: empty below two bytes, gzip on the
/// magic bytes `1f 8b`, plain text otherwise.
pub fn content_kind(first: &[u8]) -> (k: ContentKind)
    ensures
        k == content_kind_of(first@),
{
    if first.len() < 2 {
        ContentKind::Empty
    } else if first[0] == 0x1f && first[1] == 0x8b {
        ContentKind::Gzip
    } else {
        ContentKind::Plain
    }
}

} // verus!
