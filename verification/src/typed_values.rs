//! The typed values of Gramps XML attributes: each read from its text,
//! trimmed and lowercased, by a fixed table of keywords.

use vstd::prelude::*;
use crate::dates::lowered_trim;
use crate::text::{chars_eq, lowered, trimmed};

verus! {

/// The kinds of the type of a name.
#[derive(Debug, Clone, Copy, PartialEq, Eq, Structural)]
pub enum NameType {
    Birth,
    Married,
    AlsoKnownAs,
    Akn,
    Called,
    Formal,
    Patronymic,
    Religious,
    Unknown,
}

/// The type of a name named by a text: trimmed and lowercased, one of `birth`, `married`, `also known as`, `aka`, `akn`, `called`, `formal`, `patronymic`, `religious`, `unknown`; none for any other text.
pub open spec fn name_type_of(s: Seq<char>) -> Option<NameType> {
    let t = lowered(trimmed(s));
    if t == seq!['b', 'i', 'r', 't', 'h'] {
        Some(NameType::Birth)
    } else if t == seq!['m', 'a', 'r', 'r', 'i', 'e', 'd'] {
        Some(NameType::Married)
    } else if t == seq!['a', 'l', 's', 'o', ' ', 'k', 'n', 'o', 'w', 'n', ' ', 'a', 's'] {
        Some(NameType::AlsoKnownAs)
    } else if t == seq!['a', 'k', 'a'] {
        Some(NameType::AlsoKnownAs)
    } else if t == seq!['a', 'k', 'n'] {
        Some(NameType::Akn)
    } else if t == seq!['c', 'a', 'l', 'l', 'e', 'd'] {
        Some(NameType::Called)
    } else if t == seq!['f', 'o', 'r', 'm', 'a', 'l'] {
        Some(NameType::Formal)
    } else if t == seq!['p', 'a', 't', 'r', 'o', 'n', 'y', 'm', 'i', 'c'] {
        Some(NameType::Patronymic)
    } else if t == seq!['r', 'e', 'l', 'i', 'g', 'i', 'o', 'u', 's'] {
        Some(NameType::Religious)
    } else if t == seq!['u', 'n', 'k', 'n', 'o', 'w', 'n'] {
        Some(NameType::Unknown)
    } else {
        None
    }
}

/// Read the type of a name from its text (see `name_type_of`).
pub fn parse_name_type(s: &str) -> (r: Option<NameType>)
    ensures
        r == name_type_of(s@),
{
    let t = lowered_trim(s);
    let a0: [char; 5] = ['b', 'i', 'r', 't', 'h'];
    assert(a0@ =~= seq!['b', 'i', 'r', 't', 'h']);
    let a1: [char; 7] = ['m', 'a', 'r', 'r', 'i', 'e', 'd'];
    assert(a1@ =~= seq!['m', 'a', 'r', 'r', 'i', 'e', 'd']);
    let a2: [char; 13] = ['a', 'l', 's', 'o', ' ', 'k', 'n', 'o', 'w', 'n', ' ', 'a', 's'];
    assert(a2@ =~= seq!['a', 'l', 's', 'o', ' ', 'k', 'n', 'o', 'w', 'n', ' ', 'a', 's']);
    let a3: [char; 3] = ['a', 'k', 'a'];
    assert(a3@ =~= seq!['a', 'k', 'a']);
    let a4: [char; 3] = ['a', 'k', 'n'];
    assert(a4@ =~= seq!['a', 'k', 'n']);
    let a5: [char; 6] = ['c', 'a', 'l', 'l', 'e', 'd'];
    assert(a5@ =~= seq!['c', 'a', 'l', 'l', 'e', 'd']);
    let a6: [char; 6] = ['f', 'o', 'r', 'm', 'a', 'l'];
    assert(a6@ =~= seq!['f', 'o', 'r', 'm', 'a', 'l']);
    let a7: [char; 10] = ['p', 'a', 't', 'r', 'o', 'n', 'y', 'm', 'i', 'c'];
    assert(a7@ =~= seq!['p', 'a', 't', 'r', 'o', 'n', 'y', 'm', 'i', 'c']);
    let a8: [char; 9] = ['r', 'e', 'l', 'i', 'g', 'i', 'o', 'u', 's'];
    assert(a8@ =~= seq!['r', 'e', 'l', 'i', 'g', 'i', 'o', 'u', 's']);
    let a9: [char; 7] = ['u', 'n', 'k', 'n', 'o', 'w', 'n'];
    assert(a9@ =~= seq!['u', 'n', 'k', 'n', 'o', 'w', 'n']);
    if chars_eq(t.as_slice(), a0.as_slice()) {
        Some(NameType::Birth)
    } else if chars_eq(t.as_slice(), a1.as_slice()) {
        Some(NameType::Married)
    } else if chars_eq(t.as_slice(), a2.as_slice()) {
        Some(NameType::AlsoKnownAs)
    } else if chars_eq(t.as_slice(), a3.as_slice()) {
        Some(NameType::AlsoKnownAs)
    } else if chars_eq(t.as_slice(), a4.as_slice()) {
        Some(NameType::Akn)
    } else if chars_eq(t.as_slice(), a5.as_slice()) {
        Some(NameType::Called)
    } else if chars_eq(t.as_slice(), a6.as_slice()) {
        Some(NameType::Formal)
    } else if chars_eq(t.as_slice(), a7.as_slice()) {
        Some(NameType::Patronymic)
    } else if chars_eq(t.as_slice(), a8.as_slice()) {
        Some(NameType::Religious)
    } else if chars_eq(t.as_slice(), a9.as_slice()) {
        Some(NameType::Unknown)
    } else {
        None
    }
}

/// The kinds of the origin of a surname.
#[derive(Debug, Clone, Copy, PartialEq, Eq, Structural)]
pub enum NameOriginType {
    Patrilineal,
    Matrilineal,
    Given,
    Taken,
    Other,
}

/// The origin of a surname named by a text: trimmed and lowercased, one of `patrilineal`, `matrilineal`, `given`, `taken`, `other`; none for any other text.
pub open spec fn name_origin_of(s: Seq<char>) -> Option<NameOriginType> {
    let t = lowered(trimmed(s));
    if t == seq!['p', 'a', 't', 'r', 'i', 'l', 'i', 'n', 'e', 'a', 'l'] {
        Some(NameOriginType::Patrilineal)
    } else if t == seq!['m', 'a', 't', 'r', 'i', 'l', 'i', 'n', 'e', 'a', 'l'] {
        Some(NameOriginType::Matrilineal)
    } else if t == seq!['g', 'i', 'v', 'e', 'n'] {
        Some(NameOriginType::Given)
    } else if t == seq!['t', 'a', 'k', 'e', 'n'] {
        Some(NameOriginType::Taken)
    } else if t == seq!['o', 't', 'h', 'e', 'r'] {
        Some(NameOriginType::Other)
    } else {
        None
    }
}

/// Read the origin of a surname from its text (see `name_origin_of`).
pub fn parse_name_origin(s: &str) -> (r: Option<NameOriginType>)
    ensures
        r == name_origin_of(s@),
{
    let t = lowered_trim(s);
    let a0: [char; 11] = ['p', 'a', 't', 'r', 'i', 'l', 'i', 'n', 'e', 'a', 'l'];
    assert(a0@ =~= seq!['p', 'a', 't', 'r', 'i', 'l', 'i', 'n', 'e', 'a', 'l']);
    let a1: [char; 11] = ['m', 'a', 't', 'r', 'i', 'l', 'i', 'n', 'e', 'a', 'l'];
    assert(a1@ =~= seq!['m', 'a', 't', 'r', 'i', 'l', 'i', 'n', 'e', 'a', 'l']);
    let a2: [char; 5] = ['g', 'i', 'v', 'e', 'n'];
    assert(a2@ =~= seq!['g', 'i', 'v', 'e', 'n']);
    let a3: [char; 5] = ['t', 'a', 'k', 'e', 'n'];
    assert(a3@ =~= seq!['t', 'a', 'k', 'e', 'n']);
    let a4: [char; 5] = ['o', 't', 'h', 'e', 'r'];
    assert(a4@ =~= seq!['o', 't', 'h', 'e', 'r']);
    if chars_eq(t.as_slice(), a0.as_slice()) {
        Some(NameOriginType::Patrilineal)
    } else if chars_eq(t.as_slice(), a1.as_slice()) {
        Some(NameOriginType::Matrilineal)
    } else if chars_eq(t.as_slice(), a2.as_slice()) {
        Some(NameOriginType::Given)
    } else if chars_eq(t.as_slice(), a3.as_slice()) {
        Some(NameOriginType::Taken)
    } else if chars_eq(t.as_slice(), a4.as_slice()) {
        Some(NameOriginType::Other)
    } else {
        None
    }
}

/// The kinds of a person's role in an event.
#[derive(Debug, Clone, Copy, PartialEq, Eq, Structural)]
pub enum EventRoleType {
    Primary,
    Family,
    Witness,
    Clergy,
    Bride,
    Groom,
    Parent,
    Child,
    Officiator,
    Other,
}

/// The person's role in an event named by a text: trimmed and lowercased, one of `primary`, `family`, `witness`, `clergy`, `bride`, `groom`, `parent`, `child`, `officiator`, `other`; none for any other text.
pub open spec fn event_role_of(s: Seq<char>) -> Option<EventRoleType> {
    let t = lowered(trimmed(s));
    if t == seq!['p', 'r', 'i', 'm', 'a', 'r', 'y'] {
        Some(EventRoleType::Primary)
    } else if t == seq!['f', 'a', 'm', 'i', 'l', 'y'] {
        Some(EventRoleType::Family)
    } else if t == seq!['w', 'i', 't', 'n', 'e', 's', 's'] {
        Some(EventRoleType::Witness)
    } else if t == seq!['c', 'l', 'e', 'r', 'g', 'y'] {
        Some(EventRoleType::Clergy)
    } else if t == seq!['b', 'r', 'i', 'd', 'e'] {
        Some(EventRoleType::Bride)
    } else if t == seq!['g', 'r', 'o', 'o', 'm'] {
        Some(EventRoleType::Groom)
    } else if t == seq!['p', 'a', 'r', 'e', 'n', 't'] {
        Some(EventRoleType::Parent)
    } else if t == seq!['c', 'h', 'i', 'l', 'd'] {
        Some(EventRoleType::Child)
    } else if t == seq!['o', 'f', 'f', 'i', 'c', 'i', 'a', 't', 'o', 'r'] {
        Some(EventRoleType::Officiator)
    } else if t == seq!['o', 't', 'h', 'e', 'r'] {
        Some(EventRoleType::Other)
    } else {
        None
    }
}

/// Read a person's role in an event from its text (see `event_role_of`).
pub fn parse_event_role(s: &str) -> (r: Option<EventRoleType>)
    ensures
        r == event_role_of(s@),
{
    let t = lowered_trim(s);
    let a0: [char; 7] = ['p', 'r', 'i', 'm', 'a', 'r', 'y'];
    assert(a0@ =~= seq!['p', 'r', 'i', 'm', 'a', 'r', 'y']);
    let a1: [char; 6] = ['f', 'a', 'm', 'i', 'l', 'y'];
    assert(a1@ =~= seq!['f', 'a', 'm', 'i', 'l', 'y']);
    let a2: [char; 7] = ['w', 'i', 't', 'n', 'e', 's', 's'];
    assert(a2@ =~= seq!['w', 'i', 't', 'n', 'e', 's', 's']);
    let a3: [char; 6] = ['c', 'l', 'e', 'r', 'g', 'y'];
    assert(a3@ =~= seq!['c', 'l', 'e', 'r', 'g', 'y']);
    let a4: [char; 5] = ['b', 'r', 'i', 'd', 'e'];
    assert(a4@ =~= seq!['b', 'r', 'i', 'd', 'e']);
    let a5: [char; 5] = ['g', 'r', 'o', 'o', 'm'];
    assert(a5@ =~= seq!['g', 'r', 'o', 'o', 'm']);
    let a6: [char; 6] = ['p', 'a', 'r', 'e', 'n', 't'];
    assert(a6@ =~= seq!['p', 'a', 'r', 'e', 'n', 't']);
    let a7: [char; 5] = ['c', 'h', 'i', 'l', 'd'];
    assert(a7@ =~= seq!['c', 'h', 'i', 'l', 'd']);
    let a8: [char; 10] = ['o', 'f', 'f', 'i', 'c', 'i', 'a', 't', 'o', 'r'];
    assert(a8@ =~= seq!['o', 'f', 'f', 'i', 'c', 'i', 'a', 't', 'o', 'r']);
    let a9: [char; 5] = ['o', 't', 'h', 'e', 'r'];
    assert(a9@ =~= seq!['o', 't', 'h', 'e', 'r']);
    if chars_eq(t.as_slice(), a0.as_slice()) {
        Some(EventRoleType::Primary)
    } else if chars_eq(t.as_slice(), a1.as_slice()) {
        Some(EventRoleType::Family)
    } else if chars_eq(t.as_slice(), a2.as_slice()) {
        Some(EventRoleType::Witness)
    } else if chars_eq(t.as_slice(), a3.as_slice()) {
        Some(EventRoleType::Clergy)
    } else if chars_eq(t.as_slice(), a4.as_slice()) {
        Some(EventRoleType::Bride)
    } else if chars_eq(t.as_slice(), a5.as_slice()) {
        Some(EventRoleType::Groom)
    } else if chars_eq(t.as_slice(), a6.as_slice()) {
        Some(EventRoleType::Parent)
    } else if chars_eq(t.as_slice(), a7.as_slice()) {
        Some(EventRoleType::Child)
    } else if chars_eq(t.as_slice(), a8.as_slice()) {
        Some(EventRoleType::Officiator)
    } else if chars_eq(t.as_slice(), a9.as_slice()) {
        Some(EventRoleType::Other)
    } else {
        None
    }
}

/// The kinds of a relationship.
#[derive(Debug, Clone, Copy, PartialEq, Eq, Structural)]
pub enum FamilyRelType {
    Birth,
    Married,
    Census,
    Unknown,
}

/// The relationship named by a text: trimmed and lowercased, one of `birth`, `married`, `census`, `unknown`; none for any other text.
pub open spec fn family_rel_of(s: Seq<char>) -> Option<FamilyRelType> {
    let t = lowered(trimmed(s));
    if t == seq!['b', 'i', 'r', 't', 'h'] {
        Some(FamilyRelType::Birth)
    } else if t == seq!['m', 'a', 'r', 'r', 'i', 'e', 'd'] {
        Some(FamilyRelType::Married)
    } else if t == seq!['c', 'e', 'n', 's', 'u', 's'] {
        Some(FamilyRelType::Census)
    } else if t == seq!['u', 'n', 'k', 'n', 'o', 'w', 'n'] {
        Some(FamilyRelType::Unknown)
    } else {
        None
    }
}

/// Read a relationship from its text (see `family_rel_of`).
pub fn parse_family_rel(s: &str) -> (r: Option<FamilyRelType>)
    ensures
        r == family_rel_of(s@),
{
    let t = lowered_trim(s);
    let a0: [char; 5] = ['b', 'i', 'r', 't', 'h'];
    assert(a0@ =~= seq!['b', 'i', 'r', 't', 'h']);
    let a1: [char; 7] = ['m', 'a', 'r', 'r', 'i', 'e', 'd'];
    assert(a1@ =~= seq!['m', 'a', 'r', 'r', 'i', 'e', 'd']);
    let a2: [char; 6] = ['c', 'e', 'n', 's', 'u', 's'];
    assert(a2@ =~= seq!['c', 'e', 'n', 's', 'u', 's']);
    let a3: [char; 7] = ['u', 'n', 'k', 'n', 'o', 'w', 'n'];
    assert(a3@ =~= seq!['u', 'n', 'k', 'n', 'o', 'w', 'n']);
    if chars_eq(t.as_slice(), a0.as_slice()) {
        Some(FamilyRelType::Birth)
    } else if chars_eq(t.as_slice(), a1.as_slice()) {
        Some(FamilyRelType::Married)
    } else if chars_eq(t.as_slice(), a2.as_slice()) {
        Some(FamilyRelType::Census)
    } else if chars_eq(t.as_slice(), a3.as_slice()) {
        Some(FamilyRelType::Unknown)
    } else {
        None
    }
}

/// The kinds of the type of an attribute.
#[derive(Debug, Clone, Copy, PartialEq, Eq, Structural)]
pub enum AttributeType {
    Caste,
    Cause,
    Custom,
    DNA,
    Description,
    Ethnicity,
    Nationality,
    Nobility,
    Profession,
    Property,
    Religion,
    SocialSecurityNumber,
    Title,
}

/// The type of an attribute named by a text: trimmed and lowercased, one of `caste`, `cause`, `custom`, `dna`, `description`, `ethnicity`, `nationality`, `nobility`, `profession`, `property`, `religion`, `social security number`, `title`; `Custom` for any other text.
pub open spec fn attribute_type_of(s: Seq<char>) -> AttributeType {
    let t = lowered(trimmed(s));
    if t == seq!['c', 'a', 's', 't', 'e'] {
        AttributeType::Caste
    } else if t == seq!['c', 'a', 'u', 's', 'e'] {
        AttributeType::Cause
    } else if t == seq!['c', 'u', 's', 't', 'o', 'm'] {
        AttributeType::Custom
    } else if t == seq!['d', 'n', 'a'] {
        AttributeType::DNA
    } else if t == seq!['d', 'e', 's', 'c', 'r', 'i', 'p', 't', 'i', 'o', 'n'] {
        AttributeType::Description
    } else if t == seq!['e', 't', 'h', 'n', 'i', 'c', 'i', 't', 'y'] {
        AttributeType::Ethnicity
    } else if t == seq!['n', 'a', 't', 'i', 'o', 'n', 'a', 'l', 'i', 't', 'y'] {
        AttributeType::Nationality
    } else if t == seq!['n', 'o', 'b', 'i', 'l', 'i', 't', 'y'] {
        AttributeType::Nobility
    } else if t == seq!['p', 'r', 'o', 'f', 'e', 's', 's', 'i', 'o', 'n'] {
        AttributeType::Profession
    } else if t == seq!['p', 'r', 'o', 'p', 'e', 'r', 't', 'y'] {
        AttributeType::Property
    } else if t == seq!['r', 'e', 'l', 'i', 'g', 'i', 'o', 'n'] {
        AttributeType::Religion
    } else if t == seq!['s', 'o', 'c', 'i', 'a', 'l', ' ', 's', 'e', 'c', 'u', 'r', 'i', 't', 'y', ' ', 'n', 'u', 'm', 'b', 'e', 'r'] {
        AttributeType::SocialSecurityNumber
    } else if t == seq!['t', 'i', 't', 'l', 'e'] {
        AttributeType::Title
    } else {
        AttributeType::Custom
    }
}

/// Read the type of an attribute from its text (see `attribute_type_of`).
pub fn parse_attribute_type(s: &str) -> (r: AttributeType)
    ensures
        r == attribute_type_of(s@),
{
    let t = lowered_trim(s);
    let a0: [char; 5] = ['c', 'a', 's', 't', 'e'];
    assert(a0@ =~= seq!['c', 'a', 's', 't', 'e']);
    let a1: [char; 5] = ['c', 'a', 'u', 's', 'e'];
    assert(a1@ =~= seq!['c', 'a', 'u', 's', 'e']);
    let a2: [char; 6] = ['c', 'u', 's', 't', 'o', 'm'];
    assert(a2@ =~= seq!['c', 'u', 's', 't', 'o', 'm']);
    let a3: [char; 3] = ['d', 'n', 'a'];
    assert(a3@ =~= seq!['d', 'n', 'a']);
    let a4: [char; 11] = ['d', 'e', 's', 'c', 'r', 'i', 'p', 't', 'i', 'o', 'n'];
    assert(a4@ =~= seq!['d', 'e', 's', 'c', 'r', 'i', 'p', 't', 'i', 'o', 'n']);
    let a5: [char; 9] = ['e', 't', 'h', 'n', 'i', 'c', 'i', 't', 'y'];
    assert(a5@ =~= seq!['e', 't', 'h', 'n', 'i', 'c', 'i', 't', 'y']);
    let a6: [char; 11] = ['n', 'a', 't', 'i', 'o', 'n', 'a', 'l', 'i', 't', 'y'];
    assert(a6@ =~= seq!['n', 'a', 't', 'i', 'o', 'n', 'a', 'l', 'i', 't', 'y']);
    let a7: [char; 8] = ['n', 'o', 'b', 'i', 'l', 'i', 't', 'y'];
    assert(a7@ =~= seq!['n', 'o', 'b', 'i', 'l', 'i', 't', 'y']);
    let a8: [char; 10] = ['p', 'r', 'o', 'f', 'e', 's', 's', 'i', 'o', 'n'];
    assert(a8@ =~= seq!['p', 'r', 'o', 'f', 'e', 's', 's', 'i', 'o', 'n']);
    let a9: [char; 8] = ['p', 'r', 'o', 'p', 'e', 'r', 't', 'y'];
    assert(a9@ =~= seq!['p', 'r', 'o', 'p', 'e', 'r', 't', 'y']);
    let a10: [char; 8] = ['r', 'e', 'l', 'i', 'g', 'i', 'o', 'n'];
    assert(a10@ =~= seq!['r', 'e', 'l', 'i', 'g', 'i', 'o', 'n']);
    let a11: [char; 22] = ['s', 'o', 'c', 'i', 'a', 'l', ' ', 's', 'e', 'c', 'u', 'r', 'i', 't', 'y', ' ', 'n', 'u', 'm', 'b', 'e', 'r'];
    assert(a11@ =~= seq!['s', 'o', 'c', 'i', 'a', 'l', ' ', 's', 'e', 'c', 'u', 'r', 'i', 't', 'y', ' ', 'n', 'u', 'm', 'b', 'e', 'r']);
    let a12: [char; 5] = ['t', 'i', 't', 'l', 'e'];
    assert(a12@ =~= seq!['t', 'i', 't', 'l', 'e']);
    if chars_eq(t.as_slice(), a0.as_slice()) {
        AttributeType::Caste
    } else if chars_eq(t.as_slice(), a1.as_slice()) {
        AttributeType::Cause
    } else if chars_eq(t.as_slice(), a2.as_slice()) {
        AttributeType::Custom
    } else if chars_eq(t.as_slice(), a3.as_slice()) {
        AttributeType::DNA
    } else if chars_eq(t.as_slice(), a4.as_slice()) {
        AttributeType::Description
    } else if chars_eq(t.as_slice(), a5.as_slice()) {
        AttributeType::Ethnicity
    } else if chars_eq(t.as_slice(), a6.as_slice()) {
        AttributeType::Nationality
    } else if chars_eq(t.as_slice(), a7.as_slice()) {
        AttributeType::Nobility
    } else if chars_eq(t.as_slice(), a8.as_slice()) {
        AttributeType::Profession
    } else if chars_eq(t.as_slice(), a9.as_slice()) {
        AttributeType::Property
    } else if chars_eq(t.as_slice(), a10.as_slice()) {
        AttributeType::Religion
    } else if chars_eq(t.as_slice(), a11.as_slice()) {
        AttributeType::SocialSecurityNumber
    } else if chars_eq(t.as_slice(), a12.as_slice()) {
        AttributeType::Title
    } else {
        AttributeType::Custom
    }
}

/// The kinds of the type of a URL.
#[derive(Debug, Clone, Copy, PartialEq, Eq, Structural)]
pub enum UrlType {
    Email,
    WebHome,
    WebSearch,
    FTP,
    Other,
}

/// The type of a URL named by a text: trimmed and lowercased, one of `email`, `web home`, `web_home`, `web search`, `web_search`, `ftp`, `other`; none for any other text.
pub open spec fn url_type_of(s: Seq<char>) -> Option<UrlType> {
    let t = lowered(trimmed(s));
    if t == seq!['e', 'm', 'a', 'i', 'l'] {
        Some(UrlType::Email)
    } else if t == seq!['w', 'e', 'b', ' ', 'h', 'o', 'm', 'e'] {
        Some(UrlType::WebHome)
    } else if t == seq!['w', 'e', 'b', '_', 'h', 'o', 'm', 'e'] {
        Some(UrlType::WebHome)
    } else if t == seq!['w', 'e', 'b', ' ', 's', 'e', 'a', 'r', 'c', 'h'] {
        Some(UrlType::WebSearch)
    } else if t == seq!['w', 'e', 'b', '_', 's', 'e', 'a', 'r', 'c', 'h'] {
        Some(UrlType::WebSearch)
    } else if t == seq!['f', 't', 'p'] {
        Some(UrlType::FTP)
    } else if t == seq!['o', 't', 'h', 'e', 'r'] {
        Some(UrlType::Other)
    } else {
        None
    }
}

/// Read the type of a URL from its text (see `url_type_of`).
pub fn parse_url_type(s: &str) -> (r: Option<UrlType>)
    ensures
        r == url_type_of(s@),
{
    let t = lowered_trim(s);
    let a0: [char; 5] = ['e', 'm', 'a', 'i', 'l'];
    assert(a0@ =~= seq!['e', 'm', 'a', 'i', 'l']);
    let a1: [char; 8] = ['w', 'e', 'b', ' ', 'h', 'o', 'm', 'e'];
    assert(a1@ =~= seq!['w', 'e', 'b', ' ', 'h', 'o', 'm', 'e']);
    let a2: [char; 8] = ['w', 'e', 'b', '_', 'h', 'o', 'm', 'e'];
    assert(a2@ =~= seq!['w', 'e', 'b', '_', 'h', 'o', 'm', 'e']);
    let a3: [char; 10] = ['w', 'e', 'b', ' ', 's', 'e', 'a', 'r', 'c', 'h'];
    assert(a3@ =~= seq!['w', 'e', 'b', ' ', 's', 'e', 'a', 'r', 'c', 'h']);
    let a4: [char; 10] = ['w', 'e', 'b', '_', 's', 'e', 'a', 'r', 'c', 'h'];
    assert(a4@ =~= seq!['w', 'e', 'b', '_', 's', 'e', 'a', 'r', 'c', 'h']);
    let a5: [char; 3] = ['f', 't', 'p'];
    assert(a5@ =~= seq!['f', 't', 'p']);
    let a6: [char; 5] = ['o', 't', 'h', 'e', 'r'];
    assert(a6@ =~= seq!['o', 't', 'h', 'e', 'r']);
    if chars_eq(t.as_slice(), a0.as_slice()) {
        Some(UrlType::Email)
    } else if chars_eq(t.as_slice(), a1.as_slice()) {
        Some(UrlType::WebHome)
    } else if chars_eq(t.as_slice(), a2.as_slice()) {
        Some(UrlType::WebHome)
    } else if chars_eq(t.as_slice(), a3.as_slice()) {
        Some(UrlType::WebSearch)
    } else if chars_eq(t.as_slice(), a4.as_slice()) {
        Some(UrlType::WebSearch)
    } else if chars_eq(t.as_slice(), a5.as_slice()) {
        Some(UrlType::FTP)
    } else if chars_eq(t.as_slice(), a6.as_slice()) {
        Some(UrlType::Other)
    } else {
        None
    }
}

/// The kinds of the type of an LDS ordinance.
#[derive(Debug, Clone, Copy, PartialEq, Eq, Structural)]
pub enum LdsOrdType {
    Baptism,
    Confirm,
    Endowment,
    SealingToParents,
    SealingToSpouse,
    Other,
}

/// The type of an LDS ordinance named by a text: trimmed and lowercased, one of `baptism`, `confirm`, `endowment`, `sealing to parents`, `sealing to spouse`, `other`; `Baptism` for any other text.
pub open spec fn lds_ord_type_of(s: Seq<char>) -> LdsOrdType {
    let t = lowered(trimmed(s));
    if t == seq!['b', 'a', 'p', 't', 'i', 's', 'm'] {
        LdsOrdType::Baptism
    } else if t == seq!['c', 'o', 'n', 'f', 'i', 'r', 'm'] {
        LdsOrdType::Confirm
    } else if t == seq!['e', 'n', 'd', 'o', 'w', 'm', 'e', 'n', 't'] {
        LdsOrdType::Endowment
    } else if t == seq!['s', 'e', 'a', 'l', 'i', 'n', 'g', ' ', 't', 'o', ' ', 'p', 'a', 'r', 'e', 'n', 't', 's'] {
        LdsOrdType::SealingToParents
    } else if t == seq!['s', 'e', 'a', 'l', 'i', 'n', 'g', ' ', 't', 'o', ' ', 's', 'p', 'o', 'u', 's', 'e'] {
        LdsOrdType::SealingToSpouse
    } else if t == seq!['o', 't', 'h', 'e', 'r'] {
        LdsOrdType::Other
    } else {
        LdsOrdType::Baptism
    }
}

/// Read the type of an LDS ordinance from its text (see `lds_ord_type_of`).
pub fn parse_lds_ord_type(s: &str) -> (r: LdsOrdType)
    ensures
        r == lds_ord_type_of(s@),
{
    let t = lowered_trim(s);
    let a0: [char; 7] = ['b', 'a', 'p', 't', 'i', 's', 'm'];
    assert(a0@ =~= seq!['b', 'a', 'p', 't', 'i', 's', 'm']);
    let a1: [char; 7] = ['c', 'o', 'n', 'f', 'i', 'r', 'm'];
    assert(a1@ =~= seq!['c', 'o', 'n', 'f', 'i', 'r', 'm']);
    let a2: [char; 9] = ['e', 'n', 'd', 'o', 'w', 'm', 'e', 'n', 't'];
    assert(a2@ =~= seq!['e', 'n', 'd', 'o', 'w', 'm', 'e', 'n', 't']);
    let a3: [char; 18] = ['s', 'e', 'a', 'l', 'i', 'n', 'g', ' ', 't', 'o', ' ', 'p', 'a', 'r', 'e', 'n', 't', 's'];
    assert(a3@ =~= seq!['s', 'e', 'a', 'l', 'i', 'n', 'g', ' ', 't', 'o', ' ', 'p', 'a', 'r', 'e', 'n', 't', 's']);
    let a4: [char; 17] = ['s', 'e', 'a', 'l', 'i', 'n', 'g', ' ', 't', 'o', ' ', 's', 'p', 'o', 'u', 's', 'e'];
    assert(a4@ =~= seq!['s', 'e', 'a', 'l', 'i', 'n', 'g', ' ', 't', 'o', ' ', 's', 'p', 'o', 'u', 's', 'e']);
    let a5: [char; 5] = ['o', 't', 'h', 'e', 'r'];
    assert(a5@ =~= seq!['o', 't', 'h', 'e', 'r']);
    if chars_eq(t.as_slice(), a0.as_slice()) {
        LdsOrdType::Baptism
    } else if chars_eq(t.as_slice(), a1.as_slice()) {
        LdsOrdType::Confirm
    } else if chars_eq(t.as_slice(), a2.as_slice()) {
        LdsOrdType::Endowment
    } else if chars_eq(t.as_slice(), a3.as_slice()) {
        LdsOrdType::SealingToParents
    } else if chars_eq(t.as_slice(), a4.as_slice()) {
        LdsOrdType::SealingToSpouse
    } else if chars_eq(t.as_slice(), a5.as_slice()) {
        LdsOrdType::Other
    } else {
        LdsOrdType::Baptism
    }
}

/// The kinds of a child's relation to a parent.
#[derive(Debug, Clone, Copy, PartialEq, Eq, Structural)]
pub enum ChildRefType {
    Adopted,
    Birth,
    Created,
    Foster,
    Godchild,
    Other,
    Sponsor,
    Stepchild,
}

/// The relation named by a text: trimmed and lowercased, one of `adopted`, `birth`, `created`, `foster`, `godchild`, `other`, `sponsor`, `stepchild`; none for any other text.
pub open spec fn child_rel_of(s: Seq<char>) -> Option<ChildRefType> {
    let t = lowered(trimmed(s));
    if t == seq!['a', 'd', 'o', 'p', 't', 'e', 'd'] {
        Some(ChildRefType::Adopted)
    } else if t == seq!['b', 'i', 'r', 't', 'h'] {
        Some(ChildRefType::Birth)
    } else if t == seq!['c', 'r', 'e', 'a', 't', 'e', 'd'] {
        Some(ChildRefType::Created)
    } else if t == seq!['f', 'o', 's', 't', 'e', 'r'] {
        Some(ChildRefType::Foster)
    } else if t == seq!['g', 'o', 'd', 'c', 'h', 'i', 'l', 'd'] {
        Some(ChildRefType::Godchild)
    } else if t == seq!['o', 't', 'h', 'e', 'r'] {
        Some(ChildRefType::Other)
    } else if t == seq!['s', 'p', 'o', 'n', 's', 'o', 'r'] {
        Some(ChildRefType::Sponsor)
    } else if t == seq!['s', 't', 'e', 'p', 'c', 'h', 'i', 'l', 'd'] {
        Some(ChildRefType::Stepchild)
    } else {
        None
    }
}

/// Read a child's relation to a parent from its text (see `child_rel_of`).
pub fn parse_child_rel(s: &str) -> (r: Option<ChildRefType>)
    ensures
        r == child_rel_of(s@),
{
    let t = lowered_trim(s);
    let a0: [char; 7] = ['a', 'd', 'o', 'p', 't', 'e', 'd'];
    assert(a0@ =~= seq!['a', 'd', 'o', 'p', 't', 'e', 'd']);
    let a1: [char; 5] = ['b', 'i', 'r', 't', 'h'];
    assert(a1@ =~= seq!['b', 'i', 'r', 't', 'h']);
    let a2: [char; 7] = ['c', 'r', 'e', 'a', 't', 'e', 'd'];
    assert(a2@ =~= seq!['c', 'r', 'e', 'a', 't', 'e', 'd']);
    let a3: [char; 6] = ['f', 'o', 's', 't', 'e', 'r'];
    assert(a3@ =~= seq!['f', 'o', 's', 't', 'e', 'r']);
    let a4: [char; 8] = ['g', 'o', 'd', 'c', 'h', 'i', 'l', 'd'];
    assert(a4@ =~= seq!['g', 'o', 'd', 'c', 'h', 'i', 'l', 'd']);
    let a5: [char; 5] = ['o', 't', 'h', 'e', 'r'];
    assert(a5@ =~= seq!['o', 't', 'h', 'e', 'r']);
    let a6: [char; 7] = ['s', 'p', 'o', 'n', 's', 'o', 'r'];
    assert(a6@ =~= seq!['s', 'p', 'o', 'n', 's', 'o', 'r']);
    let a7: [char; 9] = ['s', 't', 'e', 'p', 'c', 'h', 'i', 'l', 'd'];
    assert(a7@ =~= seq!['s', 't', 'e', 'p', 'c', 'h', 'i', 'l', 'd']);
    if chars_eq(t.as_slice(), a0.as_slice()) {
        Some(ChildRefType::Adopted)
    } else if chars_eq(t.as_slice(), a1.as_slice()) {
        Some(ChildRefType::Birth)
    } else if chars_eq(t.as_slice(), a2.as_slice()) {
        Some(ChildRefType::Created)
    } else if chars_eq(t.as_slice(), a3.as_slice()) {
        Some(ChildRefType::Foster)
    } else if chars_eq(t.as_slice(), a4.as_slice()) {
        Some(ChildRefType::Godchild)
    } else if chars_eq(t.as_slice(), a5.as_slice()) {
        Some(ChildRefType::Other)
    } else if chars_eq(t.as_slice(), a6.as_slice()) {
        Some(ChildRefType::Sponsor)
    } else if chars_eq(t.as_slice(), a7.as_slice()) {
        Some(ChildRefType::Stepchild)
    } else {
        None
    }
}

/// The kinds of an event.
#[derive(Debug, Clone, Copy, PartialEq, Eq, Structural)]
pub enum EventType {
    Adoption,
    Baptism,
    BarMitzvah,
    BatMitzvah,
    Birth,
    Burial,
    Census,
    Confirmation,
    Correspondence,
    Creates,
    Death,
    Divorce,
    Education,
    Emigration,
    Funeral,
    Graduation,
    Immigration,
    Marriage,
    MilitaryService,
    Naturalization,
    Occupation,
    Other,
    Probate,
    Religion,
    Residence,
    Retirement,
    Title,
    Will,
}

/// The type of an event named by a text: trimmed and lowercased, one of the keywords of the table below; none for any other text.
pub open spec fn event_type_of(s: Seq<char>) -> Option<EventType> {
    let t = lowered(trimmed(s));
    if t == seq!['a', 'd', 'o', 'p', 't', 'i', 'o', 'n'] {
        Some(EventType::Adoption)
    } else if t == seq!['b', 'a', 'p', 't', 'i', 's', 'm'] {
        Some(EventType::Baptism)
    } else if t == seq!['b', 'a', 'r', ' ', 'm', 'i', 't', 'z', 'v', 'a', 'h'] {
        Some(EventType::BarMitzvah)
    } else if t == seq!['b', 'a', 't', ' ', 'm', 'i', 't', 'z', 'v', 'a', 'h'] {
        Some(EventType::BatMitzvah)
    } else if t == seq!['b', 'i', 'r', 't', 'h'] {
        Some(EventType::Birth)
    } else if t == seq!['b', 'u', 'r', 'i', 'a', 'l'] {
        Some(EventType::Burial)
    } else if t == seq!['c', 'e', 'n', 's', 'u', 's'] {
        Some(EventType::Census)
    } else if t == seq!['c', 'o', 'n', 'f', 'i', 'r', 'm', 'a', 't', 'i', 'o', 'n'] {
        Some(EventType::Confirmation)
    } else if t == seq!['c', 'o', 'r', 'r', 'e', 's', 'p', 'o', 'n', 'd', 'e', 'n', 'c', 'e'] {
        Some(EventType::Correspondence)
    } else if t == seq!['c', 'r', 'e', 'a', 't', 'e', 's'] {
        Some(EventType::Creates)
    } else if t == seq!['d', 'e', 'a', 't', 'h'] {
        Some(EventType::Death)
    } else if t == seq!['d', 'i', 'v', 'o', 'r', 'c', 'e'] {
        Some(EventType::Divorce)
    } else if t == seq!['e', 'd', 'u', 'c', 'a', 't', 'i', 'o', 'n'] {
        Some(EventType::Education)
    } else if t == seq!['e', 'm', 'i', 'g', 'r', 'a', 't', 'i', 'o', 'n'] {
        Some(EventType::Emigration)
    } else if t == seq!['f', 'u', 'n', 'e', 'r', 'a', 'l'] {
        Some(EventType::Funeral)
    } else if t == seq!['g', 'r', 'a', 'd', 'u', 'a', 't', 'i', 'o', 'n'] {
        Some(EventType::Graduation)
    } else if t == seq!['i', 'm', 'm', 'i', 'g', 'r', 'a', 't', 'i', 'o', 'n'] {
        Some(EventType::Immigration)
    } else if t == seq!['m', 'a', 'r', 'r', 'i', 'a', 'g', 'e'] {
        Some(EventType::Marriage)
    } else if t == seq!['m', 'i', 'l', 'i', 't', 'a', 'r', 'y', ' ', 's', 'e', 'r', 'v', 'i', 'c', 'e'] {
        Some(EventType::MilitaryService)
    } else if t == seq!['n', 'a', 't', 'u', 'r', 'a', 'l', 'i', 'z', 'a', 't', 'i', 'o', 'n'] {
        Some(EventType::Naturalization)
    } else if t == seq!['o', 'c', 'c', 'u', 'p', 'a', 't', 'i', 'o', 'n'] {
        Some(EventType::Occupation)
    } else if t == seq!['o', 't', 'h', 'e', 'r'] {
        Some(EventType::Other)
    } else if t == seq!['p', 'r', 'o', 'b', 'a', 't', 'e'] {
        Some(EventType::Probate)
    } else if t == seq!['r', 'e', 'l', 'i', 'g', 'i', 'o', 'n'] {
        Some(EventType::Religion)
    } else if t == seq!['r', 'e', 's', 'i', 'd', 'e', 'n', 'c', 'e'] {
        Some(EventType::Residence)
    } else if t == seq!['r', 'e', 't', 'i', 'r', 'e', 'm', 'e', 'n', 't'] {
        Some(EventType::Retirement)
    } else if t == seq!['t', 'i', 't', 'l', 'e'] {
        Some(EventType::Title)
    } else if t == seq!['w', 'i', 'l', 'l'] {
        Some(EventType::Will)
    } else {
        None
    }
}

/// Read the type of an event from its text (see `event_type_of`).
pub fn parse_event_type(s: &str) -> (r: Option<EventType>)
    ensures
        r == event_type_of(s@),
{
    let t = lowered_trim(s);
    let a0: [char; 8] = ['a', 'd', 'o', 'p', 't', 'i', 'o', 'n'];
    assert(a0@ =~= seq!['a', 'd', 'o', 'p', 't', 'i', 'o', 'n']);
    let a1: [char; 7] = ['b', 'a', 'p', 't', 'i', 's', 'm'];
    assert(a1@ =~= seq!['b', 'a', 'p', 't', 'i', 's', 'm']);
    let a2: [char; 11] = ['b', 'a', 'r', ' ', 'm', 'i', 't', 'z', 'v', 'a', 'h'];
    assert(a2@ =~= seq!['b', 'a', 'r', ' ', 'm', 'i', 't', 'z', 'v', 'a', 'h']);
    let a3: [char; 11] = ['b', 'a', 't', ' ', 'm', 'i', 't', 'z', 'v', 'a', 'h'];
    assert(a3@ =~= seq!['b', 'a', 't', ' ', 'm', 'i', 't', 'z', 'v', 'a', 'h']);
    let a4: [char; 5] = ['b', 'i', 'r', 't', 'h'];
    assert(a4@ =~= seq!['b', 'i', 'r', 't', 'h']);
    let a5: [char; 6] = ['b', 'u', 'r', 'i', 'a', 'l'];
    assert(a5@ =~= seq!['b', 'u', 'r', 'i', 'a', 'l']);
    let a6: [char; 6] = ['c', 'e', 'n', 's', 'u', 's'];
    assert(a6@ =~= seq!['c', 'e', 'n', 's', 'u', 's']);
    let a7: [char; 12] = ['c', 'o', 'n', 'f', 'i', 'r', 'm', 'a', 't', 'i', 'o', 'n'];
    assert(a7@ =~= seq!['c', 'o', 'n', 'f', 'i', 'r', 'm', 'a', 't', 'i', 'o', 'n']);
    let a8: [char; 14] = ['c', 'o', 'r', 'r', 'e', 's', 'p', 'o', 'n', 'd', 'e', 'n', 'c', 'e'];
    assert(a8@ =~= seq!['c', 'o', 'r', 'r', 'e', 's', 'p', 'o', 'n', 'd', 'e', 'n', 'c', 'e']);
    let a9: [char; 7] = ['c', 'r', 'e', 'a', 't', 'e', 's'];
    assert(a9@ =~= seq!['c', 'r', 'e', 'a', 't', 'e', 's']);
    let a10: [char; 5] = ['d', 'e', 'a', 't', 'h'];
    assert(a10@ =~= seq!['d', 'e', 'a', 't', 'h']);
    let a11: [char; 7] = ['d', 'i', 'v', 'o', 'r', 'c', 'e'];
    assert(a11@ =~= seq!['d', 'i', 'v', 'o', 'r', 'c', 'e']);
    let a12: [char; 9] = ['e', 'd', 'u', 'c', 'a', 't', 'i', 'o', 'n'];
    assert(a12@ =~= seq!['e', 'd', 'u', 'c', 'a', 't', 'i', 'o', 'n']);
    let a13: [char; 10] = ['e', 'm', 'i', 'g', 'r', 'a', 't', 'i', 'o', 'n'];
    assert(a13@ =~= seq!['e', 'm', 'i', 'g', 'r', 'a', 't', 'i', 'o', 'n']);
    let a14: [char; 7] = ['f', 'u', 'n', 'e', 'r', 'a', 'l'];
    assert(a14@ =~= seq!['f', 'u', 'n', 'e', 'r', 'a', 'l']);
    let a15: [char; 10] = ['g', 'r', 'a', 'd', 'u', 'a', 't', 'i', 'o', 'n'];
    assert(a15@ =~= seq!['g', 'r', 'a', 'd', 'u', 'a', 't', 'i', 'o', 'n']);
    let a16: [char; 11] = ['i', 'm', 'm', 'i', 'g', 'r', 'a', 't', 'i', 'o', 'n'];
    assert(a16@ =~= seq!['i', 'm', 'm', 'i', 'g', 'r', 'a', 't', 'i', 'o', 'n']);
    let a17: [char; 8] = ['m', 'a', 'r', 'r', 'i', 'a', 'g', 'e'];
    assert(a17@ =~= seq!['m', 'a', 'r', 'r', 'i', 'a', 'g', 'e']);
    let a18: [char; 16] = ['m', 'i', 'l', 'i', 't', 'a', 'r', 'y', ' ', 's', 'e', 'r', 'v', 'i', 'c', 'e'];
    assert(a18@ =~= seq!['m', 'i', 'l', 'i', 't', 'a', 'r', 'y', ' ', 's', 'e', 'r', 'v', 'i', 'c', 'e']);
    let a19: [char; 14] = ['n', 'a', 't', 'u', 'r', 'a', 'l', 'i', 'z', 'a', 't', 'i', 'o', 'n'];
    assert(a19@ =~= seq!['n', 'a', 't', 'u', 'r', 'a', 'l', 'i', 'z', 'a', 't', 'i', 'o', 'n']);
    let a20: [char; 10] = ['o', 'c', 'c', 'u', 'p', 'a', 't', 'i', 'o', 'n'];
    assert(a20@ =~= seq!['o', 'c', 'c', 'u', 'p', 'a', 't', 'i', 'o', 'n']);
    let a21: [char; 5] = ['o', 't', 'h', 'e', 'r'];
    assert(a21@ =~= seq!['o', 't', 'h', 'e', 'r']);
    let a22: [char; 7] = ['p', 'r', 'o', 'b', 'a', 't', 'e'];
    assert(a22@ =~= seq!['p', 'r', 'o', 'b', 'a', 't', 'e']);
    let a23: [char; 8] = ['r', 'e', 'l', 'i', 'g', 'i', 'o', 'n'];
    assert(a23@ =~= seq!['r', 'e', 'l', 'i', 'g', 'i', 'o', 'n']);
    let a24: [char; 9] = ['r', 'e', 's', 'i', 'd', 'e', 'n', 'c', 'e'];
    assert(a24@ =~= seq!['r', 'e', 's', 'i', 'd', 'e', 'n', 'c', 'e']);
    let a25: [char; 10] = ['r', 'e', 't', 'i', 'r', 'e', 'm', 'e', 'n', 't'];
    assert(a25@ =~= seq!['r', 'e', 't', 'i', 'r', 'e', 'm', 'e', 'n', 't']);
    let a26: [char; 5] = ['t', 'i', 't', 'l', 'e'];
    assert(a26@ =~= seq!['t', 'i', 't', 'l', 'e']);
    let a27: [char; 4] = ['w', 'i', 'l', 'l'];
    assert(a27@ =~= seq!['w', 'i', 'l', 'l']);
    if chars_eq(t.as_slice(), a0.as_slice()) {
        Some(EventType::Adoption)
    } else if chars_eq(t.as_slice(), a1.as_slice()) {
        Some(EventType::Baptism)
    } else if chars_eq(t.as_slice(), a2.as_slice()) {
        Some(EventType::BarMitzvah)
    } else if chars_eq(t.as_slice(), a3.as_slice()) {
        Some(EventType::BatMitzvah)
    } else if chars_eq(t.as_slice(), a4.as_slice()) {
        Some(EventType::Birth)
    } else if chars_eq(t.as_slice(), a5.as_slice()) {
        Some(EventType::Burial)
    } else if chars_eq(t.as_slice(), a6.as_slice()) {
        Some(EventType::Census)
    } else if chars_eq(t.as_slice(), a7.as_slice()) {
        Some(EventType::Confirmation)
    } else if chars_eq(t.as_slice(), a8.as_slice()) {
        Some(EventType::Correspondence)
    } else if chars_eq(t.as_slice(), a9.as_slice()) {
        Some(EventType::Creates)
    } else if chars_eq(t.as_slice(), a10.as_slice()) {
        Some(EventType::Death)
    } else if chars_eq(t.as_slice(), a11.as_slice()) {
        Some(EventType::Divorce)
    } else if chars_eq(t.as_slice(), a12.as_slice()) {
        Some(EventType::Education)
    } else if chars_eq(t.as_slice(), a13.as_slice()) {
        Some(EventType::Emigration)
    } else if chars_eq(t.as_slice(), a14.as_slice()) {
        Some(EventType::Funeral)
    } else if chars_eq(t.as_slice(), a15.as_slice()) {
        Some(EventType::Graduation)
    } else if chars_eq(t.as_slice(), a16.as_slice()) {
        Some(EventType::Immigration)
    } else if chars_eq(t.as_slice(), a17.as_slice()) {
        Some(EventType::Marriage)
    } else if chars_eq(t.as_slice(), a18.as_slice()) {
        Some(EventType::MilitaryService)
    } else if chars_eq(t.as_slice(), a19.as_slice()) {
        Some(EventType::Naturalization)
    } else if chars_eq(t.as_slice(), a20.as_slice()) {
        Some(EventType::Occupation)
    } else if chars_eq(t.as_slice(), a21.as_slice()) {
        Some(EventType::Other)
    } else if chars_eq(t.as_slice(), a22.as_slice()) {
        Some(EventType::Probate)
    } else if chars_eq(t.as_slice(), a23.as_slice()) {
        Some(EventType::Religion)
    } else if chars_eq(t.as_slice(), a24.as_slice()) {
        Some(EventType::Residence)
    } else if chars_eq(t.as_slice(), a25.as_slice()) {
        Some(EventType::Retirement)
    } else if chars_eq(t.as_slice(), a26.as_slice()) {
        Some(EventType::Title)
    } else if chars_eq(t.as_slice(), a27.as_slice()) {
        Some(EventType::Will)
    } else {
        None
    }
}

/// The kinds of the medium of a source held in a repository.
#[derive(Debug, Clone, Copy, PartialEq, Eq, Structural)]
pub enum SourceMediaType {
    Audio,
    Book,
    CD,
    Card,
    Electronic,
    Fiche,
    Film,
    Magazine,
    Manuscript,
    MapSheet,
    Newspaper,
    Other,
    Photo,
    Tombstone,
    Video,
}

/// The medium of a source named by a text: trimmed and lowercased, one of `audio`, `book`, `cd`, `card`, `electronic`, `fiche`, `film`, `magazine`, `manuscript`, `map`, `newspaper`, `other`, `photo`, `tombstone`, `video`; none for any other text.
pub open spec fn source_media_type_of(s: Seq<char>) -> Option<SourceMediaType> {
    let t = lowered(trimmed(s));
    if t == seq!['a', 'u', 'd', 'i', 'o'] {
        Some(SourceMediaType::Audio)
    } else if t == seq!['b', 'o', 'o', 'k'] {
        Some(SourceMediaType::Book)
    } else if t == seq!['c', 'd'] {
        Some(SourceMediaType::CD)
    } else if t == seq!['c', 'a', 'r', 'd'] {
        Some(SourceMediaType::Card)
    } else if t == seq!['e', 'l', 'e', 'c', 't', 'r', 'o', 'n', 'i', 'c'] {
        Some(SourceMediaType::Electronic)
    } else if t == seq!['f', 'i', 'c', 'h', 'e'] {
        Some(SourceMediaType::Fiche)
    } else if t == seq!['f', 'i', 'l', 'm'] {
        Some(SourceMediaType::Film)
    } else if t == seq!['m', 'a', 'g', 'a', 'z', 'i', 'n', 'e'] {
        Some(SourceMediaType::Magazine)
    } else if t == seq!['m', 'a', 'n', 'u', 's', 'c', 'r', 'i', 'p', 't'] {
        Some(SourceMediaType::Manuscript)
    } else if t == seq!['m', 'a', 'p'] {
        Some(SourceMediaType::MapSheet)
    } else if t == seq!['n', 'e', 'w', 's', 'p', 'a', 'p', 'e', 'r'] {
        Some(SourceMediaType::Newspaper)
    } else if t == seq!['o', 't', 'h', 'e', 'r'] {
        Some(SourceMediaType::Other)
    } else if t == seq!['p', 'h', 'o', 't', 'o'] {
        Some(SourceMediaType::Photo)
    } else if t == seq!['t', 'o', 'm', 'b', 's', 't', 'o', 'n', 'e'] {
        Some(SourceMediaType::Tombstone)
    } else if t == seq!['v', 'i', 'd', 'e', 'o'] {
        Some(SourceMediaType::Video)
    } else {
        None
    }
}

/// Read the medium of a source from its text (see `source_media_type_of`).
pub fn parse_source_media_type(s: &str) -> (r: Option<SourceMediaType>)
    ensures
        r == source_media_type_of(s@),
{
    let t = lowered_trim(s);
    let a0: [char; 5] = ['a', 'u', 'd', 'i', 'o'];
    assert(a0@ =~= seq!['a', 'u', 'd', 'i', 'o']);
    let a1: [char; 4] = ['b', 'o', 'o', 'k'];
    assert(a1@ =~= seq!['b', 'o', 'o', 'k']);
    let a2: [char; 2] = ['c', 'd'];
    assert(a2@ =~= seq!['c', 'd']);
    let a3: [char; 4] = ['c', 'a', 'r', 'd'];
    assert(a3@ =~= seq!['c', 'a', 'r', 'd']);
    let a4: [char; 10] = ['e', 'l', 'e', 'c', 't', 'r', 'o', 'n', 'i', 'c'];
    assert(a4@ =~= seq!['e', 'l', 'e', 'c', 't', 'r', 'o', 'n', 'i', 'c']);
    let a5: [char; 5] = ['f', 'i', 'c', 'h', 'e'];
    assert(a5@ =~= seq!['f', 'i', 'c', 'h', 'e']);
    let a6: [char; 4] = ['f', 'i', 'l', 'm'];
    assert(a6@ =~= seq!['f', 'i', 'l', 'm']);
    let a7: [char; 8] = ['m', 'a', 'g', 'a', 'z', 'i', 'n', 'e'];
    assert(a7@ =~= seq!['m', 'a', 'g', 'a', 'z', 'i', 'n', 'e']);
    let a8: [char; 10] = ['m', 'a', 'n', 'u', 's', 'c', 'r', 'i', 'p', 't'];
    assert(a8@ =~= seq!['m', 'a', 'n', 'u', 's', 'c', 'r', 'i', 'p', 't']);
    let a9: [char; 3] = ['m', 'a', 'p'];
    assert(a9@ =~= seq!['m', 'a', 'p']);
    let a10: [char; 9] = ['n', 'e', 'w', 's', 'p', 'a', 'p', 'e', 'r'];
    assert(a10@ =~= seq!['n', 'e', 'w', 's', 'p', 'a', 'p', 'e', 'r']);
    let a11: [char; 5] = ['o', 't', 'h', 'e', 'r'];
    assert(a11@ =~= seq!['o', 't', 'h', 'e', 'r']);
    let a12: [char; 5] = ['p', 'h', 'o', 't', 'o'];
    assert(a12@ =~= seq!['p', 'h', 'o', 't', 'o']);
    let a13: [char; 9] = ['t', 'o', 'm', 'b', 's', 't', 'o', 'n', 'e'];
    assert(a13@ =~= seq!['t', 'o', 'm', 'b', 's', 't', 'o', 'n', 'e']);
    let a14: [char; 5] = ['v', 'i', 'd', 'e', 'o'];
    assert(a14@ =~= seq!['v', 'i', 'd', 'e', 'o']);
    if chars_eq(t.as_slice(), a0.as_slice()) {
        Some(SourceMediaType::Audio)
    } else if chars_eq(t.as_slice(), a1.as_slice()) {
        Some(SourceMediaType::Book)
    } else if chars_eq(t.as_slice(), a2.as_slice()) {
        Some(SourceMediaType::CD)
    } else if chars_eq(t.as_slice(), a3.as_slice()) {
        Some(SourceMediaType::Card)
    } else if chars_eq(t.as_slice(), a4.as_slice()) {
        Some(SourceMediaType::Electronic)
    } else if chars_eq(t.as_slice(), a5.as_slice()) {
        Some(SourceMediaType::Fiche)
    } else if chars_eq(t.as_slice(), a6.as_slice()) {
        Some(SourceMediaType::Film)
    } else if chars_eq(t.as_slice(), a7.as_slice()) {
        Some(SourceMediaType::Magazine)
    } else if chars_eq(t.as_slice(), a8.as_slice()) {
        Some(SourceMediaType::Manuscript)
    } else if chars_eq(t.as_slice(), a9.as_slice()) {
        Some(SourceMediaType::MapSheet)
    } else if chars_eq(t.as_slice(), a10.as_slice()) {
        Some(SourceMediaType::Newspaper)
    } else if chars_eq(t.as_slice(), a11.as_slice()) {
        Some(SourceMediaType::Other)
    } else if chars_eq(t.as_slice(), a12.as_slice()) {
        Some(SourceMediaType::Photo)
    } else if chars_eq(t.as_slice(), a13.as_slice()) {
        Some(SourceMediaType::Tombstone)
    } else if chars_eq(t.as_slice(), a14.as_slice()) {
        Some(SourceMediaType::Video)
    } else {
        None
    }
}

/// The kinds of the type of a repository.
#[derive(Debug, Clone, Copy, PartialEq, Eq, Structural)]
pub enum RepositoryType {
    Archive,
    Cemetery,
    Church,
    CourtHouse,
    HistoricalSociety,
    Library,
    Museum,
    Other,
}

/// The type of a repository named by a text: trimmed and lowercased, one of `archive`, `cemetery`, `church`, `court house`, `court_house`, `historical society`, `historical_society`, `library`, `museum`, `other`; none for any other text.
pub open spec fn repository_type_of(s: Seq<char>) -> Option<RepositoryType> {
    let t = lowered(trimmed(s));
    if t == seq!['a', 'r', 'c', 'h', 'i', 'v', 'e'] {
        Some(RepositoryType::Archive)
    } else if t == seq!['c', 'e', 'm', 'e', 't', 'e', 'r', 'y'] {
        Some(RepositoryType::Cemetery)
    } else if t == seq!['c', 'h', 'u', 'r', 'c', 'h'] {
        Some(RepositoryType::Church)
    } else if t == seq!['c', 'o', 'u', 'r', 't', ' ', 'h', 'o', 'u', 's', 'e'] {
        Some(RepositoryType::CourtHouse)
    } else if t == seq!['c', 'o', 'u', 'r', 't', '_', 'h', 'o', 'u', 's', 'e'] {
        Some(RepositoryType::CourtHouse)
    } else if t == seq!['h', 'i', 's', 't', 'o', 'r', 'i', 'c', 'a', 'l', ' ', 's', 'o', 'c', 'i', 'e', 't', 'y'] {
        Some(RepositoryType::HistoricalSociety)
    } else if t == seq!['h', 'i', 's', 't', 'o', 'r', 'i', 'c', 'a', 'l', '_', 's', 'o', 'c', 'i', 'e', 't', 'y'] {
        Some(RepositoryType::HistoricalSociety)
    } else if t == seq!['l', 'i', 'b', 'r', 'a', 'r', 'y'] {
        Some(RepositoryType::Library)
    } else if t == seq!['m', 'u', 's', 'e', 'u', 'm'] {
        Some(RepositoryType::Museum)
    } else if t == seq!['o', 't', 'h', 'e', 'r'] {
        Some(RepositoryType::Other)
    } else {
        None
    }
}

/// Read the type of a repository from its text (see `repository_type_of`).
pub fn parse_repository_type(s: &str) -> (r: Option<RepositoryType>)
    ensures
        r == repository_type_of(s@),
{
    let t = lowered_trim(s);
    let a0: [char; 7] = ['a', 'r', 'c', 'h', 'i', 'v', 'e'];
    assert(a0@ =~= seq!['a', 'r', 'c', 'h', 'i', 'v', 'e']);
    let a1: [char; 8] = ['c', 'e', 'm', 'e', 't', 'e', 'r', 'y'];
    assert(a1@ =~= seq!['c', 'e', 'm', 'e', 't', 'e', 'r', 'y']);
    let a2: [char; 6] = ['c', 'h', 'u', 'r', 'c', 'h'];
    assert(a2@ =~= seq!['c', 'h', 'u', 'r', 'c', 'h']);
    let a3: [char; 11] = ['c', 'o', 'u', 'r', 't', ' ', 'h', 'o', 'u', 's', 'e'];
    assert(a3@ =~= seq!['c', 'o', 'u', 'r', 't', ' ', 'h', 'o', 'u', 's', 'e']);
    let a4: [char; 11] = ['c', 'o', 'u', 'r', 't', '_', 'h', 'o', 'u', 's', 'e'];
    assert(a4@ =~= seq!['c', 'o', 'u', 'r', 't', '_', 'h', 'o', 'u', 's', 'e']);
    let a5: [char; 18] = ['h', 'i', 's', 't', 'o', 'r', 'i', 'c', 'a', 'l', ' ', 's', 'o', 'c', 'i', 'e', 't', 'y'];
    assert(a5@ =~= seq!['h', 'i', 's', 't', 'o', 'r', 'i', 'c', 'a', 'l', ' ', 's', 'o', 'c', 'i', 'e', 't', 'y']);
    let a6: [char; 18] = ['h', 'i', 's', 't', 'o', 'r', 'i', 'c', 'a', 'l', '_', 's', 'o', 'c', 'i', 'e', 't', 'y'];
    assert(a6@ =~= seq!['h', 'i', 's', 't', 'o', 'r', 'i', 'c', 'a', 'l', '_', 's', 'o', 'c', 'i', 'e', 't', 'y']);
    let a7: [char; 7] = ['l', 'i', 'b', 'r', 'a', 'r', 'y'];
    assert(a7@ =~= seq!['l', 'i', 'b', 'r', 'a', 'r', 'y']);
    let a8: [char; 6] = ['m', 'u', 's', 'e', 'u', 'm'];
    assert(a8@ =~= seq!['m', 'u', 's', 'e', 'u', 'm']);
    let a9: [char; 5] = ['o', 't', 'h', 'e', 'r'];
    assert(a9@ =~= seq!['o', 't', 'h', 'e', 'r']);
    if chars_eq(t.as_slice(), a0.as_slice()) {
        Some(RepositoryType::Archive)
    } else if chars_eq(t.as_slice(), a1.as_slice()) {
        Some(RepositoryType::Cemetery)
    } else if chars_eq(t.as_slice(), a2.as_slice()) {
        Some(RepositoryType::Church)
    } else if chars_eq(t.as_slice(), a3.as_slice()) {
        Some(RepositoryType::CourtHouse)
    } else if chars_eq(t.as_slice(), a4.as_slice()) {
        Some(RepositoryType::CourtHouse)
    } else if chars_eq(t.as_slice(), a5.as_slice()) {
        Some(RepositoryType::HistoricalSociety)
    } else if chars_eq(t.as_slice(), a6.as_slice()) {
        Some(RepositoryType::HistoricalSociety)
    } else if chars_eq(t.as_slice(), a7.as_slice()) {
        Some(RepositoryType::Library)
    } else if chars_eq(t.as_slice(), a8.as_slice()) {
        Some(RepositoryType::Museum)
    } else if chars_eq(t.as_slice(), a9.as_slice()) {
        Some(RepositoryType::Other)
    } else {
        None
    }
}

} // verus!
