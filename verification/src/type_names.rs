//! The texts each typed value is read from, and the laws that tie the
//! readers to them: a value read names the text it was read from, and each
//! of a value's texts reads as that value.

use vstd::prelude::*;
use crate::dates::{modifier_of, quality_of, DateModifier, DateQuality};
use crate::person_detail::gender_of;
use crate::text::{lemma_plain_keyword, lemma_plain_upper_keyword, lowered, raised, trimmed};
use crate::typed_values::{
    AttributeType, ChildRefType, EventRoleType, EventType, FamilyRelType, LdsOrdType, NameOriginType, NameType, RepositoryType, SourceMediaType, UrlType, attribute_type_of, child_rel_of, event_role_of, event_type_of, family_rel_of, lds_ord_type_of, name_origin_of, name_type_of, repository_type_of, source_media_type_of, url_type_of,
};

verus! {

/// Whether `t` is one of the Gramps texts of `k` (trimmed and lowercased).
pub open spec fn name_type_named(k: NameType, t: Seq<char>) -> bool {
    match k {
        NameType::Birth => t == seq!['b', 'i', 'r', 't', 'h'],
        NameType::Married => t == seq!['m', 'a', 'r', 'r', 'i', 'e', 'd'],
        NameType::AlsoKnownAs => t == seq!['a', 'l', 's', 'o', ' ', 'k', 'n', 'o', 'w', 'n', ' ', 'a', 's'] || t == seq!['a', 'k', 'a'],
        NameType::Akn => t == seq!['a', 'k', 'n'],
        NameType::Called => t == seq!['c', 'a', 'l', 'l', 'e', 'd'],
        NameType::Formal => t == seq!['f', 'o', 'r', 'm', 'a', 'l'],
        NameType::Patronymic => t == seq!['p', 'a', 't', 'r', 'o', 'n', 'y', 'm', 'i', 'c'],
        NameType::Religious => t == seq!['r', 'e', 'l', 'i', 'g', 'i', 'o', 'u', 's'],
        NameType::Unknown => t == seq!['u', 'n', 'k', 'n', 'o', 'w', 'n'],
    }
}

/// A value read names the text it was read from: when `name_type_of` gives a
/// value, the trimmed, lowercased text is one of that value's texts; when it
/// gives none, the text is no value's text.
pub proof fn lemma_name_type_names_its_text(s: Seq<char>)
    ensures
        name_type_of(s) matches Some(k) ==> name_type_named(k, lowered(trimmed(s))),
        name_type_of(s) is None ==> forall|k: NameType| !#[trigger] name_type_named(k, lowered(trimmed(s))),
{
}

/// Each text of a value reads as that value.
pub proof fn lemma_name_type_text_reads_back(k: NameType, t: Seq<char>)
    requires
        name_type_named(k, t),
    ensures
        name_type_of(t) == Some(k),
{
    lemma_plain_keyword(t);
}

/// Whether `t` is one of the Gramps texts of `k` (trimmed and lowercased).
pub open spec fn name_origin_named(k: NameOriginType, t: Seq<char>) -> bool {
    match k {
        NameOriginType::Patrilineal => t == seq!['p', 'a', 't', 'r', 'i', 'l', 'i', 'n', 'e', 'a', 'l'],
        NameOriginType::Matrilineal => t == seq!['m', 'a', 't', 'r', 'i', 'l', 'i', 'n', 'e', 'a', 'l'],
        NameOriginType::Given => t == seq!['g', 'i', 'v', 'e', 'n'],
        NameOriginType::Taken => t == seq!['t', 'a', 'k', 'e', 'n'],
        NameOriginType::Other => t == seq!['o', 't', 'h', 'e', 'r'],
    }
}

/// A value read names the text it was read from: when `name_origin_of` gives a
/// value, the trimmed, lowercased text is one of that value's texts; when it
/// gives none, the text is no value's text.
pub proof fn lemma_name_origin_names_its_text(s: Seq<char>)
    ensures
        name_origin_of(s) matches Some(k) ==> name_origin_named(k, lowered(trimmed(s))),
        name_origin_of(s) is None ==> forall|k: NameOriginType| !#[trigger] name_origin_named(k, lowered(trimmed(s))),
{
}

/// Each text of a value reads as that value.
pub proof fn lemma_name_origin_text_reads_back(k: NameOriginType, t: Seq<char>)
    requires
        name_origin_named(k, t),
    ensures
        name_origin_of(t) == Some(k),
{
    lemma_plain_keyword(t);
}

/// Whether `t` is one of the Gramps texts of `k` (trimmed and lowercased).
pub open spec fn event_role_named(k: EventRoleType, t: Seq<char>) -> bool {
    match k {
        EventRoleType::Primary => t == seq!['p', 'r', 'i', 'm', 'a', 'r', 'y'],
        EventRoleType::Family => t == seq!['f', 'a', 'm', 'i', 'l', 'y'],
        EventRoleType::Witness => t == seq!['w', 'i', 't', 'n', 'e', 's', 's'],
        EventRoleType::Clergy => t == seq!['c', 'l', 'e', 'r', 'g', 'y'],
        EventRoleType::Bride => t == seq!['b', 'r', 'i', 'd', 'e'],
        EventRoleType::Groom => t == seq!['g', 'r', 'o', 'o', 'm'],
        EventRoleType::Parent => t == seq!['p', 'a', 'r', 'e', 'n', 't'],
        EventRoleType::Child => t == seq!['c', 'h', 'i', 'l', 'd'],
        EventRoleType::Officiator => t == seq!['o', 'f', 'f', 'i', 'c', 'i', 'a', 't', 'o', 'r'],
        EventRoleType::Other => t == seq!['o', 't', 'h', 'e', 'r'],
    }
}

/// A value read names the text it was read from: when `event_role_of` gives a
/// value, the trimmed, lowercased text is one of that value's texts; when it
/// gives none, the text is no value's text.
pub proof fn lemma_event_role_names_its_text(s: Seq<char>)
    ensures
        event_role_of(s) matches Some(k) ==> event_role_named(k, lowered(trimmed(s))),
        event_role_of(s) is None ==> forall|k: EventRoleType| !#[trigger] event_role_named(k, lowered(trimmed(s))),
{
}

/// Each text of a value reads as that value.
pub proof fn lemma_event_role_text_reads_back(k: EventRoleType, t: Seq<char>)
    requires
        event_role_named(k, t),
    ensures
        event_role_of(t) == Some(k),
{
    lemma_plain_keyword(t);
}

/// Whether `t` is one of the Gramps texts of `k` (trimmed and lowercased).
pub open spec fn family_rel_named(k: FamilyRelType, t: Seq<char>) -> bool {
    match k {
        FamilyRelType::Birth => t == seq!['b', 'i', 'r', 't', 'h'],
        FamilyRelType::Married => t == seq!['m', 'a', 'r', 'r', 'i', 'e', 'd'],
        FamilyRelType::Census => t == seq!['c', 'e', 'n', 's', 'u', 's'],
        FamilyRelType::Unknown => t == seq!['u', 'n', 'k', 'n', 'o', 'w', 'n'],
    }
}

/// A value read names the text it was read from: when `family_rel_of` gives a
/// value, the trimmed, lowercased text is one of that value's texts; when it
/// gives none, the text is no value's text.
pub proof fn lemma_family_rel_names_its_text(s: Seq<char>)
    ensures
        family_rel_of(s) matches Some(k) ==> family_rel_named(k, lowered(trimmed(s))),
        family_rel_of(s) is None ==> forall|k: FamilyRelType| !#[trigger] family_rel_named(k, lowered(trimmed(s))),
{
}

/// Each text of a value reads as that value.
pub proof fn lemma_family_rel_text_reads_back(k: FamilyRelType, t: Seq<char>)
    requires
        family_rel_named(k, t),
    ensures
        family_rel_of(t) == Some(k),
{
    lemma_plain_keyword(t);
}

/// Whether `t` is one of the Gramps texts of `k` (trimmed and lowercased).
pub open spec fn attribute_type_named(k: AttributeType, t: Seq<char>) -> bool {
    match k {
        AttributeType::Caste => t == seq!['c', 'a', 's', 't', 'e'],
        AttributeType::Cause => t == seq!['c', 'a', 'u', 's', 'e'],
        AttributeType::Custom => t == seq!['c', 'u', 's', 't', 'o', 'm'],
        AttributeType::DNA => t == seq!['d', 'n', 'a'],
        AttributeType::Description => t == seq!['d', 'e', 's', 'c', 'r', 'i', 'p', 't', 'i', 'o', 'n'],
        AttributeType::Ethnicity => t == seq!['e', 't', 'h', 'n', 'i', 'c', 'i', 't', 'y'],
        AttributeType::Nationality => t == seq!['n', 'a', 't', 'i', 'o', 'n', 'a', 'l', 'i', 't', 'y'],
        AttributeType::Nobility => t == seq!['n', 'o', 'b', 'i', 'l', 'i', 't', 'y'],
        AttributeType::Profession => t == seq!['p', 'r', 'o', 'f', 'e', 's', 's', 'i', 'o', 'n'],
        AttributeType::Property => t == seq!['p', 'r', 'o', 'p', 'e', 'r', 't', 'y'],
        AttributeType::Religion => t == seq!['r', 'e', 'l', 'i', 'g', 'i', 'o', 'n'],
        AttributeType::SocialSecurityNumber => t == seq!['s', 'o', 'c', 'i', 'a', 'l', ' ', 's', 'e', 'c', 'u', 'r', 'i', 't', 'y', ' ', 'n', 'u', 'm', 'b', 'e', 'r'],
        AttributeType::Title => t == seq!['t', 'i', 't', 'l', 'e'],
    }
}

/// A value read names the text it was read from: the trimmed, lowercased
/// text is one of that value's texts, or it is no value's text and the
/// value is `Custom`.
pub proof fn lemma_attribute_type_names_its_text(s: Seq<char>)
    ensures
        attribute_type_named(attribute_type_of(s), lowered(trimmed(s))) || (attribute_type_of(s) == AttributeType::Custom && forall|k: AttributeType|
            !#[trigger] attribute_type_named(k, lowered(trimmed(s)))),
{
}

/// Each text of a value reads as that value.
pub proof fn lemma_attribute_type_text_reads_back(k: AttributeType, t: Seq<char>)
    requires
        attribute_type_named(k, t),
    ensures
        attribute_type_of(t) == k,
{
    lemma_plain_keyword(t);
}

/// Whether `t` is one of the Gramps texts of `k` (trimmed and lowercased).
pub open spec fn url_type_named(k: UrlType, t: Seq<char>) -> bool {
    match k {
        UrlType::Email => t == seq!['e', 'm', 'a', 'i', 'l'],
        UrlType::WebHome => t == seq!['w', 'e', 'b', ' ', 'h', 'o', 'm', 'e'] || t == seq!['w', 'e', 'b', '_', 'h', 'o', 'm', 'e'],
        UrlType::WebSearch => t == seq!['w', 'e', 'b', ' ', 's', 'e', 'a', 'r', 'c', 'h'] || t == seq!['w', 'e', 'b', '_', 's', 'e', 'a', 'r', 'c', 'h'],
        UrlType::FTP => t == seq!['f', 't', 'p'],
        UrlType::Other => t == seq!['o', 't', 'h', 'e', 'r'],
    }
}

/// A value read names the text it was read from: when `url_type_of` gives a
/// value, the trimmed, lowercased text is one of that value's texts; when it
/// gives none, the text is no value's text.
pub proof fn lemma_url_type_names_its_text(s: Seq<char>)
    ensures
        url_type_of(s) matches Some(k) ==> url_type_named(k, lowered(trimmed(s))),
        url_type_of(s) is None ==> forall|k: UrlType| !#[trigger] url_type_named(k, lowered(trimmed(s))),
{
}

/// Each text of a value reads as that value.
pub proof fn lemma_url_type_text_reads_back(k: UrlType, t: Seq<char>)
    requires
        url_type_named(k, t),
    ensures
        url_type_of(t) == Some(k),
{
    lemma_plain_keyword(t);
}

/// Whether `t` is one of the Gramps texts of `k` (trimmed and lowercased).
pub open spec fn lds_ord_type_named(k: LdsOrdType, t: Seq<char>) -> bool {
    match k {
        LdsOrdType::Baptism => t == seq!['b', 'a', 'p', 't', 'i', 's', 'm'],
        LdsOrdType::Confirm => t == seq!['c', 'o', 'n', 'f', 'i', 'r', 'm'],
        LdsOrdType::Endowment => t == seq!['e', 'n', 'd', 'o', 'w', 'm', 'e', 'n', 't'],
        LdsOrdType::SealingToParents => t == seq!['s', 'e', 'a', 'l', 'i', 'n', 'g', ' ', 't', 'o', ' ', 'p', 'a', 'r', 'e', 'n', 't', 's'],
        LdsOrdType::SealingToSpouse => t == seq!['s', 'e', 'a', 'l', 'i', 'n', 'g', ' ', 't', 'o', ' ', 's', 'p', 'o', 'u', 's', 'e'],
        LdsOrdType::Other => t == seq!['o', 't', 'h', 'e', 'r'],
    }
}

/// A value read names the text it was read from: the trimmed, lowercased
/// text is one of that value's texts, or it is no value's text and the
/// value is `Baptism`.
pub proof fn lemma_lds_ord_type_names_its_text(s: Seq<char>)
    ensures
        lds_ord_type_named(lds_ord_type_of(s), lowered(trimmed(s))) || (lds_ord_type_of(s) == LdsOrdType::Baptism && forall|k: LdsOrdType|
            !#[trigger] lds_ord_type_named(k, lowered(trimmed(s)))),
{
}

/// Each text of a value reads as that value.
pub proof fn lemma_lds_ord_type_text_reads_back(k: LdsOrdType, t: Seq<char>)
    requires
        lds_ord_type_named(k, t),
    ensures
        lds_ord_type_of(t) == k,
{
    lemma_plain_keyword(t);
}

/// Whether `t` is one of the Gramps texts of `k` (trimmed and lowercased).
pub open spec fn child_rel_named(k: ChildRefType, t: Seq<char>) -> bool {
    match k {
        ChildRefType::Adopted => t == seq!['a', 'd', 'o', 'p', 't', 'e', 'd'],
        ChildRefType::Birth => t == seq!['b', 'i', 'r', 't', 'h'],
        ChildRefType::Created => t == seq!['c', 'r', 'e', 'a', 't', 'e', 'd'],
        ChildRefType::Foster => t == seq!['f', 'o', 's', 't', 'e', 'r'],
        ChildRefType::Godchild => t == seq!['g', 'o', 'd', 'c', 'h', 'i', 'l', 'd'],
        ChildRefType::Other => t == seq!['o', 't', 'h', 'e', 'r'],
        ChildRefType::Sponsor => t == seq!['s', 'p', 'o', 'n', 's', 'o', 'r'],
        ChildRefType::Stepchild => t == seq!['s', 't', 'e', 'p', 'c', 'h', 'i', 'l', 'd'],
    }
}

/// A value read names the text it was read from: when `child_rel_of` gives a
/// value, the trimmed, lowercased text is one of that value's texts; when it
/// gives none, the text is no value's text.
pub proof fn lemma_child_rel_names_its_text(s: Seq<char>)
    ensures
        child_rel_of(s) matches Some(k) ==> child_rel_named(k, lowered(trimmed(s))),
        child_rel_of(s) is None ==> forall|k: ChildRefType| !#[trigger] child_rel_named(k, lowered(trimmed(s))),
{
}

/// Each text of a value reads as that value.
pub proof fn lemma_child_rel_text_reads_back(k: ChildRefType, t: Seq<char>)
    requires
        child_rel_named(k, t),
    ensures
        child_rel_of(t) == Some(k),
{
    lemma_plain_keyword(t);
}

/// Whether `t` is one of the Gramps texts of `k` (trimmed and lowercased).
pub open spec fn event_type_named(k: EventType, t: Seq<char>) -> bool {
    match k {
        EventType::Adoption => t == seq!['a', 'd', 'o', 'p', 't', 'i', 'o', 'n'],
        EventType::Baptism => t == seq!['b', 'a', 'p', 't', 'i', 's', 'm'],
        EventType::BarMitzvah => t == seq!['b', 'a', 'r', ' ', 'm', 'i', 't', 'z', 'v', 'a', 'h'],
        EventType::BatMitzvah => t == seq!['b', 'a', 't', ' ', 'm', 'i', 't', 'z', 'v', 'a', 'h'],
        EventType::Birth => t == seq!['b', 'i', 'r', 't', 'h'],
        EventType::Burial => t == seq!['b', 'u', 'r', 'i', 'a', 'l'],
        EventType::Census => t == seq!['c', 'e', 'n', 's', 'u', 's'],
        EventType::Confirmation => t == seq!['c', 'o', 'n', 'f', 'i', 'r', 'm', 'a', 't', 'i', 'o', 'n'],
        EventType::Correspondence => t == seq!['c', 'o', 'r', 'r', 'e', 's', 'p', 'o', 'n', 'd', 'e', 'n', 'c', 'e'],
        EventType::Creates => t == seq!['c', 'r', 'e', 'a', 't', 'e', 's'],
        EventType::Death => t == seq!['d', 'e', 'a', 't', 'h'],
        EventType::Divorce => t == seq!['d', 'i', 'v', 'o', 'r', 'c', 'e'],
        EventType::Education => t == seq!['e', 'd', 'u', 'c', 'a', 't', 'i', 'o', 'n'],
        EventType::Emigration => t == seq!['e', 'm', 'i', 'g', 'r', 'a', 't', 'i', 'o', 'n'],
        EventType::Funeral => t == seq!['f', 'u', 'n', 'e', 'r', 'a', 'l'],
        EventType::Graduation => t == seq!['g', 'r', 'a', 'd', 'u', 'a', 't', 'i', 'o', 'n'],
        EventType::Immigration => t == seq!['i', 'm', 'm', 'i', 'g', 'r', 'a', 't', 'i', 'o', 'n'],
        EventType::Marriage => t == seq!['m', 'a', 'r', 'r', 'i', 'a', 'g', 'e'],
        EventType::MilitaryService => t == seq!['m', 'i', 'l', 'i', 't', 'a', 'r', 'y', ' ', 's', 'e', 'r', 'v', 'i', 'c', 'e'],
        EventType::Naturalization => t == seq!['n', 'a', 't', 'u', 'r', 'a', 'l', 'i', 'z', 'a', 't', 'i', 'o', 'n'],
        EventType::Occupation => t == seq!['o', 'c', 'c', 'u', 'p', 'a', 't', 'i', 'o', 'n'],
        EventType::Other => t == seq!['o', 't', 'h', 'e', 'r'],
        EventType::Probate => t == seq!['p', 'r', 'o', 'b', 'a', 't', 'e'],
        EventType::Religion => t == seq!['r', 'e', 'l', 'i', 'g', 'i', 'o', 'n'],
        EventType::Residence => t == seq!['r', 'e', 's', 'i', 'd', 'e', 'n', 'c', 'e'],
        EventType::Retirement => t == seq!['r', 'e', 't', 'i', 'r', 'e', 'm', 'e', 'n', 't'],
        EventType::Title => t == seq!['t', 'i', 't', 'l', 'e'],
        EventType::Will => t == seq!['w', 'i', 'l', 'l'],
    }
}

/// A value read names the text it was read from: when `event_type_of` gives a
/// value, the trimmed, lowercased text is one of that value's texts; when it
/// gives none, the text is no value's text.
pub proof fn lemma_event_type_names_its_text(s: Seq<char>)
    ensures
        event_type_of(s) matches Some(k) ==> event_type_named(k, lowered(trimmed(s))),
        event_type_of(s) is None ==> forall|k: EventType| !#[trigger] event_type_named(k, lowered(trimmed(s))),
{
}

/// Each text of a value reads as that value.
pub proof fn lemma_event_type_text_reads_back(k: EventType, t: Seq<char>)
    requires
        event_type_named(k, t),
    ensures
        event_type_of(t) == Some(k),
{
    match k {
        EventType::Adoption => {
            lemma_plain_keyword(t);
            assert(event_type_of(t) == Some(EventType::Adoption));
        },
        EventType::Baptism => {
            lemma_plain_keyword(t);
            assert(event_type_of(t) == Some(EventType::Baptism));
        },
        EventType::BarMitzvah => {
            lemma_plain_keyword(t);
            assert(event_type_of(t) == Some(EventType::BarMitzvah));
        },
        EventType::BatMitzvah => {
            lemma_plain_keyword(t);
            assert(event_type_of(t) == Some(EventType::BatMitzvah));
        },
        EventType::Birth => {
            lemma_plain_keyword(t);
            assert(event_type_of(t) == Some(EventType::Birth));
        },
        EventType::Burial => {
            lemma_plain_keyword(t);
            assert(event_type_of(t) == Some(EventType::Burial));
        },
        EventType::Census => {
            lemma_plain_keyword(t);
            assert(event_type_of(t) == Some(EventType::Census));
        },
        EventType::Confirmation => {
            lemma_plain_keyword(t);
            assert(event_type_of(t) == Some(EventType::Confirmation));
        },
        EventType::Correspondence => {
            lemma_plain_keyword(t);
            assert(event_type_of(t) == Some(EventType::Correspondence));
        },
        EventType::Creates => {
            lemma_plain_keyword(t);
            assert(event_type_of(t) == Some(EventType::Creates));
        },
        EventType::Death => {
            lemma_plain_keyword(t);
            assert(event_type_of(t) == Some(EventType::Death));
        },
        EventType::Divorce => {
            lemma_plain_keyword(t);
            assert(event_type_of(t) == Some(EventType::Divorce));
        },
        EventType::Education => {
            lemma_plain_keyword(t);
            assert(event_type_of(t) == Some(EventType::Education));
        },
        EventType::Emigration => {
            lemma_plain_keyword(t);
            assert(event_type_of(t) == Some(EventType::Emigration));
        },
        EventType::Funeral => {
            lemma_plain_keyword(t);
            assert(event_type_of(t) == Some(EventType::Funeral));
        },
        EventType::Graduation => {
            lemma_plain_keyword(t);
            assert(event_type_of(t) == Some(EventType::Graduation));
        },
        EventType::Immigration => {
            lemma_plain_keyword(t);
            assert(event_type_of(t) == Some(EventType::Immigration));
        },
        EventType::Marriage => {
            lemma_plain_keyword(t);
            assert(event_type_of(t) == Some(EventType::Marriage));
        },
        EventType::MilitaryService => {
            lemma_plain_keyword(t);
            assert(event_type_of(t) == Some(EventType::MilitaryService));
        },
        EventType::Naturalization => {
            lemma_plain_keyword(t);
            assert(event_type_of(t) == Some(EventType::Naturalization));
        },
        EventType::Occupation => {
            lemma_plain_keyword(t);
            assert(event_type_of(t) == Some(EventType::Occupation));
        },
        EventType::Other => {
            lemma_plain_keyword(t);
            assert(event_type_of(t) == Some(EventType::Other));
        },
        EventType::Probate => {
            lemma_plain_keyword(t);
            assert(event_type_of(t) == Some(EventType::Probate));
        },
        EventType::Religion => {
            lemma_plain_keyword(t);
            assert(event_type_of(t) == Some(EventType::Religion));
        },
        EventType::Residence => {
            lemma_plain_keyword(t);
            assert(event_type_of(t) == Some(EventType::Residence));
        },
        EventType::Retirement => {
            lemma_plain_keyword(t);
            assert(event_type_of(t) == Some(EventType::Retirement));
        },
        EventType::Title => {
            lemma_plain_keyword(t);
            assert(event_type_of(t) == Some(EventType::Title));
        },
        EventType::Will => {
            lemma_plain_keyword(t);
            assert(event_type_of(t) == Some(EventType::Will));
        },
    }
}

/// Whether `t` is one of the Gramps texts of `k` (trimmed and lowercased).
pub open spec fn source_media_type_named(k: SourceMediaType, t: Seq<char>) -> bool {
    match k {
        SourceMediaType::Audio => t == seq!['a', 'u', 'd', 'i', 'o'],
        SourceMediaType::Book => t == seq!['b', 'o', 'o', 'k'],
        SourceMediaType::CD => t == seq!['c', 'd'],
        SourceMediaType::Card => t == seq!['c', 'a', 'r', 'd'],
        SourceMediaType::Electronic => t == seq!['e', 'l', 'e', 'c', 't', 'r', 'o', 'n', 'i', 'c'],
        SourceMediaType::Fiche => t == seq!['f', 'i', 'c', 'h', 'e'],
        SourceMediaType::Film => t == seq!['f', 'i', 'l', 'm'],
        SourceMediaType::Magazine => t == seq!['m', 'a', 'g', 'a', 'z', 'i', 'n', 'e'],
        SourceMediaType::Manuscript => t == seq!['m', 'a', 'n', 'u', 's', 'c', 'r', 'i', 'p', 't'],
        SourceMediaType::MapSheet => t == seq!['m', 'a', 'p'],
        SourceMediaType::Newspaper => t == seq!['n', 'e', 'w', 's', 'p', 'a', 'p', 'e', 'r'],
        SourceMediaType::Other => t == seq!['o', 't', 'h', 'e', 'r'],
        SourceMediaType::Photo => t == seq!['p', 'h', 'o', 't', 'o'],
        SourceMediaType::Tombstone => t == seq!['t', 'o', 'm', 'b', 's', 't', 'o', 'n', 'e'],
        SourceMediaType::Video => t == seq!['v', 'i', 'd', 'e', 'o'],
    }
}

/// A value read names the text it was read from: when `source_media_type_of` gives a
/// value, the trimmed, lowercased text is one of that value's texts; when it
/// gives none, the text is no value's text.
pub proof fn lemma_source_media_type_names_its_text(s: Seq<char>)
    ensures
        source_media_type_of(s) matches Some(k) ==> source_media_type_named(k, lowered(trimmed(s))),
        source_media_type_of(s) is None ==> forall|k: SourceMediaType| !#[trigger] source_media_type_named(k, lowered(trimmed(s))),
{
}

/// Each text of a value reads as that value.
pub proof fn lemma_source_media_type_text_reads_back(k: SourceMediaType, t: Seq<char>)
    requires
        source_media_type_named(k, t),
    ensures
        source_media_type_of(t) == Some(k),
{
    lemma_plain_keyword(t);
}

/// Whether `t` is one of the Gramps texts of `k` (trimmed and lowercased).
pub open spec fn repository_type_named(k: RepositoryType, t: Seq<char>) -> bool {
    match k {
        RepositoryType::Archive => t == seq!['a', 'r', 'c', 'h', 'i', 'v', 'e'],
        RepositoryType::Cemetery => t == seq!['c', 'e', 'm', 'e', 't', 'e', 'r', 'y'],
        RepositoryType::Church => t == seq!['c', 'h', 'u', 'r', 'c', 'h'],
        RepositoryType::CourtHouse => t == seq!['c', 'o', 'u', 'r', 't', ' ', 'h', 'o', 'u', 's', 'e'] || t == seq!['c', 'o', 'u', 'r', 't', '_', 'h', 'o', 'u', 's', 'e'],
        RepositoryType::HistoricalSociety => t == seq!['h', 'i', 's', 't', 'o', 'r', 'i', 'c', 'a', 'l', ' ', 's', 'o', 'c', 'i', 'e', 't', 'y'] || t == seq!['h', 'i', 's', 't', 'o', 'r', 'i', 'c', 'a', 'l', '_', 's', 'o', 'c', 'i', 'e', 't', 'y'],
        RepositoryType::Library => t == seq!['l', 'i', 'b', 'r', 'a', 'r', 'y'],
        RepositoryType::Museum => t == seq!['m', 'u', 's', 'e', 'u', 'm'],
        RepositoryType::Other => t == seq!['o', 't', 'h', 'e', 'r'],
    }
}

/// A value read names the text it was read from: when `repository_type_of` gives a
/// value, the trimmed, lowercased text is one of that value's texts; when it
/// gives none, the text is no value's text.
pub proof fn lemma_repository_type_names_its_text(s: Seq<char>)
    ensures
        repository_type_of(s) matches Some(k) ==> repository_type_named(k, lowered(trimmed(s))),
        repository_type_of(s) is None ==> forall|k: RepositoryType| !#[trigger] repository_type_named(k, lowered(trimmed(s))),
{
}

/// Each text of a value reads as that value.
pub proof fn lemma_repository_type_text_reads_back(k: RepositoryType, t: Seq<char>)
    requires
        repository_type_named(k, t),
    ensures
        repository_type_of(t) == Some(k),
{
    lemma_plain_keyword(t);
}

/// Whether `t` is one of the Gramps texts of `k` (trimmed and lowercased).
pub open spec fn quality_named(k: DateQuality, t: Seq<char>) -> bool {
    match k {
        DateQuality::Exact => t == seq!['e', 'x', 'a', 'c', 't'],
        DateQuality::Estimated => t == seq!['e', 's', 't', 'i', 'm', 'a', 't', 'e', 'd'],
        DateQuality::Calculated => t == seq!['c', 'a', 'l', 'c', 'u', 'l', 'a', 't', 'e', 'd'],
    }
}

/// A value read names the text it was read from: when `quality_of` gives a
/// value, the trimmed, lowercased text is one of that value's texts; when it
/// gives none, the text is no value's text.
pub proof fn lemma_quality_names_its_text(s: Seq<char>)
    ensures
        quality_of(s) matches Some(k) ==> quality_named(k, lowered(trimmed(s))),
        quality_of(s) is None ==> forall|k: DateQuality| !#[trigger] quality_named(k, lowered(trimmed(s))),
{
}

/// Each text of a value reads as that value.
pub proof fn lemma_quality_text_reads_back(k: DateQuality, t: Seq<char>)
    requires
        quality_named(k, t),
    ensures
        quality_of(t) == Some(k),
{
    lemma_plain_keyword(t);
}

/// Whether `t` is one of the Gramps texts of `k` (trimmed and lowercased).
pub open spec fn modifier_named(k: DateModifier, t: Seq<char>) -> bool {
    match k {
        DateModifier::About => t == seq!['a', 'b', 'o', 'u', 't'],
        DateModifier::After => t == seq!['a', 'f', 't', 'e', 'r'],
        DateModifier::Before => t == seq!['b', 'e', 'f', 'o', 'r', 'e'],
        DateModifier::Range => t == seq!['r', 'a', 'n', 'g', 'e'],
        DateModifier::Span => t == seq!['s', 'p', 'a', 'n'],
        DateModifier::NoModifier => t == seq!['n', 'o', 'n', 'e'],
    }
}

/// A value read names the text it was read from: when `modifier_of` gives a
/// value, the trimmed, lowercased text is one of that value's texts; when it
/// gives none, the text is no value's text.
pub proof fn lemma_modifier_names_its_text(s: Seq<char>)
    ensures
        modifier_of(s) matches Some(k) ==> modifier_named(k, lowered(trimmed(s))),
        modifier_of(s) is None ==> forall|k: DateModifier| !#[trigger] modifier_named(k, lowered(trimmed(s))),
{
}

/// Each text of a value reads as that value.
pub proof fn lemma_modifier_text_reads_back(k: DateModifier, t: Seq<char>)
    requires
        modifier_named(k, t),
    ensures
        modifier_of(t) == Some(k),
{
    lemma_plain_keyword(t);
}

/// Whether `t` (trimmed and uppercased) is the Gramps text of the gender
/// number `g`: `M` for 1, `F` for 2, `U` for 3.
pub open spec fn gender_named(g: i32, t: Seq<char>) -> bool {
    (g == 1 && t == seq!['M']) || (g == 2 && t == seq!['F']) || (g == 3 && t == seq!['U'])
}

/// A gender read names the text it was read from: a gender number other
/// than 0 is the number of the trimmed, uppercased text; 0 means the text
/// names no gender.
pub proof fn lemma_gender_names_its_text(s: Seq<char>)
    ensures
        gender_of(s) != 0 ==> gender_named(gender_of(s), raised(trimmed(s))),
        gender_of(s) == 0 ==> forall|g: i32| !#[trigger] gender_named(g, raised(trimmed(s))),
{
}

/// Each gender text reads as its number.
pub proof fn lemma_gender_text_reads_back(g: i32, t: Seq<char>)
    requires
        gender_named(g, t),
    ensures
        gender_of(t) == g,
{
    lemma_plain_upper_keyword(t);
}

} // verus!
