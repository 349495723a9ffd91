//! The records of persons, families and events read in full detail, with their
//! abstract views and the operations that build them.

use vstd::prelude::*;
use crate::types::opt_text;
use crate::dates::{opt_date, DateModel, DateRecord};
use crate::typed_values::{
    AttributeType, ChildRefType, EventRoleType, EventType, FamilyRelType, LdsOrdType, NameOriginType, NameType, UrlType,
};

verus! {

// ---------------------------------------------------------------------------
// Records
// ---------------------------------------------------------------------------

/// One surname of a name.
#[derive(Debug, Clone)]
pub struct SurnameRecord {
    pub surname: Option<String>,
    pub prefix: Option<String>,
    pub primary: Option<bool>,
    pub origin_type: Option<NameOriginType>,
}

pub struct SurnameView {
    pub surname: Option<Seq<char>>,
    pub prefix: Option<Seq<char>>,
    pub primary: Option<bool>,
    pub origin_type: Option<NameOriginType>,
}

impl View for SurnameRecord {
    type V = SurnameView;

    open spec fn view(&self) -> SurnameView {
        SurnameView {
            surname: opt_text(self.surname),
            prefix: opt_text(self.prefix),
            primary: self.primary,
            origin_type: self.origin_type,
        }
    }
}

/// A name: its type, given name and surnames.
#[derive(Debug, Clone)]
pub struct NameRecord {
    pub name_type: Option<NameType>,
    pub first_name: Option<String>,
    pub surnames: Vec<SurnameRecord>,
}

pub struct NameView {
    pub name_type: Option<NameType>,
    pub first_name: Option<Seq<char>>,
    pub surnames: Seq<SurnameView>,
}

impl View for NameRecord {
    type V = NameView;

    open spec fn view(&self) -> NameView {
        NameView {
            name_type: self.name_type,
            first_name: opt_text(self.first_name),
            surnames: self.surnames@.map_values(|s: SurnameRecord| s@),
        }
    }
}

/// An attribute: its type and value.
#[derive(Debug, Clone)]
pub struct AttributeRecord {
    pub attr_type: AttributeType,
    pub value: String,
}

pub struct AttributeView {
    pub attr_type: AttributeType,
    pub value: Seq<char>,
}

impl View for AttributeRecord {
    type V = AttributeView;

    open spec fn view(&self) -> AttributeView {
        AttributeView { attr_type: self.attr_type, value: self.value@ }
    }
}

/// An LDS ordinance.
#[derive(Debug, Clone)]
pub struct LdsOrdRecord {
    pub ord_type: Option<LdsOrdType>,
    pub status: Option<String>,
    pub temple: Option<String>,
    pub place_handle: Option<String>,
}

pub struct LdsOrdView {
    pub ord_type: Option<LdsOrdType>,
    pub status: Option<Seq<char>>,
    pub temple: Option<Seq<char>>,
    pub place_handle: Option<Seq<char>>,
}

impl View for LdsOrdRecord {
    type V = LdsOrdView;

    open spec fn view(&self) -> LdsOrdView {
        LdsOrdView {
            ord_type: self.ord_type,
            status: opt_text(self.status),
            temple: opt_text(self.temple),
            place_handle: opt_text(self.place_handle),
        }
    }
}

/// The location of an address.
#[derive(Debug, Clone)]
pub struct LocationRecord {
    pub city: Option<String>,
    pub country: Option<String>,
    pub county: Option<String>,
    pub state: Option<String>,
    pub street: Option<String>,
    pub postal: Option<String>,
    pub locality: Option<String>,
    pub phone: Option<String>,
}

pub struct LocationView {
    pub city: Option<Seq<char>>,
    pub country: Option<Seq<char>>,
    pub county: Option<Seq<char>>,
    pub state: Option<Seq<char>>,
    pub street: Option<Seq<char>>,
    pub postal: Option<Seq<char>>,
    pub locality: Option<Seq<char>>,
    pub phone: Option<Seq<char>>,
}

impl View for LocationRecord {
    type V = LocationView;

    open spec fn view(&self) -> LocationView {
        LocationView {
            city: opt_text(self.city),
            country: opt_text(self.country),
            county: opt_text(self.county),
            state: opt_text(self.state),
            street: opt_text(self.street),
            postal: opt_text(self.postal),
            locality: opt_text(self.locality),
            phone: opt_text(self.phone),
        }
    }
}

/// A URL.
#[derive(Debug, Clone)]
pub struct UrlRecord {
    pub href: Option<String>,
    pub url_type: Option<UrlType>,
    pub desc: Option<String>,
}

pub struct UrlView {
    pub href: Option<Seq<char>>,
    pub url_type: Option<UrlType>,
    pub desc: Option<Seq<char>>,
}

impl View for UrlRecord {
    type V = UrlView;

    open spec fn view(&self) -> UrlView {
        UrlView { href: opt_text(self.href), url_type: self.url_type, desc: opt_text(self.desc) }
    }
}

/// A reference to an event, with the person's role in it.
#[derive(Debug, Clone)]
pub struct EventRefRecord {
    pub target: String,
    pub role: Option<EventRoleType>,
}

pub struct EventRefView {
    pub target: Seq<char>,
    pub role: Option<EventRoleType>,
}

impl View for EventRefRecord {
    type V = EventRefView;

    open spec fn view(&self) -> EventRefView {
        EventRefView { target: self.target@, role: self.role }
    }
}

/// A reference to another person, with the relation.
#[derive(Debug, Clone)]
pub struct PersonRefRecord {
    pub target: String,
    pub relation: Option<FamilyRelType>,
}

pub struct PersonRefView {
    pub target: Seq<char>,
    pub relation: Option<FamilyRelType>,
}

impl View for PersonRefRecord {
    type V = PersonRefView;

    open spec fn view(&self) -> PersonRefView {
        PersonRefView { target: self.target@, relation: self.relation }
    }
}

/// A person in full detail.
#[derive(Debug, Clone)]
pub struct PersonDetail {
    pub handle: String,
    pub gramps_id: Option<String>,
    /// 1 for `M`, 2 for `F`, 3 for `U`, 0 otherwise or when absent.
    pub gender: i32,
    pub primary_name: NameRecord,
    pub alternate_names: Vec<NameRecord>,
    pub attributes: Vec<AttributeRecord>,
    pub lds_ords: Vec<LdsOrdRecord>,
    pub addresses: Vec<LocationRecord>,
    pub urls: Vec<UrlRecord>,
    pub event_refs: Vec<EventRefRecord>,
    pub person_refs: Vec<PersonRefRecord>,
    pub citations: Vec<String>,
    pub notes: Vec<String>,
    pub tags: Vec<String>,
    pub media: Vec<String>,
}

pub struct PersonDetailView {
    pub handle: Seq<char>,
    pub gramps_id: Option<Seq<char>>,
    pub gender: i32,
    pub primary_name: NameView,
    pub alternate_names: Seq<NameView>,
    pub attributes: Seq<AttributeView>,
    pub lds_ords: Seq<LdsOrdView>,
    pub addresses: Seq<LocationView>,
    pub urls: Seq<UrlView>,
    pub event_refs: Seq<EventRefView>,
    pub person_refs: Seq<PersonRefView>,
    pub citations: Seq<Seq<char>>,
    pub notes: Seq<Seq<char>>,
    pub tags: Seq<Seq<char>>,
    pub media: Seq<Seq<char>>,
}

pub open spec fn texts_view(v: Seq<String>) -> Seq<Seq<char>> {
    v.map_values(|s: String| s@)
}

impl View for PersonDetail {
    type V = PersonDetailView;

    open spec fn view(&self) -> PersonDetailView {
        PersonDetailView {
            handle: self.handle@,
            gramps_id: opt_text(self.gramps_id),
            gender: self.gender,
            primary_name: self.primary_name@,
            alternate_names: self.alternate_names@.map_values(|n: NameRecord| n@),
            attributes: self.attributes@.map_values(|a: AttributeRecord| a@),
            lds_ords: self.lds_ords@.map_values(|l: LdsOrdRecord| l@),
            addresses: self.addresses@.map_values(|l: LocationRecord| l@),
            urls: self.urls@.map_values(|u: UrlRecord| u@),
            event_refs: self.event_refs@.map_values(|e: EventRefRecord| e@),
            person_refs: self.person_refs@.map_values(|p: PersonRefRecord| p@),
            citations: texts_view(self.citations@),
            notes: texts_view(self.notes@),
            tags: texts_view(self.tags@),
            media: texts_view(self.media@),
        }
    }
}



pub open spec fn empty_name() -> NameView {
    NameView { name_type: None, first_name: None, surnames: Seq::empty() }
}

pub open spec fn empty_surname() -> SurnameView {
    SurnameView { surname: None, prefix: None, primary: None, origin_type: None }
}

pub open spec fn empty_location() -> LocationView {
    LocationView {
        city: None,
        country: None,
        county: None,
        state: None,
        street: None,
        postal: None,
        locality: None,
        phone: None,
    }
}

pub open spec fn empty_url() -> UrlView {
    UrlView { href: None, url_type: None, desc: None }
}

impl SurnameRecord {
    /// A surname with no text yet.
    pub fn new(prefix: Option<String>, primary: Option<bool>, origin_type: Option<NameOriginType>) -> (r: Self)
        ensures
            r@ == (SurnameView { surname: None, prefix: opt_text(prefix), primary, origin_type }),
    {
        SurnameRecord { surname: None, prefix, primary, origin_type }
    }

    pub fn empty() -> (r: Self)
        ensures
            r@ == empty_surname(),
    {
        SurnameRecord { surname: None, prefix: None, primary: None, origin_type: None }
    }

    pub fn set_surname(self, t: String) -> (r: Self)
        ensures
            r@ == (SurnameView { surname: Some(t@), ..self@ }),
    {
        let mut s = self;
        s.surname = Some(t);
        s
    }

    /// Whether the surname has a text or a prefix.
    pub fn has_text_or_prefix(&self) -> (b: bool)
        ensures
            b == (self@.surname is Some || self@.prefix is Some),
    {
        self.surname.is_some() || self.prefix.is_some()
    }

    pub fn clone_record(&self) -> (r: Self)
        ensures
            r@ == self@,
    {
        SurnameRecord {
            surname: self.surname.clone(),
            prefix: self.prefix.clone(),
            primary: self.primary,
            origin_type: self.origin_type,
        }
    }
}

impl NameRecord {
    /// A name of the given type with no given name and no surnames.
    pub fn new(name_type: Option<NameType>) -> (r: Self)
        ensures
            r@ == (NameView { name_type, ..empty_name() }),
    {
        let r = NameRecord { name_type, first_name: None, surnames: Vec::new() };
        assert(r@.surnames =~= Seq::<SurnameView>::empty());
        r
    }

    pub fn set_first(self, t: String) -> (r: Self)
        ensures
            r@ == (NameView { first_name: Some(t@), ..self@ }),
    {
        let mut s = self;
        s.first_name = Some(t);
        s
    }

    pub fn push_surname(self, x: SurnameRecord) -> (r: Self)
        ensures
            r@ == (NameView { surnames: self@.surnames.push(x@), ..self@ }),
    {
        let mut s = self;
        s.surnames.push(x);
        assert(s@.surnames =~= self@.surnames.push(x@));
        s
    }

    pub fn clone_record(&self) -> (r: Self)
        ensures
            r@ == self@,
    {
        let ghost sv = self.surnames@.map_values(|s: SurnameRecord| s@);
        let mut v: Vec<SurnameRecord> = Vec::new();
        let mut i: usize = 0;
        while i < self.surnames.len()
            invariant
                sv == self.surnames@.map_values(|s: SurnameRecord| s@),
                i <= self.surnames.len(),
                v@.map_values(|s: SurnameRecord| s@) == sv.take(i as int),
            decreases self.surnames.len() - i,
        {
            let c = self.surnames[i].clone_record();
            let ghost before = v@;
            v.push(c);
            assert(v@.map_values(|s: SurnameRecord| s@) =~= before.map_values(|s: SurnameRecord| s@).push(c@));
            assert(sv.take(i + 1) =~= sv.take(i as int).push(sv[i as int]));
            i = i + 1;
        }
        assert(sv.take(sv.len() as int) =~= sv);
        NameRecord { name_type: self.name_type, first_name: self.first_name.clone(), surnames: v }
    }
}

impl AttributeRecord {
    pub fn new(attr_type: AttributeType, value: String) -> (r: Self)
        ensures
            r@ == (AttributeView { attr_type, value: value@ }),
    {
        AttributeRecord { attr_type, value }
    }
}

impl LdsOrdRecord {
    pub fn new(ord_type: Option<LdsOrdType>, status: Option<String>, temple: Option<String>, place_handle: Option<String>) -> (r: Self)
        ensures
            r@ == (LdsOrdView {
                ord_type,
                status: opt_text(status),
                temple: opt_text(temple),
                place_handle: opt_text(place_handle),
            }),
    {
        LdsOrdRecord { ord_type, status, temple, place_handle }
    }
}

impl LocationRecord {
    pub fn empty() -> (r: Self)
        ensures
            r@ == empty_location(),
    {
        LocationRecord {
            city: None,
            country: None,
            county: None,
            state: None,
            street: None,
            postal: None,
            locality: None,
            phone: None,
        }
    }

    pub fn set_city(self, t: String) -> (r: Self)
        ensures
            r@ == (LocationView { city: Some(t@), ..self@ }),
    {
        let mut s = self;
        s.city = Some(t);
        s
    }

    pub fn set_country(self, t: String) -> (r: Self)
        ensures
            r@ == (LocationView { country: Some(t@), ..self@ }),
    {
        let mut s = self;
        s.country = Some(t);
        s
    }

    pub fn set_county(self, t: String) -> (r: Self)
        ensures
            r@ == (LocationView { county: Some(t@), ..self@ }),
    {
        let mut s = self;
        s.county = Some(t);
        s
    }

    pub fn set_state(self, t: String) -> (r: Self)
        ensures
            r@ == (LocationView { state: Some(t@), ..self@ }),
    {
        let mut s = self;
        s.state = Some(t);
        s
    }

    pub fn set_street(self, t: String) -> (r: Self)
        ensures
            r@ == (LocationView { street: Some(t@), ..self@ }),
    {
        let mut s = self;
        s.street = Some(t);
        s
    }

    pub fn set_postal(self, t: String) -> (r: Self)
        ensures
            r@ == (LocationView { postal: Some(t@), ..self@ }),
    {
        let mut s = self;
        s.postal = Some(t);
        s
    }

    pub fn set_locality(self, t: String) -> (r: Self)
        ensures
            r@ == (LocationView { locality: Some(t@), ..self@ }),
    {
        let mut s = self;
        s.locality = Some(t);
        s
    }

    pub fn set_phone(self, t: String) -> (r: Self)
        ensures
            r@ == (LocationView { phone: Some(t@), ..self@ }),
    {
        let mut s = self;
        s.phone = Some(t);
        s
    }

    pub fn clone_record(&self) -> (r: Self)
        ensures
            r@ == self@,
    {
        LocationRecord {
            city: self.city.clone(),
            country: self.country.clone(),
            county: self.county.clone(),
            state: self.state.clone(),
            street: self.street.clone(),
            postal: self.postal.clone(),
            locality: self.locality.clone(),
            phone: self.phone.clone(),
        }
    }
}

impl UrlRecord {
    pub fn new(href: Option<String>, url_type: Option<UrlType>, desc: Option<String>) -> (r: Self)
        ensures
            r@ == (UrlView { href: opt_text(href), url_type, desc: opt_text(desc) }),
    {
        UrlRecord { href, url_type, desc }
    }

    pub fn set_desc(self, t: String) -> (r: Self)
        ensures
            r@ == (UrlView { desc: Some(t@), ..self@ }),
    {
        let mut s = self;
        s.desc = Some(t);
        s
    }

    pub fn set_url_type(self, u: Option<UrlType>) -> (r: Self)
        ensures
            r@ == (UrlView { url_type: u, ..self@ }),
    {
        let mut s = self;
        s.url_type = u;
        s
    }

    pub fn clone_record(&self) -> (r: Self)
        ensures
            r@ == self@,
    {
        UrlRecord { href: self.href.clone(), url_type: self.url_type, desc: self.desc.clone() }
    }
}

impl EventRefRecord {
    pub fn new(target: String, role: Option<EventRoleType>) -> (r: Self)
        ensures
            r@ == (EventRefView { target: target@, role }),
    {
        EventRefRecord { target, role }
    }
}

impl PersonRefRecord {
    pub fn new(target: String, relation: Option<FamilyRelType>) -> (r: Self)
        ensures
            r@ == (PersonRefView { target: target@, relation }),
    {
        PersonRefRecord { target, relation }
    }
}

impl PersonDetail {
    /// A person with a handle and id and nothing else.
    pub fn new(handle: String, gramps_id: Option<String>) -> (r: Self)
        ensures
            r@ == (PersonDetailView {
                handle: handle@,
                gramps_id: opt_text(gramps_id),
                gender: 0,
                primary_name: empty_name(),
                alternate_names: Seq::empty(),
                attributes: Seq::empty(),
                lds_ords: Seq::empty(),
                addresses: Seq::empty(),
                urls: Seq::empty(),
                event_refs: Seq::empty(),
                person_refs: Seq::empty(),
                citations: Seq::empty(),
                notes: Seq::empty(),
                tags: Seq::empty(),
                media: Seq::empty(),
            }),
    {
        let r = PersonDetail {
            handle,
            gramps_id,
            gender: 0,
            primary_name: NameRecord::new(None),
            alternate_names: Vec::new(),
            attributes: Vec::new(),
            lds_ords: Vec::new(),
            addresses: Vec::new(),
            urls: Vec::new(),
            event_refs: Vec::new(),
            person_refs: Vec::new(),
            citations: Vec::new(),
            notes: Vec::new(),
            tags: Vec::new(),
            media: Vec::new(),
        };
        assert(r@.alternate_names =~= Seq::<NameView>::empty());
        assert(r@.attributes =~= Seq::<AttributeView>::empty());
        assert(r@.lds_ords =~= Seq::<LdsOrdView>::empty());
        assert(r@.addresses =~= Seq::<LocationView>::empty());
        assert(r@.urls =~= Seq::<UrlView>::empty());
        assert(r@.event_refs =~= Seq::<EventRefView>::empty());
        assert(r@.person_refs =~= Seq::<PersonRefView>::empty());
        assert(r@.citations =~= Seq::<Seq<char>>::empty());
        assert(r@.notes =~= Seq::<Seq<char>>::empty());
        assert(r@.tags =~= Seq::<Seq<char>>::empty());
        assert(r@.media =~= Seq::<Seq<char>>::empty());
        r
    }

    pub fn set_gender(self, g: i32) -> (r: Self)
        ensures
            r@ == (PersonDetailView { gender: g, ..self@ }),
    {
        let mut s = self;
        s.gender = g;
        s
    }

    pub fn set_primary_name(self, n: NameRecord) -> (r: Self)
        ensures
            r@ == (PersonDetailView { primary_name: n@, ..self@ }),
    {
        let mut s = self;
        s.primary_name = n;
        s
    }

    pub fn push_alternate_name(self, x: NameRecord) -> (r: Self)
        ensures
            r@ == (PersonDetailView { alternate_names: self@.alternate_names.push(x@), ..self@ }),
    {
        let mut s = self;
        s.alternate_names.push(x);
        assert(s@.alternate_names =~= self@.alternate_names.push(x@));
        s
    }

    pub fn push_attribute(self, x: AttributeRecord) -> (r: Self)
        ensures
            r@ == (PersonDetailView { attributes: self@.attributes.push(x@), ..self@ }),
    {
        let mut s = self;
        s.attributes.push(x);
        assert(s@.attributes =~= self@.attributes.push(x@));
        s
    }

    pub fn push_lds_ord(self, x: LdsOrdRecord) -> (r: Self)
        ensures
            r@ == (PersonDetailView { lds_ords: self@.lds_ords.push(x@), ..self@ }),
    {
        let mut s = self;
        s.lds_ords.push(x);
        assert(s@.lds_ords =~= self@.lds_ords.push(x@));
        s
    }

    pub fn push_address(self, x: LocationRecord) -> (r: Self)
        ensures
            r@ == (PersonDetailView { addresses: self@.addresses.push(x@), ..self@ }),
    {
        let mut s = self;
        s.addresses.push(x);
        assert(s@.addresses =~= self@.addresses.push(x@));
        s
    }

    pub fn push_url(self, x: UrlRecord) -> (r: Self)
        ensures
            r@ == (PersonDetailView { urls: self@.urls.push(x@), ..self@ }),
    {
        let mut s = self;
        s.urls.push(x);
        assert(s@.urls =~= self@.urls.push(x@));
        s
    }

    pub fn push_event_ref(self, x: EventRefRecord) -> (r: Self)
        ensures
            r@ == (PersonDetailView { event_refs: self@.event_refs.push(x@), ..self@ }),
    {
        let mut s = self;
        s.event_refs.push(x);
        assert(s@.event_refs =~= self@.event_refs.push(x@));
        s
    }

    pub fn push_person_ref(self, x: PersonRefRecord) -> (r: Self)
        ensures
            r@ == (PersonDetailView { person_refs: self@.person_refs.push(x@), ..self@ }),
    {
        let mut s = self;
        s.person_refs.push(x);
        assert(s@.person_refs =~= self@.person_refs.push(x@));
        s
    }

    pub fn push_citation(self, x: String) -> (r: Self)
        ensures
            r@ == (PersonDetailView { citations: self@.citations.push(x@), ..self@ }),
    {
        let mut s = self;
        s.citations.push(x);
        assert(s@.citations =~= self@.citations.push(x@));
        s
    }

    pub fn push_note(self, x: String) -> (r: Self)
        ensures
            r@ == (PersonDetailView { notes: self@.notes.push(x@), ..self@ }),
    {
        let mut s = self;
        s.notes.push(x);
        assert(s@.notes =~= self@.notes.push(x@));
        s
    }

    pub fn push_tag(self, x: String) -> (r: Self)
        ensures
            r@ == (PersonDetailView { tags: self@.tags.push(x@), ..self@ }),
    {
        let mut s = self;
        s.tags.push(x);
        assert(s@.tags =~= self@.tags.push(x@));
        s
    }

    pub fn push_media(self, x: String) -> (r: Self)
        ensures
            r@ == (PersonDetailView { media: self@.media.push(x@), ..self@ }),
    {
        let mut s = self;
        s.media.push(x);
        assert(s@.media =~= self@.media.push(x@));
        s
    }
}


/// A reference to a child, with the child's relation.
#[derive(Debug, Clone)]
pub struct ChildRefRecord {
    pub target: String,
    pub relation: Option<ChildRefType>,
}

pub struct ChildRefView {
    pub target: Seq<char>,
    pub relation: Option<ChildRefType>,
}

impl View for ChildRefRecord {
    type V = ChildRefView;

    open spec fn view(&self) -> ChildRefView {
        ChildRefView { target: self.target@, relation: self.relation }
    }
}

impl ChildRefRecord {
    pub fn new(target: String, relation: Option<ChildRefType>) -> (r: Self)
        ensures
            r@ == (ChildRefView { target: target@, relation }),
    {
        ChildRefRecord { target, relation }
    }
}

/// A family in full detail.
#[derive(Debug, Clone)]
pub struct FamilyDetail {
    pub handle: String,
    pub gramps_id: Option<String>,
    pub father: Option<String>,
    pub mother: Option<String>,
    pub child_refs: Vec<ChildRefRecord>,
    pub event_refs: Vec<EventRefRecord>,
    pub attributes: Vec<AttributeRecord>,
    pub citations: Vec<String>,
    pub notes: Vec<String>,
    pub tags: Vec<String>,
    pub media: Vec<String>,
}

pub struct FamilyDetailView {
    pub handle: Seq<char>,
    pub gramps_id: Option<Seq<char>>,
    pub father: Option<Seq<char>>,
    pub mother: Option<Seq<char>>,
    pub child_refs: Seq<ChildRefView>,
    pub event_refs: Seq<EventRefView>,
    pub attributes: Seq<AttributeView>,
    pub citations: Seq<Seq<char>>,
    pub notes: Seq<Seq<char>>,
    pub tags: Seq<Seq<char>>,
    pub media: Seq<Seq<char>>,
}

impl View for FamilyDetail {
    type V = FamilyDetailView;

    open spec fn view(&self) -> FamilyDetailView {
        FamilyDetailView {
            handle: self.handle@,
            gramps_id: opt_text(self.gramps_id),
            father: opt_text(self.father),
            mother: opt_text(self.mother),
            child_refs: self.child_refs@.map_values(|c: ChildRefRecord| c@),
            event_refs: self.event_refs@.map_values(|e: EventRefRecord| e@),
            attributes: self.attributes@.map_values(|a: AttributeRecord| a@),
            citations: texts_view(self.citations@),
            notes: texts_view(self.notes@),
            tags: texts_view(self.tags@),
            media: texts_view(self.media@),
        }
    }
}

impl FamilyDetail {
    /// A family with a handle and id and nothing else.
    pub fn new(handle: String, gramps_id: Option<String>) -> (r: Self)
        ensures
            r@ == (FamilyDetailView {
                handle: handle@,
                gramps_id: opt_text(gramps_id),
                father: None,
                mother: None,
                child_refs: Seq::empty(),
                event_refs: Seq::empty(),
                attributes: Seq::empty(),
                citations: Seq::empty(),
                notes: Seq::empty(),
                tags: Seq::empty(),
                media: Seq::empty(),
            }),
    {
        let r = FamilyDetail {
            handle,
            gramps_id,
            father: None,
            mother: None,
            child_refs: Vec::new(),
            event_refs: Vec::new(),
            attributes: Vec::new(),
            citations: Vec::new(),
            notes: Vec::new(),
            tags: Vec::new(),
            media: Vec::new(),
        };
        assert(r@.child_refs =~= Seq::<ChildRefView>::empty());
        assert(r@.event_refs =~= Seq::<EventRefView>::empty());
        assert(r@.attributes =~= Seq::<AttributeView>::empty());
        assert(r@.citations =~= Seq::<Seq<char>>::empty());
        assert(r@.notes =~= Seq::<Seq<char>>::empty());
        assert(r@.tags =~= Seq::<Seq<char>>::empty());
        assert(r@.media =~= Seq::<Seq<char>>::empty());
        r
    }

    pub fn set_father(self, h: String) -> (r: Self)
        ensures
            r@ == (FamilyDetailView { father: Some(h@), ..self@ }),
    {
        let mut s = self;
        s.father = Some(h);
        s
    }

    pub fn set_mother(self, h: String) -> (r: Self)
        ensures
            r@ == (FamilyDetailView { mother: Some(h@), ..self@ }),
    {
        let mut s = self;
        s.mother = Some(h);
        s
    }

    pub fn push_child_ref(self, x: ChildRefRecord) -> (r: Self)
        ensures
            r@ == (FamilyDetailView { child_refs: self@.child_refs.push(x@), ..self@ }),
    {
        let mut s = self;
        s.child_refs.push(x);
        assert(s@.child_refs =~= self@.child_refs.push(x@));
        s
    }

    pub fn push_event_ref(self, x: EventRefRecord) -> (r: Self)
        ensures
            r@ == (FamilyDetailView { event_refs: self@.event_refs.push(x@), ..self@ }),
    {
        let mut s = self;
        s.event_refs.push(x);
        assert(s@.event_refs =~= self@.event_refs.push(x@));
        s
    }

    pub fn push_attribute(self, x: AttributeRecord) -> (r: Self)
        ensures
            r@ == (FamilyDetailView { attributes: self@.attributes.push(x@), ..self@ }),
    {
        let mut s = self;
        s.attributes.push(x);
        assert(s@.attributes =~= self@.attributes.push(x@));
        s
    }

    pub fn push_citation(self, x: String) -> (r: Self)
        ensures
            r@ == (FamilyDetailView { citations: self@.citations.push(x@), ..self@ }),
    {
        let mut s = self;
        s.citations.push(x);
        assert(s@.citations =~= self@.citations.push(x@));
        s
    }

    pub fn push_note(self, x: String) -> (r: Self)
        ensures
            r@ == (FamilyDetailView { notes: self@.notes.push(x@), ..self@ }),
    {
        let mut s = self;
        s.notes.push(x);
        assert(s@.notes =~= self@.notes.push(x@));
        s
    }

    pub fn push_tag(self, x: String) -> (r: Self)
        ensures
            r@ == (FamilyDetailView { tags: self@.tags.push(x@), ..self@ }),
    {
        let mut s = self;
        s.tags.push(x);
        assert(s@.tags =~= self@.tags.push(x@));
        s
    }

    pub fn push_media(self, x: String) -> (r: Self)
        ensures
            r@ == (FamilyDetailView { media: self@.media.push(x@), ..self@ }),
    {
        let mut s = self;
        s.media.push(x);
        assert(s@.media =~= self@.media.push(x@));
        s
    }
}


/// An event in full detail.
#[derive(Debug, Clone)]
pub struct EventDetail {
    pub handle: String,
    pub gramps_id: Option<String>,
    pub event_type: Option<EventType>,
    pub date: Option<DateRecord>,
    pub description: Option<String>,
    pub place: Option<String>,
    pub attributes: Vec<AttributeRecord>,
    pub citations: Vec<String>,
    pub notes: Vec<String>,
    pub tags: Vec<String>,
    pub media: Vec<String>,
}

pub struct EventDetailView {
    pub handle: Seq<char>,
    pub gramps_id: Option<Seq<char>>,
    pub event_type: Option<EventType>,
    pub date: Option<DateModel>,
    pub description: Option<Seq<char>>,
    pub place: Option<Seq<char>>,
    pub attributes: Seq<AttributeView>,
    pub citations: Seq<Seq<char>>,
    pub notes: Seq<Seq<char>>,
    pub tags: Seq<Seq<char>>,
    pub media: Seq<Seq<char>>,
}

impl View for EventDetail {
    type V = EventDetailView;

    open spec fn view(&self) -> EventDetailView {
        EventDetailView {
            handle: self.handle@,
            gramps_id: opt_text(self.gramps_id),
            event_type: self.event_type,
            date: opt_date(self.date),
            description: opt_text(self.description),
            place: opt_text(self.place),
            attributes: self.attributes@.map_values(|a: AttributeRecord| a@),
            citations: texts_view(self.citations@),
            notes: texts_view(self.notes@),
            tags: texts_view(self.tags@),
            media: texts_view(self.media@),
        }
    }
}

impl EventDetail {
    /// An event with a handle and id and nothing else.
    pub fn new(handle: String, gramps_id: Option<String>) -> (r: Self)
        ensures
            r@ == (EventDetailView {
                handle: handle@,
                gramps_id: opt_text(gramps_id),
                event_type: None,
                date: None,
                description: None,
                place: None,
                attributes: Seq::empty(),
                citations: Seq::empty(),
                notes: Seq::empty(),
                tags: Seq::empty(),
                media: Seq::empty(),
            }),
    {
        let r = EventDetail {
            handle,
            gramps_id,
            event_type: None,
            date: None,
            description: None,
            place: None,
            attributes: Vec::new(),
            citations: Vec::new(),
            notes: Vec::new(),
            tags: Vec::new(),
            media: Vec::new(),
        };
        assert(r@.attributes =~= Seq::<AttributeView>::empty());
        assert(r@.citations =~= Seq::<Seq<char>>::empty());
        assert(r@.notes =~= Seq::<Seq<char>>::empty());
        assert(r@.tags =~= Seq::<Seq<char>>::empty());
        assert(r@.media =~= Seq::<Seq<char>>::empty());
        r
    }

    pub fn set_event_type(self, t: EventType) -> (r: Self)
        ensures
            r@ == (EventDetailView { event_type: Some(t), ..self@ }),
    {
        let mut s = self;
        s.event_type = Some(t);
        s
    }

    pub fn set_date(self, d: DateRecord) -> (r: Self)
        ensures
            r@ == (EventDetailView { date: Some(d@), ..self@ }),
    {
        let mut s = self;
        s.date = Some(d);
        s
    }

    pub fn set_description(self, t: String) -> (r: Self)
        ensures
            r@ == (EventDetailView { description: Some(t@), ..self@ }),
    {
        let mut s = self;
        s.description = Some(t);
        s
    }

    pub fn set_place(self, h: String) -> (r: Self)
        ensures
            r@ == (EventDetailView { place: Some(h@), ..self@ }),
    {
        let mut s = self;
        s.place = Some(h);
        s
    }

    pub fn push_attribute(self, x: AttributeRecord) -> (r: Self)
        ensures
            r@ == (EventDetailView { attributes: self@.attributes.push(x@), ..self@ }),
    {
        let mut s = self;
        s.attributes.push(x);
        assert(s@.attributes =~= self@.attributes.push(x@));
        s
    }

    pub fn push_citation(self, x: String) -> (r: Self)
        ensures
            r@ == (EventDetailView { citations: self@.citations.push(x@), ..self@ }),
    {
        let mut s = self;
        s.citations.push(x);
        assert(s@.citations =~= self@.citations.push(x@));
        s
    }

    pub fn push_note(self, x: String) -> (r: Self)
        ensures
            r@ == (EventDetailView { notes: self@.notes.push(x@), ..self@ }),
    {
        let mut s = self;
        s.notes.push(x);
        assert(s@.notes =~= self@.notes.push(x@));
        s
    }

    pub fn push_tag(self, x: String) -> (r: Self)
        ensures
            r@ == (EventDetailView { tags: self@.tags.push(x@), ..self@ }),
    {
        let mut s = self;
        s.tags.push(x);
        assert(s@.tags =~= self@.tags.push(x@));
        s
    }

    pub fn push_media(self, x: String) -> (r: Self)
        ensures
            r@ == (EventDetailView { media: self@.media.push(x@), ..self@ }),
    {
        let mut s = self;
        s.media.push(x);
        assert(s@.media =~= self@.media.push(x@));
        s
    }
}

} // verus!
