//! Reading repositories in full detail from Gramps XML: name, type,
//! addresses, URLs, and the notes, tags and media a repository refers to.
//!
//! Inside a `<repository>` element every event of the reader is folded into
//! a repository parse state by `repository_detail_step`; the document scan
//! (`repositories_step`) tracks the sections and hands the events of each
//! `<repository>` to it.

use vstd::prelude::*;
use crate::error::Error;
use crate::extract::{handle_or_empty, unended_error, unended_message, unescape_text, unescaped_text};
use crate::graph_names::{
    kw_address, kw_city, kw_country, kw_county, kw_desc, kw_href, kw_id, kw_locality, kw_location, kw_mediaref,
    kw_noteref, kw_phone, kw_postal, kw_repositories, kw_repository, kw_state, kw_street, kw_tagref, kw_url,
    spec_kw_address, spec_kw_city, spec_kw_country, spec_kw_county, spec_kw_desc, spec_kw_href, spec_kw_id,
    spec_kw_locality, spec_kw_location, spec_kw_mediaref, spec_kw_noteref, spec_kw_phone, spec_kw_postal,
    spec_kw_repositories, spec_kw_repository, spec_kw_state, spec_kw_street, spec_kw_tagref, spec_kw_url,
};
use crate::names::{kw_name, kw_type, spec_kw_hlink, spec_kw_name, spec_kw_type};
use crate::person_detail::{attr_last, detail_section, is_detail_section, or_empty, read_attr_last, text_or_empty};
use crate::person_records::{empty_location, empty_url, texts_view, LocationRecord, LocationView, UrlRecord, UrlView};
use crate::text::{trim, trimmed};
use crate::typed_values::{parse_repository_type, parse_url_type, repository_type_of, url_type_of, RepositoryType};
use crate::types::opt_text;
use crate::xml::{attr_text, bytes_eq, local_name, read_attr, read_handle_attr, read_hlink_attr, strip_prefix, XmlTag, XmlTagView};
use crate::xml_reader::{xml_next_event, XmlCall, XmlCursor, XmlEvent, XmlEventView};

verus! {

/// A repository in full detail. Each address is held as its location.
#[derive(Debug, Clone)]
pub struct RepositoryDetail {
    pub handle: String,
    pub gramps_id: Option<String>,
    pub name: Option<String>,
    pub repo_type: Option<RepositoryType>,
    pub addresses: Vec<LocationRecord>,
    pub urls: Vec<UrlRecord>,
    pub notes: Vec<String>,
    pub tags: Vec<String>,
    pub media: Vec<String>,
}

pub struct RepositoryDetailView {
    pub handle: Seq<char>,
    pub gramps_id: Option<Seq<char>>,
    pub name: Option<Seq<char>>,
    pub repo_type: Option<RepositoryType>,
    pub addresses: Seq<LocationView>,
    pub urls: Seq<UrlView>,
    pub notes: Seq<Seq<char>>,
    pub tags: Seq<Seq<char>>,
    pub media: Seq<Seq<char>>,
}

impl View for RepositoryDetail {
    type V = RepositoryDetailView;

    open spec fn view(&self) -> RepositoryDetailView {
        RepositoryDetailView {
            handle: self.handle@,
            gramps_id: opt_text(self.gramps_id),
            name: opt_text(self.name),
            repo_type: self.repo_type,
            addresses: self.addresses@.map_values(|l: LocationRecord| l@),
            urls: self.urls@.map_values(|u: UrlRecord| u@),
            notes: texts_view(self.notes@),
            tags: texts_view(self.tags@),
            media: texts_view(self.media@),
        }
    }
}

impl RepositoryDetail {
    /// A repository with a handle and id and nothing else.
    pub fn new(handle: String, gramps_id: Option<String>) -> (r: Self)
        ensures
            r@ == (RepositoryDetailView {
                handle: handle@,
                gramps_id: opt_text(gramps_id),
                name: None,
                repo_type: None,
                addresses: Seq::empty(),
                urls: Seq::empty(),
                notes: Seq::empty(),
                tags: Seq::empty(),
                media: Seq::empty(),
            }),
    {
        let r = RepositoryDetail {
            handle,
            gramps_id,
            name: None,
            repo_type: None,
            addresses: Vec::new(),
            urls: Vec::new(),
            notes: Vec::new(),
            tags: Vec::new(),
            media: Vec::new(),
        };
        assert(r@.addresses =~= Seq::<LocationView>::empty());
        assert(r@.urls =~= Seq::<UrlView>::empty());
        assert(r@.notes =~= Seq::<Seq<char>>::empty());
        assert(r@.tags =~= Seq::<Seq<char>>::empty());
        assert(r@.media =~= Seq::<Seq<char>>::empty());
        r
    }

    pub fn set_name(self, t: String) -> (r: Self)
        ensures
            r@ == (RepositoryDetailView { name: Some(t@), ..self@ }),
    {
        let mut s = self;
        s.name = Some(t);
        s
    }

    pub fn set_repo_type(self, t: Option<RepositoryType>) -> (r: Self)
        ensures
            r@ == (RepositoryDetailView { repo_type: t, ..self@ }),
    {
        let mut s = self;
        s.repo_type = t;
        s
    }

    pub fn push_address(self, x: LocationRecord) -> (r: Self)
        ensures
            r@ == (RepositoryDetailView { addresses: self@.addresses.push(x@), ..self@ }),
    {
        let mut s = self;
        s.addresses.push(x);
        assert(s@.addresses =~= self@.addresses.push(x@));
        s
    }

    pub fn push_url(self, x: UrlRecord) -> (r: Self)
        ensures
            r@ == (RepositoryDetailView { urls: self@.urls.push(x@), ..self@ }),
    {
        let mut s = self;
        s.urls.push(x);
        assert(s@.urls =~= self@.urls.push(x@));
        s
    }

    pub fn push_note(self, x: String) -> (r: Self)
        ensures
            r@ == (RepositoryDetailView { notes: self@.notes.push(x@), ..self@ }),
    {
        let mut s = self;
        s.notes.push(x);
        assert(s@.notes =~= self@.notes.push(x@));
        s
    }

    pub fn push_tag(self, x: String) -> (r: Self)
        ensures
            r@ == (RepositoryDetailView { tags: self@.tags.push(x@), ..self@ }),
    {
        let mut s = self;
        s.tags.push(x);
        assert(s@.tags =~= self@.tags.push(x@));
        s
    }

    pub fn push_media(self, x: String) -> (r: Self)
        ensures
            r@ == (RepositoryDetailView { media: self@.media.push(x@), ..self@ }),
    {
        let mut s = self;
        s.media.push(x);
        assert(s@.media =~= self@.media.push(x@));
        s
    }
}

/// Which elements of a repository are being read.
#[derive(Clone, Copy)]
pub struct RepoFlags {
    pub in_name: bool,
    pub in_type: bool,
    pub in_address: bool,
    pub in_location: bool,
    pub in_city: bool,
    pub in_country: bool,
    pub in_county: bool,
    pub in_state: bool,
    pub in_street: bool,
    pub in_postal: bool,
    pub in_locality: bool,
    pub in_phone: bool,
    pub in_url: bool,
    pub in_url_desc: bool,
}

/// The state of reading one repository: the repository so far, the
/// elements open, the location of the address being read, the URL being
/// read and the type text of its start tag.
pub struct RepoParseView {
    pub repo: RepositoryDetailView,
    pub flags: RepoFlags,
    pub location: LocationView,
    pub url: UrlView,
    pub url_type_text: Option<Seq<char>>,
}

pub open spec fn no_repo_flags() -> RepoFlags {
    RepoFlags {
        in_name: false,
        in_type: false,
        in_address: false,
        in_location: false,
        in_city: false,
        in_country: false,
        in_county: false,
        in_state: false,
        in_street: false,
        in_postal: false,
        in_locality: false,
        in_phone: false,
        in_url: false,
        in_url_desc: false,
    }
}

/// A repository with the handle and id of its start tag and nothing else.
pub open spec fn new_repository_detail(tag: XmlTagView) -> RepositoryDetailView {
    RepositoryDetailView {
        handle: handle_or_empty(tag),
        gramps_id: attr_text(tag, spec_kw_id()),
        name: None,
        repo_type: None,
        addresses: Seq::empty(),
        urls: Seq::empty(),
        notes: Seq::empty(),
        tags: Seq::empty(),
        media: Seq::empty(),
    }
}

/// The state at a repository's start tag.
pub open spec fn new_repo_parse(tag: XmlTagView) -> RepoParseView {
    RepoParseView {
        repo: new_repository_detail(tag),
        flags: no_repo_flags(),
        location: empty_location(),
        url: empty_url(),
        url_type_text: None,
    }
}

/// Whether a local name is one of the fields of a location.
pub open spec fn location_field(n: Seq<u8>) -> bool {
    n == spec_kw_city() || n == spec_kw_country() || n == spec_kw_county() || n == spec_kw_state()
        || n == spec_kw_street() || n == spec_kw_postal() || n == spec_kw_locality() || n == spec_kw_phone()
}

/// The flags with the location field `n` open or closed.
pub open spec fn with_location_field(f: RepoFlags, n: Seq<u8>, open: bool) -> RepoFlags {
    if n == spec_kw_city() {
        RepoFlags { in_city: open, ..f }
    } else if n == spec_kw_country() {
        RepoFlags { in_country: open, ..f }
    } else if n == spec_kw_county() {
        RepoFlags { in_county: open, ..f }
    } else if n == spec_kw_state() {
        RepoFlags { in_state: open, ..f }
    } else if n == spec_kw_street() {
        RepoFlags { in_street: open, ..f }
    } else if n == spec_kw_postal() {
        RepoFlags { in_postal: open, ..f }
    } else if n == spec_kw_locality() {
        RepoFlags { in_locality: open, ..f }
    } else {
        RepoFlags { in_phone: open, ..f }
    }
}

/// A start tag inside a repository.
pub open spec fn repo_start(s: RepoParseView, tag: XmlTagView) -> RepoParseView {
    let n = local_name(tag.0);
    let f = s.flags;
    if n == spec_kw_name() {
        RepoParseView { flags: RepoFlags { in_name: true, ..f }, ..s }
    } else if n == spec_kw_type() {
        RepoParseView { flags: RepoFlags { in_type: true, ..f }, ..s }
    } else if n == spec_kw_address() {
        RepoParseView { flags: RepoFlags { in_address: true, ..f }, location: empty_location(), ..s }
    } else if n == spec_kw_location() && f.in_address {
        RepoParseView { flags: RepoFlags { in_location: true, ..f }, ..s }
    } else if location_field(n) && f.in_location {
        RepoParseView { flags: with_location_field(f, n, true), ..s }
    } else if n == spec_kw_url() {
        RepoParseView {
            flags: RepoFlags { in_url: true, ..f },
            url: UrlView { href: attr_last(tag.1, spec_kw_href()), url_type: None, desc: None },
            url_type_text: attr_last(tag.1, spec_kw_type()),
            ..s
        }
    } else if n == spec_kw_desc() && f.in_url {
        RepoParseView { flags: RepoFlags { in_url_desc: true, ..f }, ..s }
    } else {
        s
    }
}

/// The URL of an empty `<url>` tag: its last `href` and the type named by
/// its last `type`.
pub open spec fn empty_url_of(a: Seq<(Seq<u8>, Seq<u8>)>) -> UrlView {
    UrlView {
        href: Some(text_or_empty(attr_last(a, spec_kw_href()))),
        url_type: match attr_last(a, spec_kw_type()) {
            Some(t) => url_type_of(t),
            None => None,
        },
        desc: None,
    }
}

/// The repository after an empty-element tag inside it. An empty `<url>`
/// is kept only when its `href` is not empty.
pub open spec fn empty_repository(p: RepositoryDetailView, tag: XmlTagView) -> RepositoryDetailView {
    let n = local_name(tag.0);
    let h = attr_text(tag, spec_kw_hlink());
    if n == spec_kw_noteref() {
        match h {
            Some(x) => RepositoryDetailView { notes: p.notes.push(x), ..p },
            None => p,
        }
    } else if n == spec_kw_tagref() {
        match h {
            Some(x) => RepositoryDetailView { tags: p.tags.push(x), ..p },
            None => p,
        }
    } else if n == spec_kw_mediaref() {
        match h {
            Some(x) => RepositoryDetailView { media: p.media.push(x), ..p },
            None => p,
        }
    } else if n == spec_kw_url() {
        if text_or_empty(attr_last(tag.1, spec_kw_href())).len() > 0 {
            RepositoryDetailView { urls: p.urls.push(empty_url_of(tag.1)), ..p }
        } else {
            p
        }
    } else {
        p
    }
}

/// The location after text `t` in the open location field.
pub open spec fn repo_location_text(l: LocationView, f: RepoFlags, t: Seq<char>) -> LocationView {
    if f.in_city {
        LocationView { city: Some(t), ..l }
    } else if f.in_country {
        LocationView { country: Some(t), ..l }
    } else if f.in_county {
        LocationView { county: Some(t), ..l }
    } else if f.in_state {
        LocationView { state: Some(t), ..l }
    } else if f.in_street {
        LocationView { street: Some(t), ..l }
    } else if f.in_postal {
        LocationView { postal: Some(t), ..l }
    } else if f.in_locality {
        LocationView { locality: Some(t), ..l }
    } else {
        LocationView { phone: Some(t), ..l }
    }
}

pub open spec fn in_location_field(f: RepoFlags) -> bool {
    f.in_city || f.in_country || f.in_county || f.in_state || f.in_street || f.in_postal || f.in_locality
        || f.in_phone
}

/// The trimmed, non-empty text `t` of a text event inside a repository.
/// A type text sets the type to the one it names, or to none.
pub open spec fn repo_text(s: RepoParseView, t: Seq<char>) -> RepoParseView {
    let f = s.flags;
    if f.in_name {
        RepoParseView { repo: RepositoryDetailView { name: Some(t), ..s.repo }, ..s }
    } else if f.in_type {
        RepoParseView { repo: RepositoryDetailView { repo_type: repository_type_of(t), ..s.repo }, ..s }
    } else if in_location_field(f) {
        RepoParseView { location: repo_location_text(s.location, f, t), ..s }
    } else if f.in_url_desc {
        RepoParseView { url: UrlView { desc: Some(t), ..s.url }, ..s }
    } else {
        s
    }
}

/// The URL at its end tag: the type text of its start tag, when there was
/// one, sets its type.
pub open spec fn closed_repo_url(s: RepoParseView) -> UrlView {
    match s.url_type_text {
        Some(t) => UrlView { url_type: url_type_of(t), ..s.url },
        None => s.url,
    }
}

/// An end tag of local name `n` inside a repository (other than its own
/// end).
pub open spec fn repo_end(s: RepoParseView, n: Seq<u8>) -> RepoParseView {
    let f = s.flags;
    if n == spec_kw_name() {
        RepoParseView { flags: RepoFlags { in_name: false, ..f }, ..s }
    } else if n == spec_kw_type() {
        RepoParseView { flags: RepoFlags { in_type: false, ..f }, ..s }
    } else if n == spec_kw_address() {
        RepoParseView {
            repo: RepositoryDetailView { addresses: s.repo.addresses.push(s.location), ..s.repo },
            flags: RepoFlags { in_address: false, in_location: false, ..f },
            ..s
        }
    } else if n == spec_kw_location() {
        RepoParseView { flags: RepoFlags { in_location: false, ..f }, ..s }
    } else if location_field(n) {
        RepoParseView { flags: with_location_field(f, n, false), ..s }
    } else if n == spec_kw_url() {
        let u = closed_repo_url(s);
        RepoParseView {
            repo: RepositoryDetailView { urls: s.repo.urls.push(u), ..s.repo },
            flags: RepoFlags { in_url: false, in_url_desc: false, ..f },
            url: u,
            url_type_text: None,
            ..s
        }
    } else if n == spec_kw_desc() {
        RepoParseView { flags: RepoFlags { in_url_desc: false, ..f }, ..s }
    } else {
        s
    }
}

/// One reader event inside a repository (other than its end tag).
pub open spec fn repository_detail_step(s: RepoParseView, ev: XmlEventView) -> RepoParseView {
    match ev {
        XmlEventView::Start(tag) => repo_start(s, tag),
        XmlEventView::Empty(tag) => RepoParseView { repo: empty_repository(s.repo, tag), ..s },
        XmlEventView::Text(raw) => match unescaped_text(raw) {
            Some(t) => if trimmed(t).len() > 0 {
                repo_text(s, trimmed(t))
            } else {
                s
            },
            None => s,
        },
        XmlEventView::End(name) => repo_end(s, local_name(name)),
        _ => s,
    }
}

/// Abstract state of the document scan for repositories.
pub struct RepositoriesScanView {
    pub in_repositories: bool,
    pub current: Option<RepoParseView>,
    pub repositories: Seq<RepositoryDetailView>,
}

pub open spec fn repositories_scan_start() -> RepositoriesScanView {
    RepositoriesScanView { in_repositories: false, current: None, repositories: Seq::empty() }
}

/// One step of the document scan for repositories.
pub open spec fn repositories_step(s: RepositoriesScanView, ev: XmlEventView) -> RepositoriesScanView {
    match s.current {
        Some(rp) => match ev {
            XmlEventView::End(name) => if local_name(name) == spec_kw_repository() {
                RepositoriesScanView { repositories: s.repositories.push(rp.repo), current: None, ..s }
            } else {
                RepositoriesScanView { current: Some(repository_detail_step(rp, ev)), ..s }
            },
            _ => RepositoriesScanView { current: Some(repository_detail_step(rp, ev)), ..s },
        },
        None => match ev {
            XmlEventView::Start(tag) => {
                let n = local_name(tag.0);
                if detail_section(n) {
                    RepositoriesScanView { in_repositories: n == spec_kw_repositories(), ..s }
                } else if n == spec_kw_repository() && s.in_repositories {
                    RepositoriesScanView { current: Some(new_repo_parse(tag)), ..s }
                } else {
                    s
                }
            },
            XmlEventView::Empty(tag) => if local_name(tag.0) == spec_kw_repository() && s.in_repositories {
                RepositoriesScanView { repositories: s.repositories.push(new_repository_detail(tag)), ..s }
            } else {
                s
            },
            XmlEventView::End(name) => if detail_section(local_name(name)) {
                RepositoriesScanView { in_repositories: false, ..s }
            } else {
                s
            },
            _ => s,
        },
    }
}

/// The message when the document ends inside a repository.
pub open spec fn repository_eof_message() -> Seq<char> {
    "unexpected end of file while parsing repository"@
}

/// The repositories read from a document: the scan run over the reader's
/// events for `input` after `calls`, from state `s`, taking at most `fuel`
/// of them other than the end.
pub open spec fn scan_repositories_detail(
    input: Seq<char>,
    calls: Seq<XmlCall>,
    s: RepositoriesScanView,
    fuel: nat,
) -> Result<Seq<RepositoryDetailView>, Seq<char>>
    decreases fuel,
{
    match xml_next_event(input, calls) {
        Err(m) => Err(m),
        Ok(XmlEventView::Eof) => if s.current is Some {
            Err(repository_eof_message())
        } else {
            Ok(s.repositories)
        },
        Ok(ev) => if fuel == 0 {
            Err(unended_message())
        } else {
            scan_repositories_detail(input, calls.push(XmlCall::NextEvent), repositories_step(s, ev), (fuel - 1) as nat)
        },
    }
}

// ---------------------------------------------------------------------------
// Executable reading
// ---------------------------------------------------------------------------

fn empty_repository_exec(p: RepositoryDetail, tag: &XmlTag) -> (r: RepositoryDetail)
    ensures
        r@ == empty_repository(p@, tag@),
{
    let n = strip_prefix(tag.name.as_slice());
    if bytes_eq(n, kw_noteref().as_slice()) {
        match read_hlink_attr(tag) {
            Some(h) => p.push_note(h),
            None => p,
        }
    } else if bytes_eq(n, kw_tagref().as_slice()) {
        match read_hlink_attr(tag) {
            Some(h) => p.push_tag(h),
            None => p,
        }
    } else if bytes_eq(n, kw_mediaref().as_slice()) {
        match read_hlink_attr(tag) {
            Some(h) => p.push_media(h),
            None => p,
        }
    } else if bytes_eq(n, kw_url().as_slice()) {
        let href = or_empty(read_attr_last(tag, kw_href().as_slice()));
        if !href.as_str().is_empty() {
            let url_type = match read_attr_last(tag, kw_type().as_slice()) {
                Some(t) => parse_url_type(t.as_str()),
                None => None,
            };
            p.push_url(UrlRecord::new(Some(href), url_type, None))
        } else {
            p
        }
    } else {
        p
    }
}

fn location_text_exec(l: LocationRecord, f: RepoFlags, t: String) -> (r: LocationRecord)
    ensures
        r@ == repo_location_text(l@, f, t@),
{
    if f.in_city {
        l.set_city(t)
    } else if f.in_country {
        l.set_country(t)
    } else if f.in_county {
        l.set_county(t)
    } else if f.in_state {
        l.set_state(t)
    } else if f.in_street {
        l.set_street(t)
    } else if f.in_postal {
        l.set_postal(t)
    } else if f.in_locality {
        l.set_locality(t)
    } else {
        l.set_phone(t)
    }
}

fn is_location_field(n: &[u8]) -> (b: bool)
    ensures
        b == location_field(n@),
{
    bytes_eq(n, kw_city().as_slice()) || bytes_eq(n, kw_country().as_slice()) || bytes_eq(n, kw_county().as_slice())
        || bytes_eq(n, kw_state().as_slice()) || bytes_eq(n, kw_street().as_slice()) || bytes_eq(
        n,
        kw_postal().as_slice(),
    ) || bytes_eq(n, kw_locality().as_slice()) || bytes_eq(n, kw_phone().as_slice())
}

fn location_field_flags(f: RepoFlags, n: &[u8], open: bool) -> (r: RepoFlags)
    ensures
        r == with_location_field(f, n@, open),
{
    if bytes_eq(n, kw_city().as_slice()) {
        RepoFlags { in_city: open, ..f }
    } else if bytes_eq(n, kw_country().as_slice()) {
        RepoFlags { in_country: open, ..f }
    } else if bytes_eq(n, kw_county().as_slice()) {
        RepoFlags { in_county: open, ..f }
    } else if bytes_eq(n, kw_state().as_slice()) {
        RepoFlags { in_state: open, ..f }
    } else if bytes_eq(n, kw_street().as_slice()) {
        RepoFlags { in_street: open, ..f }
    } else if bytes_eq(n, kw_postal().as_slice()) {
        RepoFlags { in_postal: open, ..f }
    } else if bytes_eq(n, kw_locality().as_slice()) {
        RepoFlags { in_locality: open, ..f }
    } else {
        RepoFlags { in_phone: open, ..f }
    }
}

/// The state of reading one repository.
pub struct RepoParse {
    repo: RepositoryDetail,
    flags: RepoFlags,
    location: LocationRecord,
    url: UrlRecord,
    url_type_text: Option<String>,
}

impl View for RepoParse {
    type V = RepoParseView;

    closed spec fn view(&self) -> RepoParseView {
        RepoParseView {
            repo: self.repo@,
            flags: self.flags,
            location: self.location@,
            url: self.url@,
            url_type_text: opt_text(self.url_type_text),
        }
    }
}

impl RepoParse {
    /// The state at a repository's start tag.
    pub fn new(tag: &XmlTag) -> (r: Self)
        ensures
            r@ == new_repo_parse(tag@),
    {
        let handle = match read_handle_attr(tag) {
            Some(h) => h,
            None => String::new(),
        };
        let gramps_id = read_attr(tag, kw_id().as_slice());
        RepoParse {
            repo: RepositoryDetail::new(handle, gramps_id),
            flags: RepoFlags {
                in_name: false,
                in_type: false,
                in_address: false,
                in_location: false,
                in_city: false,
                in_country: false,
                in_county: false,
                in_state: false,
                in_street: false,
                in_postal: false,
                in_locality: false,
                in_phone: false,
                in_url: false,
                in_url_desc: false,
            },
            location: LocationRecord::empty(),
            url: UrlRecord::new(None, None, None),
            url_type_text: None,
        }
    }

    fn with_flags(self, f: RepoFlags) -> (r: Self)
        ensures
            r@ == (RepoParseView { flags: f, ..self@ }),
    {
        let RepoParse { repo, flags: _, location, url, url_type_text } = self;
        RepoParse { repo, flags: f, location, url, url_type_text }
    }

    fn start_address(self) -> (r: Self)
        ensures
            r@ == (RepoParseView {
                flags: RepoFlags { in_address: true, ..self@.flags },
                location: empty_location(),
                ..self@
            }),
    {
        let RepoParse { repo, flags, location: _, url, url_type_text } = self;
        RepoParse {
            repo,
            flags: RepoFlags { in_address: true, ..flags },
            location: LocationRecord::empty(),
            url,
            url_type_text,
        }
    }

    fn start_url(self, tag: &XmlTag) -> (r: Self)
        ensures
            r@ == (RepoParseView {
                flags: RepoFlags { in_url: true, ..self@.flags },
                url: UrlView { href: attr_last(tag@.1, spec_kw_href()), url_type: None, desc: None },
                url_type_text: attr_last(tag@.1, spec_kw_type()),
                ..self@
            }),
    {
        let RepoParse { repo, flags, location, url: _, url_type_text: _ } = self;
        let href = read_attr_last(tag, kw_href().as_slice());
        let tt = read_attr_last(tag, kw_type().as_slice());
        RepoParse { repo, flags: RepoFlags { in_url: true, ..flags }, location, url: UrlRecord::new(href, None, None), url_type_text: tt }
    }

    fn start(self, tag: &XmlTag) -> (r: Self)
        ensures
            r@ == repo_start(self@, tag@),
    {
        let f = self.flags;
        let n = strip_prefix(tag.name.as_slice());
        if bytes_eq(n, kw_name().as_slice()) {
            self.with_flags(RepoFlags { in_name: true, ..f })
        } else if bytes_eq(n, kw_type().as_slice()) {
            self.with_flags(RepoFlags { in_type: true, ..f })
        } else if bytes_eq(n, kw_address().as_slice()) {
            self.start_address()
        } else if bytes_eq(n, kw_location().as_slice()) && f.in_address {
            self.with_flags(RepoFlags { in_location: true, ..f })
        } else if is_location_field(n) && f.in_location {
            self.with_flags(location_field_flags(f, n, true))
        } else if bytes_eq(n, kw_url().as_slice()) {
            self.start_url(tag)
        } else if bytes_eq(n, kw_desc().as_slice()) && f.in_url {
            self.with_flags(RepoFlags { in_url_desc: true, ..f })
        } else {
            self
        }
    }

    fn text(self, t: String) -> (r: Self)
        ensures
            r@ == repo_text(self@, t@),
    {
        let RepoParse { repo, flags, location, url, url_type_text } = self;
        let f = flags;
        if f.in_name {
            RepoParse { repo: repo.set_name(t), flags, location, url, url_type_text }
        } else if f.in_type {
            let rt = parse_repository_type(t.as_str());
            RepoParse { repo: repo.set_repo_type(rt), flags, location, url, url_type_text }
        } else if f.in_city || f.in_country || f.in_county || f.in_state || f.in_street || f.in_postal
            || f.in_locality || f.in_phone {
            RepoParse { repo, flags, location: location_text_exec(location, f, t), url, url_type_text }
        } else if f.in_url_desc {
            RepoParse { repo, flags, location, url: url.set_desc(t), url_type_text }
        } else {
            RepoParse { repo, flags, location, url, url_type_text }
        }
    }

    fn end_address(self) -> (r: Self)
        ensures
            r@ == (RepoParseView {
                repo: RepositoryDetailView { addresses: self@.repo.addresses.push(self@.location), ..self@.repo },
                flags: RepoFlags { in_address: false, in_location: false, ..self@.flags },
                ..self@
            }),
    {
        let RepoParse { repo, flags, location, url, url_type_text } = self;
        let repo = repo.push_address(location.clone_record());
        RepoParse { repo, flags: RepoFlags { in_address: false, in_location: false, ..flags }, location, url, url_type_text }
    }

    fn end_url(self) -> (r: Self)
        ensures
            r@ == (RepoParseView {
                repo: RepositoryDetailView { urls: self@.repo.urls.push(closed_repo_url(self@)), ..self@.repo },
                flags: RepoFlags { in_url: false, in_url_desc: false, ..self@.flags },
                url: closed_repo_url(self@),
                url_type_text: None,
                ..self@
            }),
    {
        let ghost old_s = self@;
        let RepoParse { repo, flags, location, url, url_type_text } = self;
        let u = match url_type_text {
            Some(t) => url.set_url_type(parse_url_type(t.as_str())),
            None => url,
        };
        assert(u@ == closed_repo_url(old_s));
        let repo = repo.push_url(u.clone_record());
        RepoParse { repo, flags: RepoFlags { in_url: false, in_url_desc: false, ..flags }, location, url: u, url_type_text: None }
    }

    fn end(self, n: &[u8]) -> (r: Self)
        ensures
            r@ == repo_end(self@, n@),
    {
        let f = self.flags;
        if bytes_eq(n, kw_name().as_slice()) {
            self.with_flags(RepoFlags { in_name: false, ..f })
        } else if bytes_eq(n, kw_type().as_slice()) {
            self.with_flags(RepoFlags { in_type: false, ..f })
        } else if bytes_eq(n, kw_address().as_slice()) {
            self.end_address()
        } else if bytes_eq(n, kw_location().as_slice()) {
            self.with_flags(RepoFlags { in_location: false, ..f })
        } else if is_location_field(n) {
            self.with_flags(location_field_flags(f, n, false))
        } else if bytes_eq(n, kw_url().as_slice()) {
            self.end_url()
        } else if bytes_eq(n, kw_desc().as_slice()) {
            self.with_flags(RepoFlags { in_url_desc: false, ..f })
        } else {
            self
        }
    }

    /// Fold one reader event inside the repository (other than its end
    /// tag) into the state (see `repository_detail_step`).
    pub fn step(self, ev: &XmlEvent) -> (r: Self)
        ensures
            r@ == repository_detail_step(self@, ev@),
    {
        match ev {
            XmlEvent::Start(tag) => self.start(tag),
            XmlEvent::Empty(tag) => {
                let RepoParse { repo, flags, location, url, url_type_text } = self;
                RepoParse { repo: empty_repository_exec(repo, tag), flags, location, url, url_type_text }
            },
            XmlEvent::Text(raw) => {
                match unescape_text(raw.as_slice()) {
                    Some(t) => {
                        let tt = trim(t.as_str());
                        if !tt.as_str().is_empty() {
                            self.text(tt)
                        } else {
                            self
                        }
                    },
                    None => self,
                }
            },
            XmlEvent::End(name) => {
                let n = strip_prefix(name.as_slice());
                self.end(n)
            },
            _ => self,
        }
    }

    /// The repository read.
    pub fn finish(self) -> (r: RepositoryDetail)
        ensures
            r@ == self@.repo,
    {
        self.repo
    }
}

pub open spec fn repositories_view(v: Seq<RepositoryDetail>) -> Seq<RepositoryDetailView> {
    v.map_values(|p: RepositoryDetail| p@)
}

/// The state of the document scan for repositories.
pub struct RepositoriesScan {
    in_repositories: bool,
    current: Option<RepoParse>,
    repositories: Vec<RepositoryDetail>,
}

impl View for RepositoriesScan {
    type V = RepositoriesScanView;

    closed spec fn view(&self) -> RepositoriesScanView {
        RepositoriesScanView {
            in_repositories: self.in_repositories,
            current: match self.current {
                Some(p) => Some(p@),
                None => None,
            },
            repositories: repositories_view(self.repositories@),
        }
    }
}

impl RepositoriesScan {
    /// A scan that has read nothing.
    pub fn new() -> (r: Self)
        ensures
            r@ == repositories_scan_start(),
    {
        let r = RepositoriesScan { in_repositories: false, current: None, repositories: Vec::new() };
        assert(r@.repositories =~= Seq::<RepositoryDetailView>::empty());
        r
    }

    /// Whether a repository is being read.
    pub fn in_repository(&self) -> (b: bool)
        ensures
            b == self@.current is Some,
    {
        self.current.is_some()
    }

    /// Fold one reader event into the scan (see `repositories_step`).
    pub fn step(self, ev: &XmlEvent) -> (r: Self)
        ensures
            r@ == repositories_step(self@, ev@),
    {
        let RepositoriesScan { in_repositories, current, repositories } = self;
        let mut repositories = repositories;
        match current {
            Some(rp) => {
                let is_end = match ev {
                    XmlEvent::End(name) => bytes_eq(strip_prefix(name.as_slice()), kw_repository().as_slice()),
                    _ => false,
                };
                if is_end {
                    let p = rp.finish();
                    let ghost before = repositories_view(repositories@);
                    repositories.push(p);
                    assert(repositories_view(repositories@) =~= before.push(p@));
                    RepositoriesScan { in_repositories, current: None, repositories }
                } else {
                    RepositoriesScan { in_repositories, current: Some(rp.step(ev)), repositories }
                }
            },
            None => {
                match ev {
                    XmlEvent::Start(tag) => {
                        let n = strip_prefix(tag.name.as_slice());
                        if is_detail_section(n) {
                            RepositoriesScan {
                                in_repositories: bytes_eq(n, kw_repositories().as_slice()),
                                current: None,
                                repositories,
                            }
                        } else if bytes_eq(n, kw_repository().as_slice()) && in_repositories {
                            RepositoriesScan { in_repositories, current: Some(RepoParse::new(tag)), repositories }
                        } else {
                            RepositoriesScan { in_repositories, current: None, repositories }
                        }
                    },
                    XmlEvent::Empty(tag) => {
                        let n = strip_prefix(tag.name.as_slice());
                        if bytes_eq(n, kw_repository().as_slice()) && in_repositories {
                            let p = RepoParse::new(tag).finish();
                            let ghost before = repositories_view(repositories@);
                            repositories.push(p);
                            assert(repositories_view(repositories@) =~= before.push(p@));
                        }
                        RepositoriesScan { in_repositories, current: None, repositories }
                    },
                    XmlEvent::End(name) => {
                        let n = strip_prefix(name.as_slice());
                        let fl = if is_detail_section(n) { false } else { in_repositories };
                        RepositoriesScan { in_repositories: fl, current: None, repositories }
                    },
                    _ => RepositoriesScan { in_repositories, current: None, repositories },
                }
            },
        }
    }

    /// The repositories read so far.
    pub fn finish(self) -> (r: Vec<RepositoryDetail>)
        ensures
            repositories_view(r@) == self@.repositories,
    {
        self.repositories
    }
}

fn repository_eof_error() -> (e: Error)
    ensures
        e matches Error::XmlParseError { message } && message@ == repository_eof_message(),
{
    let mut m = String::new();
    crate::text::push_str(&mut m, "unexpected end of file while parsing repository");
    assert(m@ =~= repository_eof_message());
    Error::XmlParseError { message: m }
}

/// Read all repositories of a Gramps XML document in full detail (see
/// `repositories_step` and `repository_detail_step`). A reader error
/// becomes an `XmlParseError` with the reader's message; a document that
/// ends inside a repository is an `XmlParseError` too.
pub fn parse_repositories_detail(content: &str) -> (r: Result<Vec<RepositoryDetail>, Error>)
    ensures
        match scan_repositories_detail(content@, Seq::empty(), repositories_scan_start(), content.len() as nat) {
            Ok(ps) => r matches Ok(v) && repositories_view(v@) == ps,
            Err(m) => r matches Err(Error::XmlParseError { message }) && message@ == m,
        },
{
    let mut cursor = XmlCursor::new(content);
    let mut scan = RepositoriesScan::new();
    let mut fuel: usize = content.len();
    loop
        invariant
            cursor.input() == content@,
            scan_repositories_detail(content@, Seq::empty(), repositories_scan_start(), content.len() as nat)
                == scan_repositories_detail(content@, cursor.calls(), scan@, fuel as nat),
        decreases fuel,
    {
        match cursor.next_event() {
            Err(m) => {
                return Err(Error::XmlParseError { message: m });
            },
            Ok(XmlEvent::Eof) => {
                if scan.in_repository() {
                    return Err(repository_eof_error());
                }
                return Ok(scan.finish());
            },
            Ok(ev) => {
                if fuel == 0 {
                    return Err(unended_error());
                }
                fuel = fuel - 1;
                scan = scan.step(&ev);
            },
        }
    }
}

} // verus!
