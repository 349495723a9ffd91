//! Schema version detection from the header of a Gramps XML document.
//!
//! The header holds `<header><created version="X.Y"/></header>`. The
//! schema version is the `major.minor` prefix of that version; this
//! library reads schema versions 5.1 and 5.2.

use vstd::prelude::*;
use crate::error::Error;
use crate::extract::{unended_error, unended_message};
use crate::names::{kw_created, kw_header, kw_version, spec_kw_created, spec_kw_header, spec_kw_version};
use crate::text::{push_char, push_str, str_chars};
use crate::xml::{key_is, key_matches, local_name, lossy_utf8, name_is, tag_is, utf8_lossy, XmlTag, XmlTagView};
use crate::xml_reader::{xml_next_event, XmlCall, XmlCursor, XmlEvent, XmlEventView};

verus! {

/// The version after reading the attributes `attrs` of a `<created>` tag,
/// starting from `prev`: the value of the last `version` attribute (bare or
/// prefixed), or `prev` when there is none.
pub open spec fn version_after(attrs: Seq<(Seq<u8>, Seq<u8>)>, prev: Option<Seq<char>>) -> Option<Seq<char>>
    decreases attrs.len(),
{
    if attrs.len() == 0 {
        prev
    } else if key_is(attrs.last().0, spec_kw_version()) {
        Some(lossy_utf8(attrs.last().1))
    } else {
        version_after(attrs.drop_last(), prev)
    }
}

/// Abstract state of a header scan: whether the reader has entered the
/// `<header>`, and the version read so far.
pub struct HeaderScanView {
    pub in_header: bool,
    pub version: Option<Seq<char>>,
}

/// One step of a header scan, for an event that does not end it.
pub open spec fn header_step(s: HeaderScanView, ev: XmlEventView) -> HeaderScanView {
    match ev {
        XmlEventView::Start(tag) => header_tag(s, tag),
        XmlEventView::Empty(tag) => header_tag(s, tag),
        _ => s,
    }
}

/// A start or empty tag in a header scan.
pub open spec fn header_tag(s: HeaderScanView, tag: XmlTagView) -> HeaderScanView {
    let n = local_name(tag.0);
    if n == spec_kw_header() {
        HeaderScanView { in_header: true, ..s }
    } else if n == spec_kw_created() && s.in_header {
        HeaderScanView { version: version_after(tag.1, s.version), ..s }
    } else {
        s
    }
}

/// Whether an event ends a header scan: the end of the document or of the
/// `<header>` element.
pub open spec fn header_done(ev: XmlEventView) -> bool {
    match ev {
        XmlEventView::Eof => true,
        XmlEventView::End(name) => local_name(name) == spec_kw_header(),
        _ => false,
    }
}

/// The version read from the header of `input`: the header scan run over
/// what the reader returns after the calls `calls`, from state `s`. At
/// most `fuel` events are folded.
pub open spec fn scan_header(input: Seq<char>, calls: Seq<XmlCall>, s: HeaderScanView, fuel: nat) -> Result<
    Option<Seq<char>>,
    Seq<char>,
>
    decreases fuel,
{
    match xml_next_event(input, calls) {
        Err(m) => Err(m),
        Ok(ev) => if header_done(ev) {
            Ok(s.version)
        } else if fuel == 0 {
            Err(unended_message())
        } else {
            scan_header(input, calls.push(XmlCall::NextEvent), header_step(s, ev), (fuel - 1) as nat)
        },
    }
}

/// Index of the first `.` of `s` at or after `from`, or `s.len()`.
pub open spec fn dot_from(s: Seq<char>, from: int) -> int
    decreases s.len() - from,
{
    if from >= s.len() {
        s.len() as int
    } else if s[from] == '.' {
        from
    } else {
        dot_from(s, from + 1)
    }
}

/// The schema version of a version string: its first two `.`-separated
/// fields joined by `.` ("5.2.0" gives "5.2", "5.2" and "5" stay).
pub open spec fn schema_prefix(v: Seq<char>) -> Seq<char> {
    let first = dot_from(v, 0);
    if first >= v.len() {
        v
    } else {
        v.subrange(0, dot_from(v, first + 1))
    }
}

/// The schema versions this library reads.
pub open spec fn supported_schema(s: Seq<char>) -> bool {
    s == seq!['5', '.', '1'] || s == seq!['5', '.', '2']
}

/// The message of the error for a document without a header version.
pub open spec fn missing_header_message() -> Seq<char> {
    "missing <header><created version=\"...\"/> element"@
}

/// The outcome of schema detection for the version read from a header.
pub open spec fn schema_outcome(version: Option<Seq<char>>, r: Result<String, Error>) -> bool {
    match version {
        None => r matches Err(Error::XmlParseError { message }) && message@ == missing_header_message(),
        Some(v) => if supported_schema(schema_prefix(v)) {
            r matches Ok(s) && s@ == schema_prefix(v)
        } else {
            r matches Err(Error::UnsupportedSchema { version, schema_version }) && version@ == v
                && schema_version@ == schema_prefix(v)
        },
    }
}

proof fn lemma_dot_from(s: Seq<char>, from: int, k: int)
    requires
        0 <= from <= k <= s.len(),
        forall|j: int| from <= j < k ==> s[j] != '.',
        k < s.len() ==> s[k] == '.',
    ensures
        dot_from(s, from) == k,
    decreases k - from,
{
    if from < k {
        lemma_dot_from(s, from + 1, k);
    }
}

fn find_dot(cs: &Vec<char>, from: usize) -> (k: usize)
    requires
        from <= cs.len(),
    ensures
        from <= k <= cs.len(),
        k == dot_from(cs@, from as int),
{
    let mut k = from;
    while k < cs.len() && cs[k] != '.'
        invariant
            from <= k <= cs.len(),
            forall|j: int| from <= j < k ==> cs@[j] != '.',
        decreases cs.len() - k,
    {
        k = k + 1;
    }
    proof {
        lemma_dot_from(cs@, from as int, k as int);
    }
    k
}

/// The schema version of a version string (its first two `.`-separated
/// fields).
pub fn schema_version_of(v: &str) -> (r: String)
    ensures
        r@ == schema_prefix(v@),
{
    let cs = str_chars(v);
    let first = find_dot(&cs, 0);
    let end = if first >= cs.len() {
        cs.len()
    } else {
        find_dot(&cs, first + 1)
    };
    let mut r = String::new();
    let mut i: usize = 0;
    while i < end
        invariant
            end <= cs.len(),
            i <= end,
            r@ == cs@.subrange(0, i as int),
        decreases end - i,
    {
        push_char(&mut r, cs[i]);
        assert(cs@.subrange(0, i + 1) =~= cs@.subrange(0, i as int).push(cs@[i as int]));
        i = i + 1;
    }
    assert(first >= cs.len() ==> cs@.subrange(0, end as int) =~= cs@);
    r
}

/// Whether this library reads the schema version `s`.
pub fn is_supported_schema(s: &str) -> (b: bool)
    ensures
        b == supported_schema(s@),
{
    let cs = str_chars(s);
    if cs.len() != 3 || cs[0] != '5' || cs[1] != '.' {
        proof {
            if cs@.len() == 3 {
                assert(cs@[0] != seq!['5', '.', '1'][0] || cs@[1] != seq!['5', '.', '1'][1]);
            }
        }
        return false;
    }
    let b = cs[2] == '1' || cs[2] == '2';
    proof {
        if cs@[2] == '1' {
            assert(cs@ =~= seq!['5', '.', '1']);
        } else if cs@[2] == '2' {
            assert(cs@ =~= seq!['5', '.', '2']);
        } else {
            assert(cs@[2] != seq!['5', '.', '1'][2]);
            assert(cs@[2] != seq!['5', '.', '2'][2]);
        }
    }
    b
}

/// Decide the schema version from the version read in a header: its
/// `major.minor` prefix when this library reads it; `UnsupportedSchema`
/// when it does not; `XmlParseError` when the header gave no version.
pub fn schema_from_version(version: Option<String>) -> (r: Result<String, Error>)
    ensures
        schema_outcome(
            match version {
                Some(v) => Some(v@),
                None => None,
            },
            r,
        ),
{
    match version {
        Some(v) => {
            let schema_version = schema_version_of(v.as_str());
            if is_supported_schema(schema_version.as_str()) {
                Ok(schema_version)
            } else {
                Err(Error::UnsupportedSchema { version: v, schema_version })
            }
        },
        None => {
            let mut m = String::new();
            push_str(&mut m, "missing <header><created version=\"...\"/> element");
            assert(m@ =~= missing_header_message());
            Err(Error::XmlParseError { message: m })
        },
    }
}

/// The state of a header scan.
pub struct HeaderScan {
    in_header: bool,
    version: Option<String>,
}

impl View for HeaderScan {
    type V = HeaderScanView;

    closed spec fn view(&self) -> HeaderScanView {
        HeaderScanView {
            in_header: self.in_header,
            version: match self.version {
                Some(v) => Some(v@),
                None => None,
            },
        }
    }
}

impl HeaderScan {
    /// A scan outside the header with no version read.
    pub fn new() -> (s: Self)
        ensures
            s@ == (HeaderScanView { in_header: false, version: None }),
    {
        HeaderScan { in_header: false, version: None }
    }

    fn tag(&mut self, tag: &XmlTag)
        ensures
            final(self)@ == header_tag(old(self)@, tag@),
    {
        let kh = kw_header();
        let kc = kw_created();
        let kv = kw_version();
        if tag_is(tag, kh.as_slice()) {
            self.in_header = true;
        } else if tag_is(tag, kc.as_slice()) && self.in_header {
            let ghost av = tag@.1;
            let ghost prev = self@.version;
            let mut i: usize = 0;
            assert(av.take(0) =~= Seq::<(Seq<u8>, Seq<u8>)>::empty());
            while i < tag.attributes.len()
                invariant
                    av == tag@.1,
                    kv@ == spec_kw_version(),
                    i <= tag.attributes.len(),
                    self@.in_header,
                    self@.version == version_after(av.take(i as int), prev),
                decreases tag.attributes.len() - i,
            {
                let (k, v) = &tag.attributes[i];
                assert(av[i as int] == (k@, v@));
                assert(av.take(i + 1).drop_last() =~= av.take(i as int));
                assert(av.take(i + 1).last() == av[i as int]);
                assert(av.take(i + 1).len() == i + 1);
                assert(version_after(av.take(i + 1), prev) == if key_is(k@, spec_kw_version()) {
                    Some(lossy_utf8(v@))
                } else {
                    version_after(av.take(i as int), prev)
                });
                if key_matches(k.as_slice(), kv.as_slice()) {
                    let t = utf8_lossy(v.as_slice());
                    self.version = Some(t);
                    assert(self@.version == Some(lossy_utf8(v@)));
                }
                i = i + 1;
            }
            assert(av.take(i as int) =~= av);
        }
    }

    /// Fold one event that does not end the scan.
    pub fn step(&mut self, ev: &XmlEvent)
        ensures
            final(self)@ == header_step(old(self)@, ev@),
    {
        match ev {
            XmlEvent::Start(tag) => self.tag(tag),
            XmlEvent::Empty(tag) => self.tag(tag),
            _ => {},
        }
    }

    /// The version read so far.
    pub fn finish(self) -> (r: Option<String>)
        ensures
            match r {
                Some(v) => self@.version == Some(v@),
                None => self@.version == None::<Seq<char>>,
            },
    {
        self.version
    }
}

/// Whether an event ends a header scan.
pub fn ends_header(ev: &XmlEvent) -> (b: bool)
    ensures
        b == header_done(ev@),
{
    let kh = kw_header();
    match ev {
        XmlEvent::Eof => true,
        XmlEvent::End(name) => name_is(name, kh.as_slice()),
        _ => false,
    }
}

/// Detect the schema version of a Gramps XML document from its
/// `<header><created version="X.Y"/>`: the `major.minor` prefix of the
/// version when this library reads it.
///
/// Errors: `XmlParseError` when the XML is malformed or the header has no
/// version; `UnsupportedSchema` when the schema version is not 5.1 or 5.2.
pub fn detect_schema_version(content: &str) -> (r: Result<String, Error>)
    ensures
        match scan_header(content@, Seq::empty(), HeaderScanView { in_header: false, version: None }, content.len() as nat) {
            Err(m) => r matches Err(Error::XmlParseError { message }) && message@ == m,
            Ok(version) => schema_outcome(version, r),
        },
{
    let mut cursor = XmlCursor::new(content);
    let mut scan = HeaderScan::new();
    let mut fuel: usize = content.len();
    loop
        invariant
            cursor.input() == content@,
            scan_header(content@, Seq::empty(), HeaderScanView { in_header: false, version: None }, content.len() as nat)
                == scan_header(content@, cursor.calls(), scan@, fuel as nat),
        decreases fuel,
    {
        match cursor.next_event() {
            Err(m) => {
                return Err(Error::XmlParseError { message: m });
            },
            Ok(ev) => {
                if ends_header(&ev) {
                    return schema_from_version(scan.finish());
                }
                if fuel == 0 {
                    return Err(unended_error());
                }
                fuel = fuel - 1;
                scan.step(&ev);
            },
        }
    }
}


proof fn lemma_dot_from_bounds(s: Seq<char>, from: int)
    requires
        0 <= from,
    ensures
        from <= dot_from(s, from) || from > s.len(),
        dot_from(s, from) <= s.len(),
        forall|j: int| from <= j < dot_from(s, from) ==> s[j] != '.',
        dot_from(s, from) < s.len() ==> s[dot_from(s, from)] == '.',
    decreases s.len() - from,
{
    if from < s.len() && s[from] != '.' {
        lemma_dot_from_bounds(s, from + 1);
    }
}

/// The schema version of a version string is a prefix of it that holds at
/// most one `.`; a version with at most one `.` is its own schema version.
pub proof fn lemma_schema_prefix(v: Seq<char>)
    ensures
        schema_prefix(v).len() <= v.len(),
        schema_prefix(v) == v.subrange(0, schema_prefix(v).len() as int),
        forall|i: int, j: int|
            0 <= i < j < schema_prefix(v).len() && schema_prefix(v)[i] == '.' ==> schema_prefix(v)[j] != '.',
        (forall|i: int, j: int| 0 <= i < j < v.len() && v[i] == '.' ==> v[j] != '.') ==> schema_prefix(v) == v,
{
    lemma_dot_from_bounds(v, 0);
    let first = dot_from(v, 0);
    if first < v.len() {
        lemma_dot_from_bounds(v, first + 1);
        let second = dot_from(v, first + 1);
        assert(v.subrange(0, second) =~= v.subrange(0, second).subrange(0, second));
        if forall|i: int, j: int| 0 <= i < j < v.len() && v[i] == '.' ==> v[j] != '.' {
            if second < v.len() {
                assert(v[first] == '.' && v[second] == '.');
            }
            assert(v.subrange(0, second) =~= v);
        }
    } else {
        assert(v.subrange(0, v.len() as int) =~= v);
    }
}

} // verus!
