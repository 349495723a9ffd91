//! Element names and attributes of XML start tags.

use vstd::prelude::*;
use crate::names::{kw_handle, kw_hlink, spec_kw_handle, spec_kw_hlink};

verus! {

/// A start (or empty-element) tag: its raw qualified name and its
/// well-formed attributes as raw (key, value) bytes, in document order.
#[derive(Debug, Clone)]
pub struct XmlTag {
    pub name: Vec<u8>,
    pub attributes: Vec<(Vec<u8>, Vec<u8>)>,
}

/// Abstract tag: name bytes and (key, value) byte pairs.
pub type XmlTagView = (Seq<u8>, Seq<(Seq<u8>, Seq<u8>)>);

impl View for XmlTag {
    type V = XmlTagView;

    open spec fn view(&self) -> XmlTagView {
        (self.name@, self.attributes@.map_values(|a: (Vec<u8>, Vec<u8>)| (a.0@, a.1@)))
    }
}

/// The byte `:`.
pub open spec fn colon() -> u8 {
    58u8
}

/// Position just after the last `:` of `name`, or 0 when it has none.
pub open spec fn local_name_start(name: Seq<u8>) -> int
    decreases name.len(),
{
    if name.len() == 0 {
        0
    } else if name.last() == colon() {
        name.len() as int
    } else {
        local_name_start(name.drop_last())
    }
}

/// `name` without its namespace prefix: the part after the last `:`.
pub open spec fn local_name(name: Seq<u8>) -> Seq<u8> {
    name.subrange(local_name_start(name), name.len() as int)
}

proof fn lemma_local_name_start(name: Seq<u8>)
    ensures
        0 <= local_name_start(name) <= name.len(),
        local_name_start(name) > 0 ==> name[local_name_start(name) - 1] == colon(),
        forall|i: int| local_name_start(name) <= i < name.len() ==> name[i] != colon(),
    decreases name.len(),
{
    if name.len() > 0 && name.last() != colon() {
        lemma_local_name_start(name.drop_last());
        assert forall|i: int| local_name_start(name) <= i < name.len() implies name[i] != colon() by {
            if i < name.len() - 1 {
                assert(name.drop_last()[i] == name[i]);
            }
        }
    }
}

/// Strip an optional namespace prefix from an element name:
/// `prefix:person` gives `person`, `person` gives `person`.
pub fn strip_prefix(name: &[u8]) -> (r: &[u8])
    ensures
        r@ == local_name(name@),
{
    proof {
        lemma_local_name_start(name@);
    }
    let mut i: usize = name.len();
    assert(name@.subrange(0, i as int) =~= name@);
    while i > 0
        invariant
            i <= name.len(),
            local_name_start(name@) == local_name_start(name@.subrange(0, i as int)),
            forall|j: int| i <= j < name.len() ==> name@[j] != colon(),
        decreases i,
    {
        if name[i - 1] == 58u8 {
            proof {
                assert(name@.subrange(0, i as int).last() == colon());
            }
            return vstd::slice::slice_subrange(name, i, name.len());
        }
        proof {
            assert(name@.subrange(0, i as int).drop_last() =~= name@.subrange(0, i - 1));
        }
        i = i - 1;
    }
    vstd::slice::slice_subrange(name, 0, name.len())
}

/// Byte-wise equality.
pub fn bytes_eq(a: &[u8], b: &[u8]) -> (r: bool)
    ensures
        r == (a@ == b@),
{
    if a.len() != b.len() {
        return false;
    }
    let mut i: usize = 0;
    while i < a.len()
        invariant
            a.len() == b.len(),
            i <= a.len(),
            forall|j: int| 0 <= j < i ==> a@[j] == b@[j],
        decreases a.len() - i,
    {
        if a[i] != b[i] {
            return false;
        }
        i = i + 1;
    }
    assert(a@ =~= b@);
    true
}

/// `key` is `kw` or ends with `:kw`: an attribute of that local name,
/// bare or namespace-prefixed.
pub open spec fn key_is(key: Seq<u8>, kw: Seq<u8>) -> bool {
    key == kw || (key.len() > kw.len() && key.subrange(key.len() - kw.len() - 1, key.len() as int)
        == seq![colon()] + kw)
}

/// Whether `key` is `kw` or ends with `:kw`.
pub fn key_matches(key: &[u8], kw: &[u8]) -> (r: bool)
    ensures
        r == key_is(key@, kw@),
{
    if bytes_eq(key, kw) {
        return true;
    }
    if key.len() <= kw.len() {
        return false;
    }
    let off = key.len() - kw.len() - 1;
    let ghost want = seq![colon()] + kw@;
    if key[off] != 58u8 {
        proof {
            assert(key@.subrange(off as int, key.len() as int)[0] != want[0]);
        }
        return false;
    }
    let mut i: usize = 0;
    while i < kw.len()
        invariant
            off + kw.len() + 1 == key.len(),
            key@[off as int] == colon(),
            want == seq![colon()] + kw@,
            i <= kw.len(),
            forall|j: int| 0 <= j < i ==> key@[off + 1 + j] == kw@[j],
        decreases kw.len() - i,
    {
        if key[off + 1 + i] != kw[i] {
            proof {
                assert(key@.subrange(off as int, key.len() as int)[1 + i] != want[1 + i]);
            }
            return false;
        }
        i = i + 1;
    }
    assert(key@.subrange(off as int, key.len() as int) =~= want);
    true
}

/// Index of the first attribute whose key is `kw` or ends with `:kw`.
pub open spec fn first_attr(attrs: Seq<(Seq<u8>, Seq<u8>)>, kw: Seq<u8>) -> Option<int>
    decreases attrs.len(),
{
    if attrs.len() == 0 {
        None
    } else {
        match first_attr(attrs.drop_last(), kw) {
            Some(i) => Some(i),
            None => if key_is(attrs.last().0, kw) {
                Some(attrs.len() - 1)
            } else {
                None
            },
        }
    }
}

/// The text of the first attribute named `kw` (bare or prefixed), decoded
/// as UTF-8 with invalid sequences replaced.
pub open spec fn attr_text(tag: XmlTagView, kw: Seq<u8>) -> Option<Seq<char>> {
    match first_attr(tag.1, kw) {
        Some(i) => Some(lossy_utf8(tag.1[i].1)),
        None => None,
    }
}

proof fn lemma_first_attr(attrs: Seq<(Seq<u8>, Seq<u8>)>, kw: Seq<u8>, i: int)
    requires
        0 <= i <= attrs.len(),
        forall|j: int| 0 <= j < i ==> !key_is(attrs[j].0, kw),
    ensures
        i < attrs.len() && key_is(attrs[i].0, kw) ==> first_attr(attrs, kw) == Some(i),
        i == attrs.len() ==> first_attr(attrs, kw) == None::<int>,
    decreases attrs.len(),
{
    if attrs.len() > 0 {
        if i < attrs.len() {
            if i < attrs.len() - 1 {
                lemma_first_attr(attrs.drop_last(), kw, i);
            } else {
                lemma_first_attr(attrs.drop_last(), kw, i);
            }
        } else {
            lemma_first_attr(attrs.drop_last(), kw, i - 1);
        }
    }
}

/// What `String::from_utf8_lossy` gives for `bytes`.
pub uninterp spec fn lossy_utf8(bytes: Seq<u8>) -> Seq<char>;

/// Decode bytes as UTF-8, replacing each invalid sequence with U+FFFD: the
/// result is named `lossy_utf8`, and on valid UTF-8 it is the plain
/// decoding. (Wraps `String::from_utf8_lossy`.)
#[verifier::external_body]
pub(crate) fn utf8_lossy(bytes: &[u8]) -> (s: String)
    ensures
        s@ == lossy_utf8(bytes@),
        vstd::utf8::valid_utf8(bytes@) ==> s@ == vstd::utf8::decode_utf8(bytes@),
{
    String::from_utf8_lossy(bytes).into_owned()
}

/// The value of the first attribute named `kw`, bare or namespace-prefixed.
pub fn read_attr(tag: &XmlTag, kw: &[u8]) -> (r: Option<String>)
    ensures
        match r {
            Some(s) => attr_text(tag@, kw@) == Some(s@),
            None => attr_text(tag@, kw@) == None::<Seq<char>>,
        },
{
    let ghost av = tag@.1;
    let mut i: usize = 0;
    while i < tag.attributes.len()
        invariant
            av == tag@.1,
            i <= tag.attributes.len(),
            forall|j: int| 0 <= j < i ==> !key_is(av[j].0, kw@),
        decreases tag.attributes.len() - i,
    {
        let (k, v) = &tag.attributes[i];
        assert(av[i as int] == (k@, v@));
        if key_matches(k.as_slice(), kw) {
            proof {
                lemma_first_attr(av, kw@, i as int);
            }
            return Some(utf8_lossy(v.as_slice()));
        }
        i = i + 1;
    }
    proof {
        lemma_first_attr(av, kw@, i as int);
    }
    None
}

/// Read the `handle` attribute of a tag; `None` when it has none (bare or
/// namespace-prefixed).
pub fn read_handle_attr(tag: &XmlTag) -> (r: Option<String>)
    ensures
        match r {
            Some(s) => attr_text(tag@, spec_kw_handle()) == Some(s@),
            None => attr_text(tag@, spec_kw_handle()) == None::<Seq<char>>,
        },
{
    let kw = kw_handle();
    read_attr(tag, kw.as_slice())
}

/// Read the `hlink` attribute of a tag; `None` when it has none (bare or
/// namespace-prefixed).
pub fn read_hlink_attr(tag: &XmlTag) -> (r: Option<String>)
    ensures
        match r {
            Some(s) => attr_text(tag@, spec_kw_hlink()) == Some(s@),
            None => attr_text(tag@, spec_kw_hlink()) == None::<Seq<char>>,
        },
{
    let kw = kw_hlink();
    read_attr(tag, kw.as_slice())
}

/// Whether the local name of a tag is `kw`.
pub fn tag_is(tag: &XmlTag, kw: &[u8]) -> (b: bool)
    ensures
        b == (local_name(tag@.0) == kw@),
{
    bytes_eq(strip_prefix(tag.name.as_slice()), kw)
}

/// Whether the local name of a raw element name is `kw`.
pub fn name_is(name: &Vec<u8>, kw: &[u8]) -> (b: bool)
    ensures
        b == (local_name(name@) == kw@),
{
    bytes_eq(strip_prefix(name.as_slice()), kw)
}

} // verus!
