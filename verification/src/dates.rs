//! Structured dates of `<dateval>` elements: reading them from a tag's
//! attributes and writing them back as an element line.

use vstd::prelude::*;
use crate::names::{kw_quality, kw_type, kw_val, spec_kw_quality, spec_kw_type, spec_kw_val};
use crate::text::{
    all_digits, is_digit, lemma_before_dash, lemma_no_whitespace, lemma_padded_parses,
    unicode_white_space, after_dash, before_dash, chars_eq, chars_to_string, first_word, first_word_of, parse_i32,
    parsed_i32, push_char, push_padded, push_str, split_at_dash, str_chars, to_lowercase, trim,
    trimmed, lowered, zero_padded,
};
use crate::xml::{key_is, key_matches, lossy_utf8, utf8_lossy, XmlTag};
use crate::xml_writer::{escape_xml, escaped, is_markup, lemma_escaped_safe};

verus! {

/// How sure a date is.
#[derive(Debug, Clone, Copy, PartialEq, Eq, Structural)]
pub enum DateQuality {
    Exact,
    Estimated,
    Calculated,
}

/// How a date relates to the day it names.
#[derive(Debug, Clone, Copy, PartialEq, Eq, Structural)]
pub enum DateModifier {
    About,
    After,
    Before,
    Range,
    Span,
    NoModifier,
}

/// A date: a year, optionally a month and a day, its quality and modifier,
/// and the text it was read from (or is to be written as).
#[derive(Debug, Clone, PartialEq)]
pub struct DateRecord {
    pub year: i32,
    pub month: Option<i32>,
    pub day: Option<i32>,
    pub quality: Option<DateQuality>,
    pub modifier: Option<DateModifier>,
    pub text: Option<String>,
}

/// The abstract date: the same fields, the text as characters.
pub struct DateModel {
    pub year: i32,
    pub month: Option<i32>,
    pub day: Option<i32>,
    pub quality: Option<DateQuality>,
    pub modifier: Option<DateModifier>,
    pub text: Option<Seq<char>>,
}

impl View for DateRecord {
    type V = DateModel;

    open spec fn view(&self) -> DateModel {
        DateModel {
            year: self.year,
            month: self.month,
            day: self.day,
            quality: self.quality,
            modifier: self.modifier,
            text: match self.text {
                Some(t) => Some(t@),
                None => None,
            },
        }
    }
}

/// The abstract form of an optional date.
pub open spec fn opt_date(d: Option<DateRecord>) -> Option<DateModel> {
    match d {
        Some(x) => Some(x@),
        None => None,
    }
}

/// The quality named by an attribute value: trimmed and lowercased, one of
/// `exact`, `estimated`, `calculated`.
pub open spec fn quality_of(s: Seq<char>) -> Option<DateQuality> {
    let t = lowered(trimmed(s));
    if t == seq!['e', 'x', 'a', 'c', 't'] {
        Some(DateQuality::Exact)
    } else if t == seq!['e', 's', 't', 'i', 'm', 'a', 't', 'e', 'd'] {
        Some(DateQuality::Estimated)
    } else if t == seq!['c', 'a', 'l', 'c', 'u', 'l', 'a', 't', 'e', 'd'] {
        Some(DateQuality::Calculated)
    } else {
        None
    }
}

/// The modifier named by an attribute value: trimmed and lowercased, one of
/// `about`, `after`, `before`, `range`, `span`, `none`.
pub open spec fn modifier_of(s: Seq<char>) -> Option<DateModifier> {
    let t = lowered(trimmed(s));
    if t == seq!['a', 'b', 'o', 'u', 't'] {
        Some(DateModifier::About)
    } else if t == seq!['a', 'f', 't', 'e', 'r'] {
        Some(DateModifier::After)
    } else if t == seq!['b', 'e', 'f', 'o', 'r', 'e'] {
        Some(DateModifier::Before)
    } else if t == seq!['r', 'a', 'n', 'g', 'e'] {
        Some(DateModifier::Range)
    } else if t == seq!['s', 'p', 'a', 'n'] {
        Some(DateModifier::Span)
    } else if t == seq!['n', 'o', 'n', 'e'] {
        Some(DateModifier::NoModifier)
    } else {
        None
    }
}

/// The `val`, `quality` and `type` attributes of a `<dateval>`, read in
/// order: a later attribute of the same name replaces an earlier one, and
/// an unrecognised quality or type clears it.
pub open spec fn date_attrs(attrs: Seq<(Seq<u8>, Seq<u8>)>) -> (
    Option<Seq<char>>,
    Option<DateQuality>,
    Option<DateModifier>,
)
    decreases attrs.len(),
{
    if attrs.len() == 0 {
        (None, None, None)
    } else {
        let prev = date_attrs(attrs.drop_last());
        let key = attrs.last().0;
        let text = lossy_utf8(attrs.last().1);
        if key_is(key, spec_kw_val()) {
            (Some(text), prev.1, prev.2)
        } else if key_is(key, spec_kw_quality()) {
            (prev.0, quality_of(text), prev.2)
        } else if key_is(key, spec_kw_type()) {
            (prev.0, prev.1, modifier_of(text))
        } else {
            prev
        }
    }
}

/// The `i32` in a `-`-separated field, spaces around it ignored.
pub open spec fn field_number(f: Seq<char>) -> Option<i32> {
    parsed_i32(trimmed(f))
}

/// The date that a `val` text stands for. Only its first word counts (a
/// time after it is ignored); its `-`-separated fields are year, month and
/// day. A text whose year does not read as a number is kept as text only,
/// with year 0. The text itself is always kept.
pub open spec fn date_from_val(
    raw: Seq<char>,
    quality: Option<DateQuality>,
    modifier: Option<DateModifier>,
) -> DateModel {
    let w = first_word(raw);
    let q = match quality {
        Some(q) => Some(q),
        None => Some(DateQuality::Exact),
    };
    let m = match modifier {
        Some(m) => Some(m),
        None => Some(DateModifier::NoModifier),
    };
    match field_number(before_dash(w)) {
        Some(y) => {
            let month = match after_dash(w) {
                Some(r1) => field_number(before_dash(r1)),
                None => None,
            };
            let day = match after_dash(w) {
                Some(r1) => match after_dash(r1) {
                    Some(r2) => field_number(before_dash(r2)),
                    None => None,
                },
                None => None,
            };
            DateModel { year: y, month, day, quality: q, modifier: m, text: Some(raw) }
        },
        None => DateModel {
            year: 0,
            month: None,
            day: None,
            quality: q,
            modifier: m,
            text: Some(raw),
        },
    }
}

/// The date of a `<dateval>` tag: none without a `val` attribute.
pub open spec fn dateval_of(tag: crate::xml::XmlTagView) -> Option<DateModel> {
    let (v, q, m) = date_attrs(tag.1);
    match v {
        Some(raw) => Some(date_from_val(raw, q, m)),
        None => None,
    }
}

pub(crate) fn lowered_trim(s: &str) -> (r: Vec<char>)
    ensures
        r@ == lowered(trimmed(s@)),
{
    let t = trim(s);
    let l = to_lowercase(t.as_str());
    str_chars(l.as_str())
}

fn parse_quality(s: &str) -> (r: Option<DateQuality>)
    ensures
        r == quality_of(s@),
{
    let t = lowered_trim(s);
    let a: [char; 5] = ['e', 'x', 'a', 'c', 't'];
    let b: [char; 9] = ['e', 's', 't', 'i', 'm', 'a', 't', 'e', 'd'];
    let c: [char; 10] = ['c', 'a', 'l', 'c', 'u', 'l', 'a', 't', 'e', 'd'];
    assert(a@ =~= seq!['e', 'x', 'a', 'c', 't']);
    assert(b@ =~= seq!['e', 's', 't', 'i', 'm', 'a', 't', 'e', 'd']);
    assert(c@ =~= seq!['c', 'a', 'l', 'c', 'u', 'l', 'a', 't', 'e', 'd']);
    if chars_eq(t.as_slice(), a.as_slice()) {
        Some(DateQuality::Exact)
    } else if chars_eq(t.as_slice(), b.as_slice()) {
        Some(DateQuality::Estimated)
    } else if chars_eq(t.as_slice(), c.as_slice()) {
        Some(DateQuality::Calculated)
    } else {
        None
    }
}

fn parse_modifier(s: &str) -> (r: Option<DateModifier>)
    ensures
        r == modifier_of(s@),
{
    let t = lowered_trim(s);
    let a: [char; 5] = ['a', 'b', 'o', 'u', 't'];
    let b: [char; 5] = ['a', 'f', 't', 'e', 'r'];
    let c: [char; 6] = ['b', 'e', 'f', 'o', 'r', 'e'];
    let d: [char; 5] = ['r', 'a', 'n', 'g', 'e'];
    let e: [char; 4] = ['s', 'p', 'a', 'n'];
    let f: [char; 4] = ['n', 'o', 'n', 'e'];
    assert(a@ =~= seq!['a', 'b', 'o', 'u', 't']);
    assert(b@ =~= seq!['a', 'f', 't', 'e', 'r']);
    assert(c@ =~= seq!['b', 'e', 'f', 'o', 'r', 'e']);
    assert(d@ =~= seq!['r', 'a', 'n', 'g', 'e']);
    assert(e@ =~= seq!['s', 'p', 'a', 'n']);
    assert(f@ =~= seq!['n', 'o', 'n', 'e']);
    if chars_eq(t.as_slice(), a.as_slice()) {
        Some(DateModifier::About)
    } else if chars_eq(t.as_slice(), b.as_slice()) {
        Some(DateModifier::After)
    } else if chars_eq(t.as_slice(), c.as_slice()) {
        Some(DateModifier::Before)
    } else if chars_eq(t.as_slice(), d.as_slice()) {
        Some(DateModifier::Range)
    } else if chars_eq(t.as_slice(), e.as_slice()) {
        Some(DateModifier::Span)
    } else if chars_eq(t.as_slice(), f.as_slice()) {
        Some(DateModifier::NoModifier)
    } else {
        None
    }
}

fn parse_field(f: &Vec<char>) -> (r: Option<i32>)
    ensures
        r == field_number(f@),
{
    let s = chars_to_string(f.as_slice());
    let t = trim(s.as_str());
    let cs = str_chars(t.as_str());
    parse_i32(cs.as_slice())
}

/// The date that a `val` text stands for (see `date_from_val`).
pub fn date_from_text(
    raw: String,
    quality: Option<DateQuality>,
    modifier: Option<DateModifier>,
) -> (r: DateRecord)
    ensures
        r@ == date_from_val(raw@, quality, modifier),
{
    let cs = str_chars(raw.as_str());
    let w = first_word_of(cs.as_slice());
    let q = match quality {
        Some(q) => Some(q),
        None => Some(DateQuality::Exact),
    };
    let m = match modifier {
        Some(m) => Some(m),
        None => Some(DateModifier::NoModifier),
    };
    let (f0, rest1) = split_at_dash(w.as_slice());
    match parse_field(&f0) {
        Some(y) => {
            let mut month: Option<i32> = None;
            let mut day: Option<i32> = None;
            if let Some(r1) = rest1 {
                let (f1, rest2) = split_at_dash(r1.as_slice());
                month = parse_field(&f1);
                if let Some(r2) = rest2 {
                    let (f2, _) = split_at_dash(r2.as_slice());
                    day = parse_field(&f2);
                }
            }
            DateRecord { year: y, month, day, quality: q, modifier: m, text: Some(raw) }
        },
        None => DateRecord {
            year: 0,
            month: None,
            day: None,
            quality: q,
            modifier: m,
            text: Some(raw),
        },
    }
}

/// Read the date of a `<dateval>` tag from its `val`, `quality` and `type`
/// attributes (bare or namespace-prefixed); `None` when it has no `val`.
pub fn parse_dateval(tag: &XmlTag) -> (r: Option<DateRecord>)
    ensures
        opt_date(r) == dateval_of(tag@),
{
    let kv = kw_val();
    let kq = kw_quality();
    let kt = kw_type();
    let ghost av = tag@.1;
    let mut val: Option<String> = None;
    let mut quality: Option<DateQuality> = None;
    let mut modifier: Option<DateModifier> = None;
    let mut i: usize = 0;
    while i < tag.attributes.len()
        invariant
            av == tag@.1,
            i <= tag.attributes.len(),
            kv@ == spec_kw_val(),
            kq@ == spec_kw_quality(),
            kt@ == spec_kw_type(),
            ({
                let st = date_attrs(av.take(i as int));
                &&& st.1 == quality
                &&& st.2 == modifier
                &&& match val {
                    Some(v) => st.0 == Some(v@),
                    None => st.0 is None,
                }
            }),
        decreases tag.attributes.len() - i,
    {
        let (k, v) = &tag.attributes[i];
        assert(av[i as int] == (k@, v@));
        assert(av.take(i + 1).drop_last() =~= av.take(i as int));
        assert(av.take(i + 1).last() == av[i as int]);
        if key_matches(k.as_slice(), kv.as_slice()) {
            val = Some(utf8_lossy(v.as_slice()));
        } else if key_matches(k.as_slice(), kq.as_slice()) {
            let t = utf8_lossy(v.as_slice());
            quality = parse_quality(t.as_str());
        } else if key_matches(k.as_slice(), kt.as_slice()) {
            let t = utf8_lossy(v.as_slice());
            modifier = parse_modifier(t.as_str());
        }
        i = i + 1;
    }
    assert(av.take(av.len() as int) =~= av);
    match val {
        Some(raw) => Some(date_from_text(raw, quality, modifier)),
        None => None,
    }
}

/// `v` in decimal, zero-padded to `width` characters counting its sign (as
/// `format!("{:0width$}", v)`).
pub open spec fn signed_padded(v: int, width: nat) -> Seq<char> {
    if v < 0 {
        seq!['-'] + zero_padded((-v) as nat, (width - 1) as nat)
    } else {
        zero_padded(v as nat, width)
    }
}

/// The `val` text a date is written as: its text when it has one, else
/// `YYYY-MM-DD`, `YYYY-MM` or `YYYY` by which of month and day it has.
pub open spec fn date_val_text(d: DateModel) -> Seq<char> {
    match d.text {
        Some(t) => t,
        None => match (d.month, d.day) {
            (Some(m), Some(dd)) => signed_padded(d.year as int, 4) + seq!['-'] + signed_padded(
                m as int,
                2,
            ) + seq!['-'] + signed_padded(dd as int, 2),
            (Some(m), None) => signed_padded(d.year as int, 4) + seq!['-'] + signed_padded(
                m as int,
                2,
            ),
            _ => signed_padded(d.year as int, 4),
        },
    }
}

/// The line written for an optional date under `name`: nothing without a
/// date, else `      <name val="..."/>` and a newline, the value escaped.
pub open spec fn date_element(name: Seq<char>, d: Option<DateModel>) -> Seq<char> {
    match d {
        None => Seq::empty(),
        Some(x) => "      <"@ + name + " val=\""@ + escaped(date_val_text(x)) + "\"/>\n"@,
    }
}

pub(crate) fn push_signed_padded(s: &mut String, v: i32, width: usize)
    requires
        width >= 1,
    ensures
        final(s)@ == old(s)@ + signed_padded(v as int, width as nat),
{
    if v < 0 {
        push_char(s, '-');
        let a: i64 = -(v as i64);
        push_padded(s, a as u64, width - 1);
        assert(final(s)@ =~= old(s)@ + signed_padded(v as int, width as nat));
    } else {
        push_padded(s, v as u64, width);
    }
}

fn date_text(d: &DateRecord) -> (r: String)
    ensures
        r@ == date_val_text(d@),
{
    match &d.text {
        Some(t) => t.clone(),
        None => {
            let mut s = String::new();
            push_signed_padded(&mut s, d.year, 4);
            if let Some(m) = d.month {
                push_char(&mut s, '-');
                push_signed_padded(&mut s, m, 2);
                if let Some(dd) = d.day {
                    push_char(&mut s, '-');
                    push_signed_padded(&mut s, dd, 2);
                }
            }
            assert(s@ =~= date_val_text(d@));
            s
        },
    }
}

/// The element line for an optional date (see `date_element`).
pub fn date_element_text(element_name: &str, date: &Option<DateRecord>) -> (r: String)
    ensures
        r@ == date_element(element_name@, opt_date(*date)),
{
    let mut s = String::new();
    if let Some(d) = date {
        let v = date_text(d);
        push_str(&mut s, "      <");
        push_str(&mut s, element_name);
        push_str(&mut s, " val=\"");
        let e = escape_xml(v.as_str());
        push_str(&mut s, e.as_str());
        push_str(&mut s, "\"/>\n");
        assert(s@ =~= date_element(element_name@, opt_date(*date)));
    } else {
        assert(s@ =~= Seq::<char>::empty());
    }
    s
}


/// A character of a written numeric date: a digit or `-`.
pub open spec fn numeric_date_char(c: char) -> bool {
    is_digit(c) || c == '-'
}

proof fn lemma_split_numeral(p: Seq<char>, rest: Seq<char>)
    requires
        all_digits(p),
    ensures
        before_dash(p + seq!['-'] + rest) == p,
        after_dash(p + seq!['-'] + rest) == Some(rest),
        before_dash(p) == p,
        after_dash(p) is None,
{
    let t = p + seq!['-'] + rest;
    assert forall|j: int| 0 <= j < p.len() implies t[j] != '-' by {
        assert(t[j] == p[j]);
        assert(is_digit(p[j]));
    }
    lemma_before_dash(t, p.len() as int);
    assert(t.subrange(0, p.len() as int) =~= p);
    assert(t.subrange(p.len() + 1int, t.len() as int) =~= rest);
    assert forall|j: int| 0 <= j < p.len() implies p[j] != '-' by {
        assert(is_digit(p[j]));
    }
    lemma_before_dash(p, p.len() as int);
    assert(p.subrange(0, p.len() as int) =~= p);
}

proof fn lemma_numeric_text(t: Seq<char>)
    requires
        t.len() > 0,
        forall|j: int| 0 <= j < t.len() ==> numeric_date_char(#[trigger] t[j]),
    ensures
        first_word(t) == t,
        escaped(t) == t,
{
    assert forall|j: int| 0 <= j < t.len() implies !unicode_white_space(#[trigger] t[j]) by {
        assert(numeric_date_char(t[j]));
    }
    lemma_no_whitespace(t);
    assert forall|j: int| 0 <= j < t.len() implies !is_markup(#[trigger] t[j]) by {
        assert(numeric_date_char(t[j]));
    }
    lemma_escaped_safe(t);
}

proof fn lemma_field_reads(n: nat, width: nat)
    requires
        n <= i32::MAX,
    ensures
        field_number(zero_padded(n, width)) == Some(n as i32),
        all_digits(zero_padded(n, width)),
        zero_padded(n, width).len() > 0,
{
    lemma_padded_parses(n, width);
    let p = zero_padded(n, width);
    assert forall|j: int| 0 <= j < p.len() implies !unicode_white_space(#[trigger] p[j]) by {
        assert(is_digit(p[j]));
    }
    lemma_no_whitespace(p);
}

/// Structured dates survive writing and reading back: a date without text,
/// whose year, month and day are not negative and which has a day only
/// together with a month, is written as a text that contains no markup
/// (so it stands in the element unescaped), and reading that text gives
/// the same year, month and day, with the text kept.
pub proof fn lemma_date_round_trip(
    d: DateModel,
    quality: Option<DateQuality>,
    modifier: Option<DateModifier>,
)
    requires
        d.text is None,
        d.year >= 0,
        d.month matches Some(m) ==> m >= 0,
        d.day matches Some(x) ==> x >= 0,
        d.day is Some ==> d.month is Some,
    ensures
        escaped(date_val_text(d)) == date_val_text(d),
        date_from_val(date_val_text(d), quality, modifier).year == d.year,
        date_from_val(date_val_text(d), quality, modifier).month == d.month,
        date_from_val(date_val_text(d), quality, modifier).day == d.day,
        date_from_val(date_val_text(d), quality, modifier).text == Some(date_val_text(d)),
{
    let y = zero_padded(d.year as nat, 4);
    lemma_field_reads(d.year as nat, 4);
    assert(signed_padded(d.year as int, 4) == y);
    let t = date_val_text(d);
    match d.month {
        Some(m) => {
            let mm = zero_padded(m as nat, 2);
            lemma_field_reads(m as nat, 2);
            assert(signed_padded(m as int, 2) == mm);
            match d.day {
                Some(x) => {
                    let dd = zero_padded(x as nat, 2);
                    lemma_field_reads(x as nat, 2);
                    assert(signed_padded(x as int, 2) == dd);
                    let r1 = mm + seq!['-'] + dd;
                    assert(t =~= y + seq!['-'] + r1);
                    assert forall|j: int| 0 <= j < t.len() implies numeric_date_char(
                        #[trigger] t[j],
                    ) by {
                        if j < y.len() {
                            assert(t[j] == y[j]);
                        } else if j == y.len() {
                        } else if j < y.len() + 1 + mm.len() {
                            assert(t[j] == mm[j - y.len() - 1]);
                        } else if j == y.len() + 1 + mm.len() {
                        } else {
                            assert(t[j] == dd[j - y.len() - 2 - mm.len()]);
                        }
                    }
                    lemma_numeric_text(t);
                    lemma_split_numeral(y, r1);
                    lemma_split_numeral(mm, dd);
                    lemma_split_numeral(dd, Seq::empty());
                },
                None => {
                    assert(t =~= y + seq!['-'] + mm);
                    assert forall|j: int| 0 <= j < t.len() implies numeric_date_char(
                        #[trigger] t[j],
                    ) by {
                        if j < y.len() {
                            assert(t[j] == y[j]);
                        } else if j == y.len() {
                        } else {
                            assert(t[j] == mm[j - y.len() - 1]);
                        }
                    }
                    lemma_numeric_text(t);
                    lemma_split_numeral(y, mm);
                    lemma_split_numeral(mm, Seq::empty());
                },
            }
        },
        None => {
            assert(t == y);
            assert forall|j: int| 0 <= j < t.len() implies numeric_date_char(#[trigger] t[j]) by {
                assert(is_digit(y[j]));
            }
            lemma_numeric_text(t);
            lemma_split_numeral(y, Seq::empty());
        },
    }
}

/// A date's own text survives writing and reading back: it is written as
/// that text, unescaped when it holds no markup characters, and reading it
/// keeps it as the date's text.
pub proof fn lemma_date_text_round_trip(
    d: DateModel,
    quality: Option<DateQuality>,
    modifier: Option<DateModifier>,
)
    requires
        d.text is Some,
        forall|j: int| 0 <= j < d.text->0.len() ==> !is_markup(#[trigger] d.text->0[j]),
    ensures
        date_val_text(d) == d.text->0,
        escaped(date_val_text(d)) == d.text->0,
        date_from_val(date_val_text(d), quality, modifier).text == d.text,
{
    lemma_escaped_safe(d.text->0);
}

} // verus!
