//! The child elements that a node's own fields are written as (its
//! "inline" fields, as opposed to the references it holds): one line of
//! Gramps XML per field, from a node record.
//!
//! Values that a node record holds only as text, or not at all (a
//! person's gender number, an event's type as displayed, a tag's name and
//! priority, a citation's confidence, a note's format), are handed in as
//! plain values in `TypedValues`.

use vstd::prelude::*;
use crate::dates::{date_element, date_element_text, push_signed_padded, signed_padded};
use crate::graph_names::{
    kw_author, kw_city, kw_color, kw_desc, kw_description, kw_path, kw_pubinfo, kw_rname, kw_text,
    kw_title, spec_kw_author, spec_kw_city, spec_kw_color, spec_kw_desc, spec_kw_description,
    spec_kw_path, spec_kw_pubinfo, spec_kw_rname, spec_kw_text, spec_kw_title,
};
use crate::graph_scan::{NodeKind, NodeRecord, NodeView};
use crate::names::{kw_first, kw_surname, spec_kw_first, spec_kw_surname};
use crate::text::{push_str, strings_equal};
use crate::xml::bytes_eq;
use crate::xml_writer::{escape_xml, escaped};

verus! {

/// Values of typed fields that are written as they are given.
#[derive(Debug, Clone)]
pub struct TypedValues {
    /// A person's gender number.
    pub gender: i32,
    /// An event's type as it is displayed.
    pub event_type: String,
    /// A tag's name.
    pub tag_name: String,
    /// A tag's priority.
    pub tag_priority: Option<i32>,
    /// A citation's confidence.
    pub confidence: Option<i32>,
    /// A note's format.
    pub note_format: Option<i32>,
}

/// Abstract typed values.
pub struct TypedValuesView {
    pub gender: i32,
    pub event_type: Seq<char>,
    pub tag_name: Seq<char>,
    pub tag_priority: Option<i32>,
    pub confidence: Option<i32>,
    pub note_format: Option<i32>,
}

impl View for TypedValues {
    type V = TypedValuesView;

    open spec fn view(&self) -> TypedValuesView {
        TypedValuesView {
            gender: self.gender,
            event_type: self.event_type@,
            tag_name: self.tag_name@,
            tag_priority: self.tag_priority,
            confidence: self.confidence,
            note_format: self.note_format,
        }
    }
}

/// The text of the last field named `name` of a node, if it has one.
pub open spec fn last_field(fields: Seq<(Seq<u8>, Seq<char>)>, name: Seq<u8>) -> Option<Seq<char>>
    decreases fields.len(),
{
    if fields.len() == 0 {
        None
    } else if fields.last().0 == name {
        Some(fields.last().1)
    } else {
        last_field(fields.drop_last(), name)
    }
}

/// The text of an optional value, or the empty text.
pub open spec fn or_empty(v: Option<Seq<char>>) -> Seq<char> {
    match v {
        Some(t) => t,
        None => Seq::empty(),
    }
}

/// The letter a gender number is written as: `F` for 1, `U` for 2 and 3,
/// `M` otherwise.
pub open spec fn gender_letter(g: i32) -> Seq<char> {
    if g == 1 {
        "F"@
    } else if g == 2 || g == 3 {
        "U"@
    } else {
        "M"@
    }
}

/// A number as it is written (`{}` of an `i32`).
pub open spec fn number_text(v: i32) -> Seq<char> {
    signed_padded(v as int, 1)
}

/// The line `      <el>value</el>` and a newline.
pub open spec fn field_line(el: Seq<char>, value: Seq<char>) -> Seq<char> {
    "      <"@ + el + ">"@ + value + "</"@ + el + ">\n"@
}

/// The line written for an optional value, or nothing without one.
pub open spec fn opt_line(el: Seq<char>, value: Option<Seq<char>>) -> Seq<char> {
    match value {
        Some(v) => field_line(el, v),
        None => Seq::empty(),
    }
}

/// The escaped form of an optional text.
pub open spec fn opt_escaped(v: Option<Seq<char>>) -> Option<Seq<char>> {
    match v {
        Some(t) => Some(escaped(t)),
        None => None,
    }
}

/// The written form of an optional number.
pub open spec fn opt_number(v: Option<i32>) -> Option<Seq<char>> {
    match v {
        Some(x) => Some(number_text(x)),
        None => None,
    }
}

/// A source's abbreviation: its author, else its publication info, else
/// nothing.
pub open spec fn source_abbrev(n: NodeView) -> Seq<char> {
    match last_field(n.fields, spec_kw_author()) {
        Some(a) => a,
        None => or_empty(last_field(n.fields, spec_kw_pubinfo())),
    }
}

/// The text written for the inline field `field` of node `n` under the
/// child element `el`: nothing when the field does not apply to the node's
/// kind or has no value.
pub open spec fn inline_field(n: NodeView, el: Seq<char>, field: Seq<char>, tv: TypedValuesView) -> Seq<char> {
    let f = n.fields;
    if field == "gender"@ {
        if n.kind == NodeKind::Person {
            field_line(el, gender_letter(tv.gender))
        } else {
            Seq::empty()
        }
    } else if field == "primary_name"@ {
        if n.kind == NodeKind::Person {
            "      <"@ + el + "><first>"@ + escaped(or_empty(last_field(f, spec_kw_first())))
                + "</first><surname>"@ + escaped(or_empty(last_field(f, spec_kw_surname())))
                + "</surname></"@ + el + ">\n"@
        } else {
            Seq::empty()
        }
    } else if field == "event_type"@ {
        if n.kind == NodeKind::Event {
            "      <"@ + el + "><type>"@ + escaped(tv.event_type) + "</type></"@ + el + ">\n"@
        } else {
            Seq::empty()
        }
    } else if field == "date"@ {
        if n.kind == NodeKind::Event {
            date_element(el, n.date)
        } else {
            Seq::empty()
        }
    } else if field == "description"@ {
        if n.kind == NodeKind::Event {
            opt_line(el, opt_escaped(last_field(f, spec_kw_description())))
        } else if n.kind == NodeKind::Media {
            opt_line(el, opt_escaped(last_field(f, spec_kw_desc())))
        } else {
            Seq::empty()
        }
    } else if field == "name"@ {
        if n.kind == NodeKind::Tag {
            field_line(el, escaped(tv.tag_name))
        } else if n.kind == NodeKind::Repository {
            opt_line(el, opt_escaped(last_field(f, spec_kw_rname())))
        } else {
            Seq::empty()
        }
    } else if field == "color"@ {
        if n.kind == NodeKind::Tag {
            opt_line(el, opt_escaped(last_field(f, spec_kw_color())))
        } else {
            Seq::empty()
        }
    } else if field == "priority"@ {
        if n.kind == NodeKind::Tag {
            opt_line(el, opt_number(tv.tag_priority))
        } else {
            Seq::empty()
        }
    } else if field == "confidence"@ {
        if n.kind == NodeKind::Citation {
            opt_line(el, opt_number(tv.confidence))
        } else {
            Seq::empty()
        }
    } else if field == "title"@ {
        if n.kind == NodeKind::Source {
            field_line("stitle"@, escaped(or_empty(last_field(f, spec_kw_title()))))
        } else if n.kind == NodeKind::Place {
            field_line("ptitle"@, escaped(or_empty(last_field(f, spec_kw_city()))))
        } else {
            Seq::empty()
        }
    } else if field == "abbrev"@ {
        if n.kind == NodeKind::Source && source_abbrev(n).len() > 0 {
            field_line("sabbrev"@, escaped(source_abbrev(n)))
        } else {
            Seq::empty()
        }
    } else if field == "file"@ {
        if n.kind == NodeKind::Media {
            opt_line("file"@, opt_escaped(last_field(f, spec_kw_path())))
        } else {
            Seq::empty()
        }
    } else if field == "text"@ {
        if n.kind == NodeKind::Note {
            field_line("text"@, escaped(or_empty(last_field(f, spec_kw_text()))))
        } else {
            Seq::empty()
        }
    } else if field == "format"@ {
        if n.kind == NodeKind::Note {
            opt_line("format"@, opt_number(tv.note_format))
        } else {
            Seq::empty()
        }
    } else {
        Seq::empty()
    }
}

pub(crate) fn last_field_of(node: &NodeRecord, name: &[u8]) -> (r: Option<String>)
    ensures
        match r {
            Some(t) => last_field(node@.fields, name@) == Some(t@),
            None => last_field(node@.fields, name@) is None,
        },
{
    let ghost fv = node@.fields;
    let mut i: usize = node.fields.len();
    assert(fv.take(fv.len() as int) =~= fv);
    while i > 0
        invariant
            fv == node@.fields,
            i <= node.fields.len(),
            last_field(fv, name@) == last_field(fv.take(i as int), name@),
        decreases i,
    {
        let (k, v) = &node.fields[i - 1];
        assert(fv[i - 1] == (k@, v@));
        assert(fv.take(i as int).last() == fv[i - 1]);
        assert(fv.take(i as int).drop_last() =~= fv.take(i - 1));
        if bytes_eq(k.as_slice(), name) {
            return Some(v.clone());
        }
        i = i - 1;
    }
    assert(fv.take(0) =~= Seq::<(Seq<u8>, Seq<char>)>::empty());
    None
}

fn push_field_line(s: &mut String, el: &str, value: &str)
    ensures
        final(s)@ == old(s)@ + field_line(el@, value@),
{
    push_str(s, "      <");
    push_str(s, el);
    push_str(s, ">");
    push_str(s, value);
    push_str(s, "</");
    push_str(s, el);
    push_str(s, ">\n");
    assert(final(s)@ =~= old(s)@ + field_line(el@, value@));
}

fn push_opt_escaped_line(s: &mut String, el: &str, value: Option<String>)
    ensures
        final(s)@ == old(s)@ + opt_line(el@, opt_escaped(match value {
            Some(t) => Some(t@),
            None => None,
        })),
{
    match value {
        Some(t) => {
            let e = escape_xml(t.as_str());
            push_field_line(s, el, e.as_str());
        },
        None => {
            assert(old(s)@ + Seq::<char>::empty() =~= old(s)@);
        },
    }
}

fn number_string(v: i32) -> (r: String)
    ensures
        r@ == number_text(v),
{
    let mut s = String::new();
    push_signed_padded(&mut s, v, 1);
    assert(s@ =~= number_text(v));
    s
}

fn push_opt_number_line(s: &mut String, el: &str, value: Option<i32>)
    ensures
        final(s)@ == old(s)@ + opt_line(el@, opt_number(value)),
{
    match value {
        Some(x) => {
            let t = number_string(x);
            push_field_line(s, el, t.as_str());
        },
        None => {
            assert(old(s)@ + Seq::<char>::empty() =~= old(s)@);
        },
    }
}

fn text_or_empty(v: Option<String>) -> (r: String)
    ensures
        r@ == or_empty(match v {
            Some(t) => Some(t@),
            None => None,
        }),
{
    match v {
        Some(t) => t,
        None => String::new(),
    }
}

/// The text written for an inline field of a node (see `inline_field`).
pub fn inline_field_text(node: &NodeRecord, element_name: &str, field_name: &str, tv: &TypedValues) -> (r: String)
    ensures
        r@ == inline_field(node@, element_name@, field_name@, tv@),
{
    let k = node.kind;
    let mut s = String::new();
    let ghost f = node@.fields;
    if strings_equal(field_name, "gender") {
        if k == NodeKind::Person {
            let letter = if tv.gender == 1 {
                "F"
            } else if tv.gender == 2 || tv.gender == 3 {
                "U"
            } else {
                "M"
            };
            push_field_line(&mut s, element_name, letter);
        }
    } else if strings_equal(field_name, "primary_name") {
        if k == NodeKind::Person {
            let first = escape_xml(text_or_empty(last_field_of(node, kw_first().as_slice())).as_str());
            let sur = escape_xml(text_or_empty(last_field_of(node, kw_surname().as_slice())).as_str());
            push_str(&mut s, "      <");
            push_str(&mut s, element_name);
            push_str(&mut s, "><first>");
            push_str(&mut s, first.as_str());
            push_str(&mut s, "</first><surname>");
            push_str(&mut s, sur.as_str());
            push_str(&mut s, "</surname></");
            push_str(&mut s, element_name);
            push_str(&mut s, ">\n");
        }
    } else if strings_equal(field_name, "event_type") {
        if k == NodeKind::Event {
            let t = escape_xml(tv.event_type.as_str());
            push_str(&mut s, "      <");
            push_str(&mut s, element_name);
            push_str(&mut s, "><type>");
            push_str(&mut s, t.as_str());
            push_str(&mut s, "</type></");
            push_str(&mut s, element_name);
            push_str(&mut s, ">\n");
        }
    } else if strings_equal(field_name, "date") {
        if k == NodeKind::Event {
            s = date_element_text(element_name, &node.date);
        }
    } else if strings_equal(field_name, "description") {
        if k == NodeKind::Event {
            push_opt_escaped_line(&mut s, element_name, last_field_of(node, kw_description().as_slice()));
        } else if k == NodeKind::Media {
            push_opt_escaped_line(&mut s, element_name, last_field_of(node, kw_desc().as_slice()));
        }
    } else if strings_equal(field_name, "name") {
        if k == NodeKind::Tag {
            let t = escape_xml(tv.tag_name.as_str());
            push_field_line(&mut s, element_name, t.as_str());
        } else if k == NodeKind::Repository {
            push_opt_escaped_line(&mut s, element_name, last_field_of(node, kw_rname().as_slice()));
        }
    } else if strings_equal(field_name, "color") {
        if k == NodeKind::Tag {
            push_opt_escaped_line(&mut s, element_name, last_field_of(node, kw_color().as_slice()));
        }
    } else if strings_equal(field_name, "priority") {
        if k == NodeKind::Tag {
            push_opt_number_line(&mut s, element_name, tv.tag_priority);
        }
    } else if strings_equal(field_name, "confidence") {
        if k == NodeKind::Citation {
            push_opt_number_line(&mut s, element_name, tv.confidence);
        }
    } else if strings_equal(field_name, "title") {
        if k == NodeKind::Source {
            let t = escape_xml(text_or_empty(last_field_of(node, kw_title().as_slice())).as_str());
            push_field_line(&mut s, "stitle", t.as_str());
        } else if k == NodeKind::Place {
            let t = escape_xml(text_or_empty(last_field_of(node, kw_city().as_slice())).as_str());
            push_field_line(&mut s, "ptitle", t.as_str());
        }
    } else if strings_equal(field_name, "abbrev") {
        if k == NodeKind::Source {
            let a = match last_field_of(node, kw_author().as_slice()) {
                Some(a) => a,
                None => text_or_empty(last_field_of(node, kw_pubinfo().as_slice())),
            };
            if !a.as_str().is_empty() {
                let t = escape_xml(a.as_str());
                push_field_line(&mut s, "sabbrev", t.as_str());
            }
        }
    } else if strings_equal(field_name, "file") {
        if k == NodeKind::Media {
            push_opt_escaped_line(&mut s, "file", last_field_of(node, kw_path().as_slice()));
        }
    } else if strings_equal(field_name, "text") {
        if k == NodeKind::Note {
            let t = escape_xml(text_or_empty(last_field_of(node, kw_text().as_slice())).as_str());
            push_field_line(&mut s, "text", t.as_str());
        }
    } else if strings_equal(field_name, "format") {
        if k == NodeKind::Note {
            push_opt_number_line(&mut s, "format", tv.note_format);
        }
    }
    assert(s@ =~= inline_field(node@, element_name@, field_name@, tv@));
    s
}

} // verus!
