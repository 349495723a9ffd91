//! The frame of a Gramps XML document as the graph writer emits it: the
//! XML declaration, the `<database>` element with the namespace of the
//! Gramps version, the `<header>` with the creation date, the type
//! sections, and the escaping of text.

use vstd::prelude::*;
use crate::header::{schema_prefix, schema_version_of};
use crate::serialization_map::{SerializationMap, SerializationMapView};
use crate::text::{
    decimal, lemma_padded_wide, lemma_year_of_numeral, push_char, push_padded, push_str, year_of,
    zero_padded,
};

verus! {

/// `std::io::ErrorKind`, carried by `SerializationError::Io` opaquely.
#[verifier::external_type_specification]
#[verifier::external_body]
pub struct ExIoErrorKind(std::io::ErrorKind);

/// `io::ErrorKind` is `Copy`: its clone is the same kind.
pub assume_specification[ <std::io::ErrorKind as Clone>::clone ](kind: &std::io::ErrorKind) -> (r: std::io::ErrorKind)
    ensures
        r == *kind,
;

/// Errors that can occur during XML serialization.
#[derive(Clone, Debug, PartialEq)]
pub enum SerializationError {
    /// An I/O error occurred while writing.
    Io(std::io::ErrorKind, String),
    /// The graph holds a node type that the writer does not support.
    UnsupportedType(String),
    /// A required field is missing from a node.
    MissingRequiredField {
        /// Handle of the node with the missing field.
        handle: String,
        /// Name of the missing field.
        field: &'static str,
    },
}

/// The name of an I/O error kind, as its `Debug` writes it. Nothing is
/// stated of the text. (Wraps `<std::io::ErrorKind as Debug>::fmt`.)
#[verifier::external_body]
fn error_kind_name(kind: &std::io::ErrorKind) -> String {
    format!("{:?}", kind)
}

impl SerializationError {
    /// The human-readable description of the error (its display text).
    pub fn describe(&self) -> (r: String)
        ensures
            match self {
                SerializationError::Io(_, msg) => r@.len() >= ("I/O error ("@).len() && r@.subrange(
                    0,
                    ("I/O error ("@).len() as int,
                ) == "I/O error ("@ && r@.subrange(r@.len() - msg@.len(), r@.len() as int) == msg@,
                SerializationError::UnsupportedType(t) => r@ == "unsupported node type: "@ + t@,
                SerializationError::MissingRequiredField { handle, field } => r@
                    == "missing required field '"@ + field@ + "' on node '"@ + handle@ + "'"@,
            },
    {
        let mut r = String::new();
        match self {
            SerializationError::Io(kind, msg) => {
                push_str(&mut r, "I/O error (");
                let ghost pre = r@;
                let k = error_kind_name(kind);
                push_str(&mut r, k.as_str());
                push_str(&mut r, "): ");
                let ghost mid = r@;
                push_str(&mut r, msg.as_str());
                assert(r@.subrange(0, pre.len() as int) =~= pre);
                assert(pre =~= "I/O error ("@);
                assert(r@.subrange(r@.len() - msg@.len(), r@.len() as int) =~= msg@);
            },
            SerializationError::UnsupportedType(t) => {
                push_str(&mut r, "unsupported node type: ");
                push_str(&mut r, t.as_str());
                assert(r@ =~= "unsupported node type: "@ + t@);
            },
            SerializationError::MissingRequiredField { handle, field } => {
                push_str(&mut r, "missing required field '");
                push_str(&mut r, field);
                push_str(&mut r, "' on node '");
                push_str(&mut r, handle.as_str());
                push_str(&mut r, "'");
                assert(r@ =~= "missing required field '"@ + field@ + "' on node '"@ + handle@ + "'"@);
            },
        }
        r
    }
}

// ---------------------------------------------------------------------------
// Calendar
// ---------------------------------------------------------------------------

/// Gregorian leap years.
pub open spec fn leap_year(y: int) -> bool {
    (y % 4 == 0 && y % 100 != 0) || y % 400 == 0
}

/// Whether `year` is a leap year.
#[verifier::spinoff_prover]
pub fn is_leap(year: i64) -> (b: bool)
    ensures
        b == leap_year(year as int),
{
    (year % 4 == 0 && year % 100 != 0) || year % 400 == 0
}

/// Days in year `y`.
pub open spec fn year_length(y: int) -> int {
    if leap_year(y) {
        366
    } else {
        365
    }
}

/// Days in month `m` (1 to 12) of a leap or common year.
pub open spec fn month_length(leap: bool, m: int) -> int {
    if m == 2 {
        if leap {
            29
        } else {
            28
        }
    } else if m == 4 || m == 6 || m == 9 || m == 11 {
        30
    } else {
        31
    }
}

/// The year that day `rem` counted from the start of year `y` falls in,
/// with the day's offset in that year.
pub open spec fn year_and_rest(y: int, rem: int) -> (int, int)
    decreases rem,
{
    if rem < year_length(y) {
        (y, rem)
    } else {
        year_and_rest(y + 1, rem - year_length(y))
    }
}

/// The month (from `m` on) that day `rem` of a year falls in, counted from
/// the start of month `m`, with the day's offset in that month. December
/// takes what is left.
pub open spec fn month_and_rest(leap: bool, m: int, rem: int) -> (int, int)
    decreases 12 - m,
{
    if m >= 12 || rem < month_length(leap, m) {
        (m, rem)
    } else {
        month_and_rest(leap, m + 1, rem - month_length(leap, m))
    }
}

/// The Gregorian (year, month, day) of day number `days` counted from
/// 1970-01-01.
pub open spec fn civil_date(days: int) -> (int, int, int) {
    let (y, r) = year_and_rest(1970, days);
    let (m, r2) = month_and_rest(leap_year(y), 1, r);
    (y, m, r2 + 1)
}

/// `YYYY-MM-DD` text of day number `days` counted from 1970-01-01.
pub open spec fn date_text(days: int) -> Seq<char> {
    let (y, m, d) = civil_date(days);
    zero_padded(y as nat, 4) + seq!['-'] + zero_padded(m as nat, 2) + seq!['-'] + zero_padded(d as nat, 2)
}

/// `YYYY-MM-DD` text of the day of a time in seconds since 1970-01-01
/// 00:00:00 UTC.
pub open spec fn seconds_date(secs: u64) -> Seq<char> {
    date_text((secs / 86400) as int)
}

/// Days from month `m` to the end of a year.
pub open spec fn rest_of_year(leap: bool, m: int) -> int
    decreases 12 - m,
{
    if m >= 12 {
        month_length(leap, 12)
    } else {
        month_length(leap, m) + rest_of_year(leap, m + 1)
    }
}

proof fn lemma_year_and_rest(y: int, rem: int)
    requires
        rem >= 0,
    ensures
        year_and_rest(y, rem).0 >= y,
        0 <= year_and_rest(y, rem).1 < year_length(year_and_rest(y, rem).0),
    decreases rem,
{
    if rem >= year_length(y) {
        lemma_year_and_rest(y + 1, rem - year_length(y));
    }
}

proof fn lemma_month_and_rest(leap: bool, m: int, rem: int)
    requires
        1 <= m <= 12,
        0 <= rem < rest_of_year(leap, m),
    ensures
        m <= month_and_rest(leap, m, rem).0 <= 12,
        0 <= month_and_rest(leap, m, rem).1 < month_length(leap, month_and_rest(leap, m, rem).0),
    decreases 12 - m,
{
    if m < 12 && rem >= month_length(leap, m) {
        lemma_month_and_rest(leap, m + 1, rem - month_length(leap, m));
    }
}

/// Days of a year before the first of month `m` (1 to 13), by the
/// ordinal-date formula: `(367 m - 362) / 12`, less two days after February
/// in a common year and one in a leap year.
pub open spec fn days_before_month(leap: bool, m: int) -> int {
    (367 * m - 362) / 12 - if m <= 2 {
        0int
    } else if leap {
        1int
    } else {
        2int
    }
}

/// Each month is as long as the ordinal-date formula says: the days before
/// the next month less the days before it (31, 28 or 29, 31, 30, 31, 30,
/// 31, 31, 30, 31, 30, 31), and the twelve make the year.
pub proof fn lemma_month_length_ordinal(leap: bool, m: int)
    requires
        1 <= m <= 12,
    ensures
        month_length(leap, m) == days_before_month(leap, m + 1) - days_before_month(leap, m),
        days_before_month(leap, 1) == 0,
        days_before_month(leap, 13) == if leap { 366int } else { 365int },
{
    if m == 1 {
    } else if m == 2 {
    } else if m == 3 {
    } else if m == 4 {
    } else if m == 5 {
    } else if m == 6 {
    } else if m == 7 {
    } else if m == 8 {
    } else if m == 9 {
    } else if m == 10 {
    } else if m == 11 {
    } else {
    }
}

proof fn lemma_month_offset(leap: bool, m: int, rem: int)
    requires
        1 <= m <= 12,
        rem >= 0,
    ensures
        days_before_month(leap, m) + rem == days_before_month(leap, month_and_rest(leap, m, rem).0)
            + month_and_rest(leap, m, rem).1,
    decreases 12 - m,
{
    if m < 12 && rem >= month_length(leap, m) {
        lemma_month_length_ordinal(leap, m);
        lemma_month_offset(leap, m + 1, rem - month_length(leap, m));
    }
}

/// The date of a day number places the day where the ordinal-date formula
/// does: its offset in its year is the days before its month plus its day
/// less one.
pub proof fn lemma_civil_date_day_of_year(days: int)
    requires
        days >= 0,
    ensures
        year_and_rest(1970, days).1 == days_before_month(leap_year(civil_date(days).0), civil_date(days).1)
            + civil_date(days).2 - 1,
{
    let (y, r) = year_and_rest(1970, days);
    lemma_year_and_rest(1970, days);
    lemma_month_offset(leap_year(y), 1, r);
    lemma_month_length_ordinal(leap_year(y), 1);
}

/// Days from 0001-01-01 to the first of year `y` (`y >= 1`) in the
/// proleptic Gregorian calendar: 365 a year, plus one for each fourth year,
/// less one for each hundredth, plus one for each four-hundredth.
pub open spec fn days_before_year(y: int) -> int {
    365 * (y - 1) + (y - 1) / 4 - (y - 1) / 100 + (y - 1) / 400
}

/// Each year is as long as the Gregorian count says: the days before the
/// next year less the days before it.
pub proof fn lemma_year_length_gregorian(y: int)
    requires
        y >= 1,
    ensures
        year_length(y) == days_before_year(y + 1) - days_before_year(y),
{
    let a = y - 1;
    assert(a / 4 + (if y % 4 == 0 { 1int } else { 0int }) == y / 4) by (nonlinear_arith)
        requires a == y - 1, y >= 1;
    assert(a / 100 + (if y % 100 == 0 { 1int } else { 0int }) == y / 100) by (nonlinear_arith)
        requires a == y - 1, y >= 1;
    assert(a / 400 + (if y % 400 == 0 { 1int } else { 0int }) == y / 400) by (nonlinear_arith)
        requires a == y - 1, y >= 1;
    assert(y % 4 == 0 ==> (y % 100 == 0 || y % 400 != 0)) by (nonlinear_arith)
        requires y >= 1;
    assert(y % 400 == 0 ==> y % 100 == 0 && y % 4 == 0) by (nonlinear_arith)
        requires y >= 1;
    assert(y % 100 == 0 ==> y % 4 == 0) by (nonlinear_arith)
        requires y >= 1;
}

proof fn lemma_year_offset(y: int, rem: int)
    requires
        y >= 1,
        rem >= 0,
    ensures
        days_before_year(y) + rem == days_before_year(year_and_rest(y, rem).0) + year_and_rest(y, rem).1,
    decreases rem,
{
    if rem >= year_length(y) {
        lemma_year_length_gregorian(y);
        lemma_year_offset(y + 1, rem - year_length(y));
    }
}

/// The date of a day number is where the Gregorian count puts it: the days
/// from 1970-01-01 to it are the days before its year, plus the days before
/// its month, plus its day less one, counted from the days before 1970.
pub proof fn lemma_civil_date_counts_days(days: int)
    requires
        days >= 0,
    ensures
        days_before_year(1970) + days == days_before_year(civil_date(days).0) + days_before_month(
            leap_year(civil_date(days).0),
            civil_date(days).1,
        ) + civil_date(days).2 - 1,
{
    lemma_year_offset(1970, days);
    lemma_civil_date_day_of_year(days);
}

/// Every day number names a valid calendar date: its month is 1 to 12 and
/// its day lies within that month of its year.
pub proof fn lemma_civil_date_valid(days: int)
    requires
        days >= 0,
    ensures
        civil_date(days).0 >= 1970,
        1 <= civil_date(days).1 <= 12,
        1 <= civil_date(days).2 <= month_length(leap_year(civil_date(days).0), civil_date(days).1),
{
    let (y, r) = year_and_rest(1970, days);
    lemma_year_and_rest(1970, days);
    assert(rest_of_year(true, 1) == 366) by {
        reveal_with_fuel(rest_of_year, 13);
    }
    assert(rest_of_year(false, 1) == 365) by {
        reveal_with_fuel(rest_of_year, 13);
    }
    lemma_month_and_rest(leap_year(y), 1, r);
}

fn year_len(y: u64) -> (n: u64)
    requires
        y <= i64::MAX,
    ensures
        n == year_length(y as int),
{
    if is_leap(y as i64) {
        366
    } else {
        365
    }
}

fn month_len(leap: bool, m: u64) -> (n: u64)
    ensures
        n == month_length(leap, m as int),
{
    if m == 2 {
        if leap {
            29
        } else {
            28
        }
    } else if m == 4 || m == 6 || m == 9 || m == 11 {
        30
    } else {
        31
    }
}

/// The `YYYY-MM-DD` date of a time given in seconds since 1970-01-01
/// 00:00:00 UTC.
pub fn date_from_unix_seconds(secs: u64) -> (r: String)
    ensures
        r@ == seconds_date(secs),
{
    let days: u64 = secs / 86400;
    let mut y: u64 = 1970;
    let mut rem: u64 = days;
    while rem >= year_len(y)
        invariant
            days == secs / 86400,
            rem <= days,
            1970 <= y <= 1970 + (days - rem),
            year_and_rest(1970, days as int) == year_and_rest(y as int, rem as int),
        decreases rem,
    {
        let yl = year_len(y);
        rem = rem - yl;
        y = y + 1;
    }
    let leap = is_leap(y as i64);
    let mut m: u64 = 1;
    let ghost r0 = rem;
    while m < 12 && rem >= month_len(leap, m)
        invariant
            1 <= m <= 12,
            rem <= r0,
            month_and_rest(leap, 1, r0 as int) == month_and_rest(leap, m as int, rem as int),
        decreases 12 - m,
    {
        let ml = month_len(leap, m);
        rem = rem - ml;
        m = m + 1;
    }
    let mut r = String::new();
    push_padded(&mut r, y, 4);
    push_char(&mut r, '-');
    push_padded(&mut r, m, 2);
    push_char(&mut r, '-');
    push_padded(&mut r, rem + 1, 2);
    assert(r@ =~= date_text(days as int));
    r
}

/// Seconds since 1970-01-01 00:00:00 UTC by the system clock; 0 when the
/// clock is before that. (Wraps `SystemTime::now` and
/// `SystemTime::duration_since`; nothing is stated of the value.)
#[verifier::external_body]
fn unix_seconds_now() -> u64 {
    std::time::SystemTime::now().duration_since(std::time::UNIX_EPOCH).unwrap_or_default().as_secs()
}

// ---------------------------------------------------------------------------
// Namespaces
// ---------------------------------------------------------------------------

/// The XML namespace of a Gramps version: the known one for 5.0, 5.1, 5.2
/// and 6.0, else `http://gramps-project.org/xml/1.{major}.{minor}/`.
pub open spec fn namespace_for(version: Seq<char>) -> Seq<char> {
    let p = schema_prefix(version);
    if p == "5.0"@ {
        "http://gramps-project.org/xml/1.7.0/"@
    } else if p == "5.1"@ {
        "http://gramps-project.org/xml/1.7.1/"@
    } else if p == "5.2"@ {
        "http://gramps-project.org/xml/1.7.2/"@
    } else if p == "6.0"@ {
        "http://gramps-project.org/xml/1.8.0/"@
    } else {
        "http://gramps-project.org/xml/1."@ + p + "/"@
    }
}

fn literal(s: &str) -> (r: String)
    ensures
        r@ == s@,
{
    let mut r = String::new();
    push_str(&mut r, s);
    assert(r@ =~= s@);
    r
}

/// The XML namespace of a Gramps version.
pub fn derive_namespace(gramps_version: &str) -> (r: String)
    ensures
        r@ == namespace_for(gramps_version@),
{
    let prefix = schema_version_of(gramps_version);
    if prefix == literal("5.0") {
        literal("http://gramps-project.org/xml/1.7.0/")
    } else if prefix == literal("5.1") {
        literal("http://gramps-project.org/xml/1.7.1/")
    } else if prefix == literal("5.2") {
        literal("http://gramps-project.org/xml/1.7.2/")
    } else if prefix == literal("6.0") {
        literal("http://gramps-project.org/xml/1.8.0/")
    } else {
        let mut r = String::new();
        push_str(&mut r, "http://gramps-project.org/xml/1.");
        push_str(&mut r, prefix.as_str());
        push_str(&mut r, "/");
        assert(r@ =~= "http://gramps-project.org/xml/1."@ + prefix@ + "/"@);
        r
    }
}

// ---------------------------------------------------------------------------
// Escaping
// ---------------------------------------------------------------------------

/// The XML text of one character: `&`, `<`, `>`, `"` and `'` become
/// entity references, any other character stays.
pub open spec fn escape_char(c: char) -> Seq<char> {
    if c == '&' {
        "&amp;"@
    } else if c == '<' {
        "&lt;"@
    } else if c == '>' {
        "&gt;"@
    } else if c == '"' {
        "&quot;"@
    } else if c == '\'' {
        "&apos;"@
    } else {
        seq![c]
    }
}

/// The XML text of `s`, character by character.
pub open spec fn escaped(s: Seq<char>) -> Seq<char>
    decreases s.len(),
{
    if s.len() == 0 {
        Seq::empty()
    } else {
        escaped(s.drop_last()) + escape_char(s.last())
    }
}

/// Whether `c` is one of the characters that escaping replaces.
pub open spec fn is_markup(c: char) -> bool {
    c == '&' || c == '<' || c == '>' || c == '"' || c == '\''
}

/// Escape the special XML characters of a string.
pub fn escape_xml(s: &str) -> (r: String)
    ensures
        r@ == escaped(s@),
{
    let cs = crate::text::str_chars(s);
    let mut r = String::new();
    let mut i: usize = 0;
    assert(cs@.take(0) =~= Seq::<char>::empty());
    while i < cs.len()
        invariant
            cs@ == s@,
            i <= cs.len(),
            r@ == escaped(cs@.take(i as int)),
        decreases cs.len() - i,
    {
        let c = cs[i];
        assert(cs@.take(i + 1).drop_last() =~= cs@.take(i as int));
        assert(cs@.take(i + 1).last() == c);
        if c == '&' {
            push_str(&mut r, "&amp;");
        } else if c == '<' {
            push_str(&mut r, "&lt;");
        } else if c == '>' {
            push_str(&mut r, "&gt;");
        } else if c == '"' {
            push_str(&mut r, "&quot;");
        } else if c == '\'' {
            push_str(&mut r, "&apos;");
        } else {
            push_char(&mut r, c);
        }
        i = i + 1;
    }
    assert(cs@.take(cs.len() as int) =~= cs@);
    r
}

/// Escaped text holds no `<`, `>`, `"` or `'`; text without markup
/// characters is its own escape.
pub proof fn lemma_escaped_safe(s: Seq<char>)
    ensures
        forall|i: int| 0 <= i < escaped(s).len() ==> {
            let c = #[trigger] escaped(s)[i];
            c != '<' && c != '>' && c != '"' && c != '\''
        },
        (forall|i: int| 0 <= i < s.len() ==> !is_markup(#[trigger] s[i])) ==> escaped(s) == s,
    decreases s.len(),
{
    reveal_strlit("&amp;");
    reveal_strlit("&lt;");
    reveal_strlit("&gt;");
    reveal_strlit("&quot;");
    reveal_strlit("&apos;");
    if s.len() > 0 {
        let init = s.drop_last();
        lemma_escaped_safe(init);
        let e = escape_char(s.last());
        assert forall|i: int| 0 <= i < escaped(s).len() implies {
            let c = #[trigger] escaped(s)[i];
            c != '<' && c != '>' && c != '"' && c != '\''
        } by {
            if i < escaped(init).len() {
                assert(escaped(s)[i] == escaped(init)[i]);
            } else {
                assert(escaped(s)[i] == e[i - escaped(init).len()]);
            }
        }
        if forall|i: int| 0 <= i < s.len() ==> !is_markup(#[trigger] s[i]) {
            assert forall|i: int| 0 <= i < init.len() implies !is_markup(#[trigger] init[i]) by {
                assert(init[i] == s[i]);
            }
            assert(!is_markup(s[s.len() - 1]));
            assert(escaped(s) =~= s);
        }
    }
}

// ---------------------------------------------------------------------------
// Documents
// ---------------------------------------------------------------------------

/// The text of a document up to its first section: XML declaration, the
/// opening `<database>` with the namespace, and the `<header>`.
pub open spec fn document_start_text(namespace: Seq<char>, date: Seq<char>, version: Seq<char>) -> Seq<char> {
    "<?xml version=\"1.0\" encoding=\"UTF-8\"?>\n"@ + "<database xmlns=\""@ + namespace + "\">\n"@
        + "  <header>\n"@ + "    <created date=\""@ + date + "\" version=\""@ + version + "\"/>\n"@
        + "    <researcher>\n"@ + "      <resname>Generated by gramps-gen</resname>\n"@
        + "    </researcher>\n"@ + "  </header>\n"@
}

/// The text that closes a document.
pub open spec fn document_end_text() -> Seq<char> {
    "</database>\n"@
}

/// The elements of a section, each on a new line.
pub open spec fn section_body(elements: Seq<Seq<char>>) -> Seq<char>
    decreases elements.len(),
{
    if elements.len() == 0 {
        Seq::empty()
    } else {
        section_body(elements.drop_last()) + "\n    "@ + elements.last()
    }
}

/// The text of a section with the given element texts: nothing when there
/// are none.
pub open spec fn section_text(section: Seq<char>, elements: Seq<Seq<char>>) -> Seq<char> {
    if elements.len() == 0 {
        Seq::empty()
    } else {
        "  <"@ + section + ">"@ + section_body(elements) + "\n  </"@ + section + ">\n"@
    }
}

/// The text of a section holding the given element texts, in order; empty
/// when there are none.
pub fn write_section_text(section: &str, elements: &Vec<String>) -> (r: String)
    ensures
        r@ == section_text(section@, elements@.map_values(|e: String| e@)),
{
    let ghost ev = elements@.map_values(|e: String| e@);
    let mut r = String::new();
    if elements.len() == 0 {
        return r;
    }
    push_str(&mut r, "  <");
    push_str(&mut r, section);
    push_str(&mut r, ">");
    let ghost head = r@;
    let mut i: usize = 0;
    assert(ev.take(0) =~= Seq::<Seq<char>>::empty());
    assert(head =~= head + section_body(ev.take(0)));
    while i < elements.len()
        invariant
            ev == elements@.map_values(|e: String| e@),
            i <= elements.len(),
            r@ == head + section_body(ev.take(i as int)),
        decreases elements.len() - i,
    {
        assert(ev.take(i + 1).drop_last() =~= ev.take(i as int));
        assert(ev.take(i + 1).last() == elements@[i as int]@);
        push_str(&mut r, "\n    ");
        push_str(&mut r, elements[i].as_str());
        assert(r@ =~= head + section_body(ev.take(i + 1)));
        i = i + 1;
    }
    push_str(&mut r, "\n  </");
    push_str(&mut r, section);
    push_str(&mut r, ">\n");
    assert(ev.take(elements.len() as int) =~= ev);
    assert(r@ =~= section_text(section@, ev));
    r
}

/// Writes genealogy graphs as Gramps XML: the serialization map, the
/// creation date, the Gramps version and its namespace.
pub struct GraphXmlWriter {
    map: SerializationMap,
    creation_date: String,
    gramps_version: String,
    namespace: String,
}

impl GraphXmlWriter {
    /// The serialization map.
    pub closed spec fn map_view(&self) -> SerializationMapView {
        self.map@
    }

    /// The creation date written in the header.
    pub closed spec fn date_view(&self) -> Seq<char> {
        self.creation_date@
    }

    /// The Gramps version written in the header.
    pub closed spec fn version_view(&self) -> Seq<char> {
        self.gramps_version@
    }

    /// The namespace of the `<database>` element.
    pub closed spec fn namespace_view(&self) -> Seq<char> {
        self.namespace@
    }

    /// A writer with the given map and Gramps version, dated today by the
    /// system clock.
    pub fn new(map: SerializationMap, gramps_version: &str) -> (w: Self)
        ensures
            w.map_view() == map@,
            w.version_view() == gramps_version@,
            w.namespace_view() == namespace_for(gramps_version@),
            exists|secs: u64| w.date_view() == #[trigger] seconds_date(secs),
    {
        let secs = unix_seconds_now();
        let creation_date = date_from_unix_seconds(secs);
        let namespace = derive_namespace(gramps_version);
        let w = GraphXmlWriter {
            map,
            creation_date,
            gramps_version: literal(gramps_version),
            namespace,
        };
        assert(w.date_view() == seconds_date(secs));
        w
    }

    /// The serialization map.
    pub fn map(&self) -> (m: &SerializationMap)
        ensures
            m@ == self.map_view(),
    {
        &self.map
    }

    /// The creation date written in the header (`YYYY-MM-DD`).
    pub fn creation_date(&self) -> (d: &str)
        ensures
            d@ == self.date_view(),
    {
        self.creation_date.as_str()
    }

    /// The namespace of the `<database>` element.
    pub fn namespace(&self) -> (n: &str)
        ensures
            n@ == self.namespace_view(),
    {
        self.namespace.as_str()
    }

    /// The text of the document up to its first section.
    pub fn document_start(&self) -> (r: String)
        ensures
            r@ == document_start_text(self.namespace_view(), self.date_view(), self.version_view()),
    {
        let mut r = String::new();
        push_str(&mut r, "<?xml version=\"1.0\" encoding=\"UTF-8\"?>\n");
        push_str(&mut r, "<database xmlns=\"");
        push_str(&mut r, self.namespace.as_str());
        push_str(&mut r, "\">\n");
        push_str(&mut r, "  <header>\n");
        push_str(&mut r, "    <created date=\"");
        push_str(&mut r, self.creation_date.as_str());
        push_str(&mut r, "\" version=\"");
        push_str(&mut r, self.gramps_version.as_str());
        push_str(&mut r, "\"/>\n");
        push_str(&mut r, "    <researcher>\n");
        push_str(&mut r, "      <resname>Generated by gramps-gen</resname>\n");
        push_str(&mut r, "    </researcher>\n");
        push_str(&mut r, "  </header>\n");
        assert(r@ =~= document_start_text(self.namespace_view(), self.date_view(), self.version_view()));
        r
    }

    /// The text that closes the document.
    pub fn document_end(&self) -> (r: String)
        ensures
            r@ == document_end_text(),
    {
        literal("</database>\n")
    }
}


/// The year of a written date reads back: parsing the year of the
/// `YYYY-MM-DD` text of a day gives the day's year.
pub proof fn lemma_date_year_reads_back(days: int)
    requires
        days >= 0,
        civil_date(days).0 <= i32::MAX,
    ensures
        year_of(date_text(days)) == Some(civil_date(days).0 as i32),
{
    lemma_civil_date_valid(days);
    let (y, m, d) = civil_date(days);
    lemma_padded_wide(y as nat);
    let rest = zero_padded(m as nat, 2) + seq!['-'] + zero_padded(d as nat, 2);
    lemma_year_of_numeral(y as nat, rest);
    assert(date_text(days) =~= decimal(y as nat) + seq!['-'] + rest);
}


/// Text in which every `&` starts one of the five entity references and no
/// `<`, `>`, `"` or `'` occurs.
pub open spec fn well_escaped(t: Seq<char>) -> bool
    decreases t.len(),
{
    if t.len() == 0 {
        true
    } else if t[0] == '&' {
        if t.len() >= 5 && t.subrange(0, 5) == "&amp;"@ {
            well_escaped(t.subrange(5, t.len() as int))
        } else if t.len() >= 4 && (t.subrange(0, 4) == "&lt;"@ || t.subrange(0, 4) == "&gt;"@) {
            well_escaped(t.subrange(4, t.len() as int))
        } else if t.len() >= 6 && (t.subrange(0, 6) == "&quot;"@ || t.subrange(0, 6) == "&apos;"@) {
            well_escaped(t.subrange(6, t.len() as int))
        } else {
            false
        }
    } else {
        !is_markup(t[0]) && well_escaped(t.drop_first())
    }
}

/// Replace the five entity references of escaped text by their characters,
/// from the left; other characters are copied.
pub open spec fn unescaped(t: Seq<char>) -> Seq<char>
    decreases t.len(),
{
    if t.len() == 0 {
        Seq::empty()
    } else if t.len() >= 5 && t.subrange(0, 5) == "&amp;"@ {
        seq!['&'] + unescaped(t.subrange(5, t.len() as int))
    } else if t.len() >= 4 && t.subrange(0, 4) == "&lt;"@ {
        seq!['<'] + unescaped(t.subrange(4, t.len() as int))
    } else if t.len() >= 4 && t.subrange(0, 4) == "&gt;"@ {
        seq!['>'] + unescaped(t.subrange(4, t.len() as int))
    } else if t.len() >= 6 && t.subrange(0, 6) == "&quot;"@ {
        seq!['"'] + unescaped(t.subrange(6, t.len() as int))
    } else if t.len() >= 6 && t.subrange(0, 6) == "&apos;"@ {
        seq!['\''] + unescaped(t.subrange(6, t.len() as int))
    } else {
        seq![t[0]] + unescaped(t.drop_first())
    }
}

proof fn lemma_escaped_append(a: Seq<char>, b: Seq<char>)
    ensures
        escaped(a + b) == escaped(a) + escaped(b),
    decreases b.len(),
{
    if b.len() == 0 {
        assert(a + b =~= a);
        assert(escaped(a) + escaped(b) =~= escaped(a));
    } else {
        lemma_escaped_append(a, b.drop_last());
        assert((a + b).drop_last() =~= a + b.drop_last());
        assert(escaped(a) + escaped(b) =~= escaped(a) + escaped(b.drop_last()) + escape_char(b.last()));
    }
}

proof fn lemma_escaped_front(s: Seq<char>)
    requires
        s.len() > 0,
    ensures
        escaped(s) == escape_char(s[0]) + escaped(s.drop_first()),
{
    assert(s =~= seq![s[0]] + s.drop_first());
    lemma_escaped_append(seq![s[0]], s.drop_first());
    let one = seq![s[0]];
    assert(one.drop_last() =~= Seq::<char>::empty());
    assert(escaped(one.drop_last()) == Seq::<char>::empty());
    assert(one.last() == s[0]);
    assert(escaped(one) =~= escape_char(s[0]));
}

proof fn lemma_unescape_plain(c: char, r: Seq<char>)
    requires
        !is_markup(c),
    ensures
        unescaped(seq![c] + r) == seq![c] + unescaped(r),
        well_escaped(seq![c] + r) == well_escaped(r),
{
    reveal_strlit("&amp;");
    reveal_strlit("&lt;");
    reveal_strlit("&gt;");
    reveal_strlit("&quot;");
    reveal_strlit("&apos;");
    let t = seq![c] + r;
    assert(t[0] == c);
    assert(t.drop_first() =~= r);
    if t.len() >= 4 {
        assert(t.subrange(0, 4)[0] == c);
        assert(t.subrange(0, 4) != "&lt;"@);
        assert(t.subrange(0, 4) != "&gt;"@);
    }
    if t.len() >= 5 {
        assert(t.subrange(0, 5)[0] == c);
        assert(t.subrange(0, 5) != "&amp;"@);
    }
    if t.len() >= 6 {
        assert(t.subrange(0, 6)[0] == c);
        assert(t.subrange(0, 6) != "&quot;"@);
        assert(t.subrange(0, 6) != "&apos;"@);
    }
}

proof fn lemma_unescape_entity(c: char, r: Seq<char>)
    requires
        is_markup(c),
    ensures
        unescaped(escape_char(c) + r) == seq![c] + unescaped(r),
        well_escaped(escape_char(c) + r) == well_escaped(r),
{
    reveal_strlit("&amp;");
    reveal_strlit("&lt;");
    reveal_strlit("&gt;");
    reveal_strlit("&quot;");
    reveal_strlit("&apos;");
    let e = escape_char(c);
    let t = e + r;
    assert(t.subrange(e.len() as int, t.len() as int) =~= r);
    if c == '&' {
        assert(t.subrange(0, 5) =~= "&amp;"@);
    } else if c == '<' {
        assert(t.subrange(0, 4) =~= "&lt;"@);
        if t.len() >= 5 {
            assert(t.subrange(0, 5)[1] == 'l');
            assert(t.subrange(0, 5) != "&amp;"@);
        }
    } else if c == '>' {
        assert(t.subrange(0, 4) =~= "&gt;"@);
        assert(t.subrange(0, 4)[1] == 'g');
        assert(t.subrange(0, 4) != "&lt;"@);
        if t.len() >= 5 {
            assert(t.subrange(0, 5)[1] == 'g');
            assert(t.subrange(0, 5) != "&amp;"@);
        }
    } else if c == '"' {
        assert(t.subrange(0, 6) =~= "&quot;"@);
        assert(t.subrange(0, 5)[1] == 'q');
        assert(t.subrange(0, 5) != "&amp;"@);
        assert(t.subrange(0, 4)[1] == 'q');
        assert(t.subrange(0, 4) != "&lt;"@);
        assert(t.subrange(0, 4) != "&gt;"@);
    } else {
        assert(t.subrange(0, 6) =~= "&apos;"@);
        assert(t.subrange(0, 5)[1] == 'a' && t.subrange(0, 5)[2] == 'p');
        assert(t.subrange(0, 5) != "&amp;"@);
        assert(t.subrange(0, 4)[1] == 'a');
        assert(t.subrange(0, 4) != "&lt;"@);
        assert(t.subrange(0, 4) != "&gt;"@);
        assert(t.subrange(0, 6)[1] == 'a');
        assert(t.subrange(0, 6) != "&quot;"@);
    }
}

/// Escaping can be undone: the escaped text of `s` is well escaped (no
/// `<`, `>`, `"` or `'`, and every `&` starts one of the five entity
/// references), and replacing its entity references by their characters
/// gives `s` back.
pub proof fn lemma_escape_round_trip(s: Seq<char>)
    ensures
        well_escaped(escaped(s)),
        unescaped(escaped(s)) == s,
    decreases s.len(),
{
    if s.len() == 0 {
        assert(escaped(s) =~= Seq::<char>::empty());
        assert(unescaped(escaped(s)) =~= s);
    } else {
        let c = s[0];
        let rest = s.drop_first();
        lemma_escape_round_trip(rest);
        lemma_escaped_front(s);
        if is_markup(c) {
            lemma_unescape_entity(c, escaped(rest));
        } else {
            assert(escape_char(c) == seq![c]);
            lemma_unescape_plain(c, escaped(rest));
        }
        assert(seq![c] + rest =~= s);
    }
}

} // verus!
