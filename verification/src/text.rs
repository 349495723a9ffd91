//! Small text utilities: building strings, decimal numerals, trimming and
//! name matching on bytes.

use vstd::prelude::*;

verus! {

/// Append one character: the string gains `c` at its end. (Wraps
/// `String::push`.)
#[verifier::external_body]
pub(crate) fn push_char(s: &mut String, c: char)
    ensures
        final(s)@ == old(s)@.push(c),
{
    s.push(c);
}

/// Append a string slice: the string gains the characters of `t` at its
/// end. (Wraps `String::push_str`.)
#[verifier::external_body]
pub(crate) fn push_str(s: &mut String, t: &str)
    ensures
        final(s)@ == old(s)@ + t@,
{
    s.push_str(t);
}

/// The decimal digit character for `d < 10`.
pub open spec fn digit_char(d: nat) -> char {
    if d == 0 {
        '0'
    } else if d == 1 {
        '1'
    } else if d == 2 {
        '2'
    } else if d == 3 {
        '3'
    } else if d == 4 {
        '4'
    } else if d == 5 {
        '5'
    } else if d == 6 {
        '6'
    } else if d == 7 {
        '7'
    } else if d == 8 {
        '8'
    } else {
        '9'
    }
}

/// The decimal numeral of `n`, without leading zeros ("0" for zero).
pub open spec fn decimal(n: nat) -> Seq<char>
    decreases n,
{
    if n < 10 {
        seq![digit_char(n)]
    } else {
        decimal(n / 10).push(digit_char(n % 10))
    }
}

fn digit_to_char(d: u64) -> (c: char)
    requires
        d < 10,
    ensures
        c == digit_char(d as nat),
{
    if d == 0 {
        '0'
    } else if d == 1 {
        '1'
    } else if d == 2 {
        '2'
    } else if d == 3 {
        '3'
    } else if d == 4 {
        '4'
    } else if d == 5 {
        '5'
    } else if d == 6 {
        '6'
    } else if d == 7 {
        '7'
    } else if d == 8 {
        '8'
    } else {
        '9'
    }
}

/// Append the decimal numeral of `n` to `s`.
pub fn push_decimal(s: &mut String, n: u64)
    ensures
        final(s)@ == old(s)@ + decimal(n as nat),
    decreases n,
{
    if n < 10 {
        push_char(s, digit_to_char(n));
        assert(decimal(n as nat) =~= seq![digit_char(n as nat)]);
        assert(old(s)@.push(digit_char(n as nat)) =~= old(s)@ + decimal(n as nat));
    } else {
        push_decimal(s, n / 10);
        push_char(s, digit_to_char(n % 10));
        assert(old(s)@ + decimal(n as nat) =~= (old(s)@ + decimal((n / 10) as nat)).push(
            digit_char((n % 10) as nat),
        ));
    }
}

/// The decimal numeral of `n` as a new string.
pub fn decimal_string(n: usize) -> (s: String)
    ensures
        s@ == decimal(n as nat),
{
    let mut s = String::new();
    push_decimal(&mut s, n as u64);
    assert(Seq::<char>::empty() + decimal(n as nat) =~= decimal(n as nat));
    s
}


/// The decimal numeral of `n`, padded with leading zeros to at least
/// `width` characters (as `format!("{:0width$}", n)`).
pub open spec fn zero_padded(n: nat, width: nat) -> Seq<char> {
    if decimal(n).len() < width {
        Seq::new((width - decimal(n).len()) as nat, |i: int| '0') + decimal(n)
    } else {
        decimal(n)
    }
}

/// Append the decimal numeral of `n`, padded with leading zeros to at least
/// `width` characters.
pub fn push_padded(s: &mut String, n: u64, width: usize)
    ensures
        final(s)@ == old(s)@ + zero_padded(n as nat, width as nat),
{
    let mut digits = String::new();
    push_decimal(&mut digits, n);
    let len = str_chars(digits.as_str()).len();
    assert(digits@ =~= decimal(n as nat));
    let ghost start = s@;
    if len < width {
        let mut k: usize = 0;
        while k < width - len
            invariant
                len < width,
                k <= width - len,
                s@ == start + Seq::new(k as nat, |i: int| '0'),
            decreases width - len - k,
        {
            push_char(s, '0');
            assert(start + Seq::new((k + 1) as nat, |i: int| '0') =~= (start + Seq::new(k as nat, |i: int| '0')).push('0'));
            k = k + 1;
        }
    }
    push_str(s, digits.as_str());
    assert(s@ =~= start + zero_padded(n as nat, width as nat));
}

/// Decode bytes as UTF-8: the decoded characters when the bytes are valid
/// UTF-8, `None` exactly when they are not. (Wraps `std::str::from_utf8`.)
#[verifier::external_body]
pub(crate) fn utf8_decode(bytes: &[u8]) -> (r: Option<String>)
    ensures
        r is Some <==> vstd::utf8::valid_utf8(bytes@),
        r matches Some(s) ==> s@ == vstd::utf8::decode_utf8(bytes@),
{
    std::str::from_utf8(bytes).ok().map(|s| s.to_string())
}

/// Whether `c` has the Unicode `White_Space` property: U+0009 to U+000D,
/// U+0020, U+0085, U+00A0, U+1680, U+2000 to U+200A, U+2028, U+2029,
/// U+202F, U+205F and U+3000.
pub open spec fn unicode_white_space(c: char) -> bool {
    let u = c as u32;
    (0x9 <= u <= 0xd) || u == 0x20 || u == 0x85 || u == 0xa0 || u == 0x1680 || (0x2000 <= u <= 0x200a)
        || u == 0x2028 || u == 0x2029 || u == 0x202f || u == 0x205f || u == 0x3000
}

/// Whether `c` is whitespace, that is, has the Unicode `White_Space`
/// property (`unicode_white_space` lists its characters), as
/// `char::is_whitespace` decides.
pub(crate) fn is_whitespace(c: char) -> (b: bool)
    ensures
        b == unicode_white_space(c),
{
    let u = c as u32;
    (0x9 <= u && u <= 0xd) || u == 0x20 || u == 0x85 || u == 0xa0 || u == 0x1680 || (0x2000 <= u && u <= 0x200a)
        || u == 0x2028 || u == 0x2029 || u == 0x202f || u == 0x205f || u == 0x3000
}

/// The characters of `s`.
pub fn str_chars(s: &str) -> (v: Vec<char>)
    ensures
        v@ == s@,
{
    broadcast use vstd::string::group_string_axioms;

    let mut v: Vec<char> = Vec::new();
    for c in it: s.chars()
        invariant
            it.seq() == s@,
            v@ == it.seq().take(it.index() as int),
    {
        assert(it.seq().take(it.index() + 1) =~= it.seq().take(it.index() as int).push(c));
        v.push(c);
    }
    assert(s@.take(s@.len() as int) =~= s@);
    v
}

/// What `str::to_lowercase` gives for `s`: its Unicode lowercase mapping.
pub uninterp spec fn unicode_lowercase(s: Seq<char>) -> Seq<char>;

/// Whether every character of `s` is ASCII.
pub open spec fn all_ascii(s: Seq<char>) -> bool {
    forall|i: int| 0 <= i < s.len() ==> (#[trigger] s[i] as u32) < 128
}

/// The ASCII lowercase of `c`: `A` to `Z` become `a` to `z`, other
/// characters stay.
pub open spec fn ascii_lower(c: char) -> char {
    if 'A' <= c && c <= 'Z' {
        ((c as u32) + 32) as char
    } else {
        c
    }
}

/// The ASCII uppercase of `c`: `a` to `z` become `A` to `Z`, other
/// characters stay.
pub open spec fn ascii_upper(c: char) -> char {
    if 'a' <= c && c <= 'z' {
        ((c as u32) - 32) as char
    } else {
        c
    }
}

/// The lowercase form of text: on ASCII text each letter lowered as ASCII,
/// otherwise the Unicode mapping (which agrees with that on ASCII text).
pub open spec fn lowered(s: Seq<char>) -> Seq<char> {
    if all_ascii(s) {
        s.map_values(|c: char| ascii_lower(c))
    } else {
        unicode_lowercase(s)
    }
}

/// The uppercase form of text: on ASCII text each letter raised as ASCII,
/// otherwise the Unicode mapping (which agrees with that on ASCII text).
pub open spec fn raised(s: Seq<char>) -> Seq<char> {
    if all_ascii(s) {
        s.map_values(|c: char| ascii_upper(c))
    } else {
        unicode_uppercase(s)
    }
}

/// The lowercase form of `s`, as Unicode defines it (named
/// `unicode_lowercase`); on ASCII text each letter is lowered as ASCII and
/// nothing else changes, as the Unicode mappings of ASCII characters are.
/// (Wraps `str::to_lowercase`.)
#[verifier::external_body]
pub(crate) fn to_lowercase(s: &str) -> (r: String)
    ensures
        r@ == unicode_lowercase(s@),
        all_ascii(s@) ==> r@ == s@.map_values(|c: char| ascii_lower(c)),
{
    s.to_lowercase()
}

/// The string of the characters `cs`.
pub fn chars_to_string(cs: &[char]) -> (r: String)
    ensures
        r@ == cs@,
{
    let mut r = String::new();
    let mut i: usize = 0;
    while i < cs.len()
        invariant
            i <= cs.len(),
            r@ == cs@.take(i as int),
        decreases cs.len() - i,
    {
        push_char(&mut r, cs[i]);
        assert(cs@.take(i + 1) =~= cs@.take(i as int).push(cs@[i as int]));
        i = i + 1;
    }
    assert(cs@.take(cs.len() as int) =~= cs@);
    r
}

/// Number of leading whitespace characters.
pub open spec fn leading_ws(s: Seq<char>) -> nat
    decreases s.len(),
{
    if s.len() == 0 {
        0
    } else if unicode_white_space(s[0]) {
        1 + leading_ws(s.drop_first())
    } else {
        0
    }
}

/// Number of trailing whitespace characters.
pub open spec fn trailing_ws(s: Seq<char>) -> nat
    decreases s.len(),
{
    if s.len() == 0 {
        0
    } else if unicode_white_space(s.last()) {
        1 + trailing_ws(s.drop_last())
    } else {
        0
    }
}

/// `s` without leading and trailing whitespace (as `str::trim`).
pub open spec fn trimmed(s: Seq<char>) -> Seq<char> {
    if leading_ws(s) == s.len() {
        Seq::empty()
    } else {
        s.subrange(leading_ws(s) as int, s.len() - trailing_ws(s))
    }
}

proof fn lemma_leading_ws(s: Seq<char>, i: int)
    requires
        0 <= i <= s.len(),
        forall|j: int| 0 <= j < i ==> unicode_white_space(s[j]),
        i < s.len() ==> !unicode_white_space(s[i]),
    ensures
        leading_ws(s) == i,
    decreases s.len(),
{
    if s.len() > 0 && i > 0 {
        assert forall|j: int| 0 <= j < i - 1 implies unicode_white_space(s.drop_first()[j]) by {
            assert(s.drop_first()[j] == s[j + 1]);
        }
        lemma_leading_ws(s.drop_first(), i - 1);
    }
}

proof fn lemma_trailing_ws(s: Seq<char>, k: int)
    requires
        0 <= k <= s.len(),
        forall|j: int| s.len() - k <= j < s.len() ==> unicode_white_space(s[j]),
        k < s.len() ==> !unicode_white_space(s[s.len() - k - 1]),
    ensures
        trailing_ws(s) == k,
    decreases s.len(),
{
    if s.len() > 0 && k > 0 {
        assert forall|j: int| s.drop_last().len() - (k - 1) <= j < s.drop_last().len() implies unicode_white_space(s.drop_last()[j]) by {
            assert(s.drop_last()[j] == s[j]);
        }
        lemma_trailing_ws(s.drop_last(), k - 1);
    }
}

/// `s` without leading and trailing whitespace.
pub fn trim(s: &str) -> (r: String)
    ensures
        r@ == trimmed(s@),
{
    let cs = str_chars(s);
    let n = cs.len();
    let mut a: usize = 0;
    while a < n && is_whitespace(cs[a])
        invariant
            cs@ == s@,
            n == cs.len(),
            a <= n,
            forall|j: int| 0 <= j < a ==> unicode_white_space(cs[j]),
        decreases n - a,
    {
        a = a + 1;
    }
    proof {
        lemma_leading_ws(cs@, a as int);
    }
    let mut r = String::new();
    if a == n {
        return r;
    }
    let mut b: usize = n;
    while b > a && is_whitespace(cs[b - 1])
        invariant
            cs@ == s@,
            n == cs.len(),
            a < n,
            !unicode_white_space(cs[a as int]),
            a <= b <= n,
            forall|j: int| b <= j < n ==> unicode_white_space(cs[j]),
        decreases b,
    {
        b = b - 1;
    }
    proof {
        lemma_trailing_ws(cs@, (n - b) as int);
    }
    let mut i: usize = a;
    while i < b
        invariant
            cs@ == s@,
            a <= i <= b <= n,
            n == cs.len(),
            r@ == cs@.subrange(a as int, i as int),
        decreases b - i,
    {
        push_char(&mut r, cs[i]);
        assert(cs@.subrange(a as int, i + 1) =~= cs@.subrange(a as int, i as int).push(cs[i as int]));
        i = i + 1;
    }
    r
}

/// The part of `s` before its first `-` (all of `s` when it has none).
pub open spec fn before_dash(s: Seq<char>) -> Seq<char>
    decreases s.len(),
{
    if s.len() == 0 {
        s
    } else if before_dash(s.drop_last()).len() < s.len() - 1 {
        before_dash(s.drop_last())
    } else if s.last() == '-' {
        s.drop_last()
    } else {
        s
    }
}

/// The value of a non-empty string of ASCII digits.
pub open spec fn digits_value(s: Seq<char>) -> int
    decreases s.len(),
{
    if s.len() == 0 {
        0
    } else {
        10 * digits_value(s.drop_last()) + (s.last() as int - '0' as int)
    }
}

pub open spec fn is_digit(c: char) -> bool {
    '0' <= c && c <= '9'
}

pub open spec fn all_digits(s: Seq<char>) -> bool {
    forall|i: int| 0 <= i < s.len() ==> is_digit(#[trigger] s[i])
}

/// What `str::parse::<i32>` gives: an optional `+` or `-` sign, then one or
/// more ASCII digits, and a value within `i32`.
pub open spec fn parsed_i32(s: Seq<char>) -> Option<i32> {
    let neg = s.len() > 0 && s[0] == '-';
    let digits = if s.len() > 0 && (s[0] == '+' || s[0] == '-') {
        s.drop_first()
    } else {
        s
    };
    let v = if neg {
        -digits_value(digits)
    } else {
        digits_value(digits)
    };
    if digits.len() > 0 && all_digits(digits) && i32::MIN <= v <= i32::MAX {
        Some(v as i32)
    } else {
        None
    }
}

proof fn lemma_digits_value_grows(s: Seq<char>, k: int)
    requires
        0 <= k <= s.len(),
        all_digits(s),
    ensures
        digits_value(s) >= digits_value(s.subrange(0, k)) >= 0,
    decreases s.len(),
{
    if s.len() > 0 {
        if k == s.len() {
            assert(s.subrange(0, k) =~= s);
            lemma_digits_value_grows(s.drop_last(), k - 1);
        } else {
            assert(s.drop_last().subrange(0, k) =~= s.subrange(0, k));
            lemma_digits_value_grows(s.drop_last(), k);
            assert(is_digit(s.last()));
        }
    }
}

/// Parse a decimal `i32` as `str::parse::<i32>` does.
pub fn parse_i32(s: &[char]) -> (r: Option<i32>)
    ensures
        r == parsed_i32(s@),
{
    let n = s.len();
    let mut start: usize = 0;
    let mut neg = false;
    if n > 0 && (s[0] == '+' || s[0] == '-') {
        start = 1;
        neg = s[0] == '-';
    }
    let ghost digits = s@.subrange(start as int, n as int);
    assert(n > 0 && (s@[0] == '+' || s@[0] == '-') ==> digits =~= s@.drop_first());
    assert(!(n > 0 && (s@[0] == '+' || s@[0] == '-')) ==> digits =~= s@);
    if start == n {
        return None;
    }
    let mut acc: i64 = 0;
    let mut i: usize = start;
    while i < n
        invariant
            n == s@.len(),
            start <= i <= n,
            start < n,
            digits == s@.subrange(start as int, n as int),
            n > 0 && (s@[0] == '+' || s@[0] == '-') ==> digits == s@.drop_first(),
            !(n > 0 && (s@[0] == '+' || s@[0] == '-')) ==> digits == s@,
            neg == (n > 0 && s@[0] == '-'),
            all_digits(s@.subrange(start as int, i as int)),
            acc == digits_value(s@.subrange(start as int, i as int)),
            0 <= acc <= 2147483648,
        decreases n - i,
    {
        let c = s[i];
        if !('0' <= c && c <= '9') {
            proof {
                assert(digits[i - start] == s@[i as int]);
                assert(!is_digit(digits[i - start]));
            }
            return None;
        }
        let d = (c as u32 - '0' as u32) as i64;
        proof {
            assert(s@.subrange(start as int, i + 1).drop_last() =~= s@.subrange(start as int, i as int));
            assert(s@.subrange(start as int, i + 1).last() == c);
            assert forall|j: int| 0 <= j < i + 1 - start implies is_digit(
                #[trigger] s@.subrange(start as int, i + 1)[j],
            ) by {
                if j < i - start {
                    assert(s@.subrange(start as int, i + 1)[j] == s@.subrange(start as int, i as int)[j]);
                }
            }
        }
        let next = 10 * acc + d;
        if next > 2147483648 {
            proof {
                if all_digits(digits) {
                    assert(digits.subrange(0, i + 1 - start) =~= s@.subrange(start as int, i + 1));
                    lemma_digits_value_grows(digits, i + 1 - start);
                }
            }
            return None;
        }
        acc = next;
        i = i + 1;
    }
    assert(s@.subrange(start as int, n as int) =~= digits);
    if neg {
        Some((0 - acc) as i32)
    } else if acc <= 2147483647 {
        Some(acc as i32)
    } else {
        None
    }
}

/// The year of a date value: the `i32` before its first `-`
/// (`1850`, `1850-03-15`, `1850-03-15 00:00:00`).
pub open spec fn year_of(val: Seq<char>) -> Option<i32> {
    parsed_i32(before_dash(val))
}

/// Parse the year of a date value.
pub fn parse_year(val: &str) -> (r: Option<i32>)
    ensures
        r == year_of(val@),
{
    let cs = str_chars(val);
    let mut k: usize = 0;
    while k < cs.len() && cs[k] != '-'
        invariant
            cs@ == val@,
            k <= cs.len(),
            forall|j: int| 0 <= j < k ==> cs[j] != '-',
        decreases cs.len() - k,
    {
        k = k + 1;
    }
    proof {
        lemma_before_dash(cs@, k as int);
    }
    let slice = vstd::slice::slice_subrange(cs.as_slice(), 0, k);
    parse_i32(slice)
}

pub(crate) proof fn lemma_before_dash(s: Seq<char>, k: int)
    requires
        0 <= k <= s.len(),
        forall|j: int| 0 <= j < k ==> s[j] != '-',
        k < s.len() ==> s[k] == '-',
    ensures
        before_dash(s) == s.subrange(0, k),
    decreases s.len(),
{
    if s.len() > 0 {
        if k < s.len() {
            if k < s.len() - 1 {
                lemma_before_dash(s.drop_last(), k);
                assert(s.drop_last().subrange(0, k) =~= s.subrange(0, k));
            } else {
                lemma_before_dash(s.drop_last(), k);
                assert(s.drop_last().subrange(0, k) =~= s.drop_last());
                assert(s.drop_last() =~= s.subrange(0, k));
            }
        } else {
            lemma_before_dash(s.drop_last(), k - 1);
            assert(s.drop_last().subrange(0, k - 1) =~= s.drop_last());
            assert(s.subrange(0, k) =~= s);
        }
    }
}


proof fn lemma_digit_char(d: nat)
    requires
        d < 10,
    ensures
        is_digit(digit_char(d)),
        digit_char(d) as int - '0' as int == d,
{
}

proof fn lemma_decimal_digits(n: nat)
    ensures
        decimal(n).len() >= 1,
        all_digits(decimal(n)),
        digits_value(decimal(n)) == n,
        n >= 10 ==> decimal(n).len() >= 2,
        n >= 100 ==> decimal(n).len() >= 3,
        n >= 1000 ==> decimal(n).len() >= 4,
    decreases n,
{
    if n < 10 {
        lemma_digit_char(n);
        assert(decimal(n).drop_last() =~= Seq::<char>::empty());
        assert(digits_value(decimal(n).drop_last()) == 0);
        assert(decimal(n).last() == digit_char(n));
    } else {
        lemma_decimal_digits(n / 10);
        lemma_digit_char(n % 10);
        let s = decimal(n / 10);
        assert(decimal(n).drop_last() =~= s);
        assert(decimal(n).last() == digit_char(n % 10));
        assert(digits_value(decimal(n)) == 10 * digits_value(s) + (digit_char(n % 10) as int - '0' as int));
        assert(10 * (n / 10) + n % 10 == n);
        assert forall|i: int| 0 <= i < decimal(n).len() implies is_digit(#[trigger] decimal(n)[i]) by {
            if i < s.len() {
                assert(decimal(n)[i] == s[i]);
            }
        }
    }
}

/// Decimal numerals read back: parsing the numeral of `n` gives `n`.
pub proof fn lemma_decimal_parses(n: nat)
    requires
        n <= i32::MAX,
    ensures
        parsed_i32(decimal(n)) == Some(n as i32),
{
    lemma_decimal_digits(n);
    assert(is_digit(decimal(n)[0]));
}

/// The year of a date value that starts with the numeral of `n` followed by
/// `-` (or that is that numeral) is `n`.
pub proof fn lemma_year_of_numeral(n: nat, rest: Seq<char>)
    requires
        n <= i32::MAX,
    ensures
        year_of(decimal(n) + seq!['-'] + rest) == Some(n as i32),
        year_of(decimal(n)) == Some(n as i32),
{
    lemma_decimal_digits(n);
    lemma_decimal_parses(n);
    let d = decimal(n);
    let v = d + seq!['-'] + rest;
    assert forall|j: int| 0 <= j < d.len() implies v[j] != '-' by {
        assert(v[j] == d[j]);
        assert(is_digit(d[j]));
    }
    lemma_before_dash(v, d.len() as int);
    assert(v.subrange(0, d.len() as int) =~= d);
    assert forall|j: int| 0 <= j < d.len() implies d[j] != '-' by {
        assert(is_digit(d[j]));
    }
    lemma_before_dash(d, d.len() as int);
    assert(d.subrange(0, d.len() as int) =~= d);
}

/// Numerals of at least four digits need no padding to width four.
pub proof fn lemma_padded_wide(n: nat)
    requires
        n >= 1000,
    ensures
        zero_padded(n, 4) == decimal(n),
{
    lemma_decimal_digits(n);
}


/// Number of leading characters that are not whitespace.
pub open spec fn word_len(s: Seq<char>) -> nat
    decreases s.len(),
{
    if s.len() == 0 {
        0
    } else if unicode_white_space(s[0]) {
        0
    } else {
        1 + word_len(s.drop_first())
    }
}

/// The first whitespace-separated word of `s`, or `s` itself when it is
/// only whitespace (as `s.split_whitespace().next().unwrap_or(s)`).
pub open spec fn first_word(s: Seq<char>) -> Seq<char> {
    let a = leading_ws(s);
    if a == s.len() {
        s
    } else {
        s.subrange(a as int, (a + word_len(s.subrange(a as int, s.len() as int))) as int)
    }
}

proof fn lemma_word_len(s: Seq<char>, i: int)
    requires
        0 <= i <= s.len(),
        forall|j: int| 0 <= j < i ==> !unicode_white_space(s[j]),
        i < s.len() ==> unicode_white_space(s[i]),
    ensures
        word_len(s) == i,
    decreases s.len(),
{
    if s.len() > 0 && i > 0 {
        assert forall|j: int| 0 <= j < i - 1 implies !unicode_white_space(s.drop_first()[j]) by {
            assert(s.drop_first()[j] == s[j + 1]);
        }
        lemma_word_len(s.drop_first(), i - 1);
    }
}

/// The first whitespace-separated word of `cs`, or all of `cs` when it is
/// only whitespace.
pub fn first_word_of(cs: &[char]) -> (r: Vec<char>)
    ensures
        r@ == first_word(cs@),
{
    let n = cs.len();
    let mut a: usize = 0;
    while a < n && is_whitespace(cs[a])
        invariant
            n == cs.len(),
            a <= n,
            forall|j: int| 0 <= j < a ==> unicode_white_space(cs@[j]),
        decreases n - a,
    {
        a = a + 1;
    }
    proof {
        lemma_leading_ws(cs@, a as int);
    }
    let mut b: usize = a;
    if a < n {
        while b < n && !is_whitespace(cs[b])
            invariant
                n == cs.len(),
                a <= b <= n,
                forall|j: int| a <= j < b ==> !unicode_white_space(cs@[j]),
            decreases n - b,
        {
            b = b + 1;
        }
        proof {
            let t = cs@.subrange(a as int, n as int);
            assert forall|j: int| 0 <= j < b - a implies !unicode_white_space(t[j]) by {
                assert(t[j] == cs@[a + j]);
            }
            if b < n {
                assert(t[b - a] == cs@[b as int]);
            }
            lemma_word_len(t, (b - a) as int);
        }
    } else {
        b = n;
        a = 0;
    }
    let mut r: Vec<char> = Vec::new();
    let mut i: usize = a;
    while i < b
        invariant
            a <= i <= b <= n,
            n == cs.len(),
            r@ == cs@.subrange(a as int, i as int),
        decreases b - i,
    {
        r.push(cs[i]);
        assert(cs@.subrange(a as int, i + 1) =~= cs@.subrange(a as int, i as int).push(cs@[i as int]));
        i = i + 1;
    }
    proof {
        if leading_ws(cs@) == cs@.len() {
            assert(cs@.subrange(0, n as int) =~= cs@);
        }
    }
    r
}


/// What follows the first `-` of `s`, when it has one.
pub open spec fn after_dash(s: Seq<char>) -> Option<Seq<char>> {
    let k = before_dash(s).len() as int;
    if k < s.len() {
        Some(s.subrange(k + 1, s.len() as int))
    } else {
        None
    }
}

/// Split at the first `-`: the part before it, and what follows it when
/// there is one.
pub fn split_at_dash(cs: &[char]) -> (r: (Vec<char>, Option<Vec<char>>))
    ensures
        r.0@ == before_dash(cs@),
        match r.1 {
            Some(t) => after_dash(cs@) == Some(t@),
            None => after_dash(cs@) is None,
        },
{
    let n = cs.len();
    let mut k: usize = 0;
    while k < n && cs[k] != '-'
        invariant
            n == cs.len(),
            k <= n,
            forall|j: int| 0 <= j < k ==> cs@[j] != '-',
        decreases n - k,
    {
        k = k + 1;
    }
    proof {
        lemma_before_dash(cs@, k as int);
    }
    let head = copy_range(cs, 0, k);
    if k < n {
        let tail = copy_range(cs, k + 1, n);
        (head, Some(tail))
    } else {
        (head, None)
    }
}

/// The characters `cs[a..b]`.
pub fn copy_range(cs: &[char], a: usize, b: usize) -> (r: Vec<char>)
    requires
        a <= b <= cs.len(),
    ensures
        r@ == cs@.subrange(a as int, b as int),
{
    let mut r: Vec<char> = Vec::new();
    let mut i: usize = a;
    while i < b
        invariant
            a <= i <= b <= cs.len(),
            r@ == cs@.subrange(a as int, i as int),
        decreases b - i,
    {
        r.push(cs[i]);
        assert(cs@.subrange(a as int, i + 1) =~= cs@.subrange(a as int, i as int).push(cs@[i as int]));
        i = i + 1;
    }
    r
}

/// Whether two character sequences are equal.
pub fn chars_eq(a: &[char], b: &[char]) -> (r: bool)
    ensures
        r == (a@ == b@),
{
    if a.len() != b.len() {
        return false;
    }
    let mut i: usize = 0;
    while i < a.len()
        invariant
            a.len() == b.len(),
            i <= a.len(),
            forall|j: int| 0 <= j < i ==> a@[j] == b@[j],
        decreases a.len() - i,
    {
        if a[i] != b[i] {
            return false;
        }
        i = i + 1;
    }
    assert(a@ =~= b@);
    true
}

/// Text without whitespace is its own trim and its own first word.
/// A plain keyword (lowercase ASCII letters, digits, spaces, `_` and `-`,
/// not starting or ending with a space) reads as itself: trimming and
/// lowering leave it unchanged.
pub proof fn lemma_plain_keyword(s: Seq<char>)
    requires
        s.len() > 0,
        forall|j: int|
            0 <= j < s.len() ==> ('a' <= #[trigger] s[j] <= 'z') || ('0' <= s[j] <= '9') || s[j] == ' ' || s[j]
                == '_' || s[j] == '-',
        s[0] != ' ',
        s[s.len() - 1] != ' ',
    ensures
        trimmed(s) == s,
        lowered(s) == s,
        lowered(trimmed(s)) == s,
{
    lemma_leading_ws(s, 0);
    lemma_trailing_ws(s, 0);
    assert(s.subrange(0, s.len() as int) =~= s);
    assert(all_ascii(s));
    assert(s.map_values(|c: char| ascii_lower(c)) =~= s);
}

/// A plain uppercase keyword (uppercase ASCII letters, not surrounded by
/// spaces) reads as itself: trimming and raising leave it unchanged.
pub proof fn lemma_plain_upper_keyword(s: Seq<char>)
    requires
        s.len() > 0,
        forall|j: int| 0 <= j < s.len() ==> 'A' <= #[trigger] s[j] <= 'Z',
    ensures
        raised(trimmed(s)) == s,
{
    lemma_leading_ws(s, 0);
    lemma_trailing_ws(s, 0);
    assert(s.subrange(0, s.len() as int) =~= s);
    assert(all_ascii(s));
    assert(s.map_values(|c: char| ascii_upper(c)) =~= s);
}

pub proof fn lemma_no_whitespace(s: Seq<char>)
    requires
        s.len() > 0,
        forall|j: int| 0 <= j < s.len() ==> !unicode_white_space(#[trigger] s[j]),
    ensures
        trimmed(s) == s,
        first_word(s) == s,
{
    lemma_leading_ws(s, 0);
    lemma_trailing_ws(s, 0);
    assert(s.subrange(0, s.len() as int) =~= s);
    lemma_word_len(s, s.len() as int);
}

proof fn lemma_digits_value_zeros(k: nat, s: Seq<char>)
    ensures
        digits_value(Seq::new(k, |i: int| '0') + s) == digits_value(s),
    decreases s.len() + k,
{
    let z = Seq::new(k, |i: int| '0');
    if s.len() == 0 {
        assert(z + s =~= z);
        if k > 0 {
            assert(z.drop_last() =~= Seq::new((k - 1) as nat, |i: int| '0'));
            lemma_digits_value_zeros((k - 1) as nat, s);
            assert(Seq::new((k - 1) as nat, |i: int| '0') + s =~= z.drop_last());
        }
    } else {
        lemma_digits_value_zeros(k, s.drop_last());
        assert((z + s).drop_last() =~= z + s.drop_last());
        assert((z + s).last() == s.last());
    }
}

/// Zero-padded numerals read back: parsing the numeral of `n` padded to
/// any width gives `n`; the numeral holds only digits.
pub proof fn lemma_padded_parses(n: nat, width: nat)
    requires
        n <= i32::MAX,
    ensures
        parsed_i32(zero_padded(n, width)) == Some(n as i32),
        all_digits(zero_padded(n, width)),
        zero_padded(n, width).len() > 0,
{
    lemma_decimal_digits(n);
    let d = decimal(n);
    if d.len() < width {
        let k = (width - d.len()) as nat;
        let z = Seq::new(k, |i: int| '0');
        lemma_digits_value_zeros(k, d);
        let p = z + d;
        assert forall|i: int| 0 <= i < p.len() implies is_digit(#[trigger] p[i]) by {
            if i >= k {
                assert(p[i] == d[i - k]);
            }
        }
        assert(is_digit(p[0]));
    } else {
        assert(is_digit(d[0]));
    }
}


/// Whether two strings are equal.
pub fn strings_equal(a: &str, b: &str) -> (r: bool)
    ensures
        r == (a@ == b@),
{
    let x = str_chars(a);
    let y = str_chars(b);
    chars_eq(x.as_slice(), y.as_slice())
}


/// What `str::to_uppercase` gives for `s`: its Unicode uppercase mapping.
pub uninterp spec fn unicode_uppercase(s: Seq<char>) -> Seq<char>;

/// The uppercase form of `s`, as Unicode defines it (named
/// `unicode_uppercase`); on ASCII text each letter is raised as ASCII and
/// nothing else changes, as the Unicode mappings of ASCII characters are.
/// (Wraps `str::to_uppercase`.)
#[verifier::external_body]
pub(crate) fn to_uppercase(s: &str) -> (r: String)
    ensures
        r@ == unicode_uppercase(s@),
        all_ascii(s@) ==> r@ == s@.map_values(|c: char| ascii_upper(c)),
{
    s.to_uppercase()
}

} // verus!
