//! Character-level string operations the rest of the library is built on.

use vstd::prelude::*;

verus! {

/// Whether `s` begins with `p`.
pub open spec fn seq_starts_with(s: Seq<char>, p: Seq<char>) -> bool {
    p.len() <= s.len() && s.subrange(0, p.len() as int) == p
}

/// Whether `s` ends with `p`.
pub open spec fn seq_ends_with(s: Seq<char>, p: Seq<char>) -> bool {
    p.len() <= s.len() && s.subrange(s.len() - p.len(), s.len() as int) == p
}

/// Compares two string slices; std's `==` on `str` compares their bytes, which
/// for valid UTF-8 is the same as comparing their characters.
#[verifier::external_body]
pub(crate) fn str_eq(a: &str, b: &str) -> (r: bool)
    ensures
        r == (a@ == b@),
{
    a == b
}

/// The characters of `s`, in order.
pub fn chars_vec(s: &str) -> (v: Vec<char>)
    ensures
        v@ == s@,
{
    let mut v: Vec<char> = Vec::new();
    for c in it: s.chars()
        invariant
            it.seq() == s@,
            v@ == it.seq().take(it.index() as int),
    {
        v.push(c);
    }
    v
}


/// Appends `c` to `s`; std's `String::push` appends one character at the end.
#[verifier::external_body]
pub(crate) fn push_char(s: &mut String, c: char)
    ensures
        final(s)@ == old(s)@.push(c),
{
    s.push(c)
}

/// The string whose characters are `v`, in order.
pub fn string_from_chars(v: &[char]) -> (s: String)
    ensures
        s@ == v@,
{
    let mut s = String::new();
    let n = v.len();
    for i in 0..n
        invariant
            n == v@.len(),
            s@ == v@.take(i as int),
    {
        push_char(&mut s, v[i]);
        assert(v@.take(i + 1) == v@.take(i as int).push(v@[i as int]));
    }
    assert(v@.take(n as int) == v@);
    s
}

/// An owned copy of `s`.
pub fn owned(s: &str) -> (r: String)
    ensures
        r@ == s@,
{
    String::from_str(s)
}

/// `a` followed by `b`.
pub fn concat2(a: &str, b: &str) -> (r: String)
    ensures
        r@ == a@ + b@,
{
    let mut r = String::from_str(a);
    r.append(b);
    r
}

/// `a`, `b` and `c` one after the other.
pub fn concat3(a: &str, b: &str, c: &str) -> (r: String)
    ensures
        r@ == a@ + b@ + c@,
{
    let mut r = String::from_str(a);
    r.append(b);
    r.append(c);
    r
}

// ---------------------------------------------------------------------------
// Prefixes, suffixes and character classes
// ---------------------------------------------------------------------------

/// Whether `s` begins with `p`.
pub fn starts_with(s: &str, p: &str) -> (r: bool)
    ensures
        r == seq_starts_with(s@, p@),
{
    let n = s.unicode_len();
    let m = p.unicode_len();
    if m > n {
        return false;
    }
    let head = s.substring_char(0, m);
    str_eq(head, p)
}

/// Whether `s` ends with `p`.
pub fn ends_with(s: &str, p: &str) -> (r: bool)
    ensures
        r == seq_ends_with(s@, p@),
{
    let n = s.unicode_len();
    let m = p.unicode_len();
    if m > n {
        return false;
    }
    let tail = s.substring_char(n - m, n);
    str_eq(tail, p)
}

/// The Unicode `White_Space` property, which `char::is_whitespace` tests.
pub open spec fn is_unicode_whitespace(c: char) -> bool {
    let u = c as u32;
    ||| 0x9 <= u <= 0xD
    ||| u == 0x20
    ||| u == 0x85
    ||| u == 0xA0
    ||| u == 0x1680
    ||| 0x2000 <= u <= 0x200A
    ||| u == 0x2028
    ||| u == 0x2029
    ||| u == 0x202F
    ||| u == 0x205F
    ||| u == 0x3000
}

/// Whether `c` is a Unicode white-space character.
pub fn is_whitespace(c: char) -> (r: bool)
    ensures
        r == is_unicode_whitespace(c),
{
    let u = c as u32;
    (0x9 <= u && u <= 0xD) || u == 0x20 || u == 0x85 || u == 0xA0 || u == 0x1680 || (0x2000 <= u
        && u <= 0x200A) || u == 0x2028 || u == 0x2029 || u == 0x202F || u == 0x205F || u == 0x3000
}

/// Whether `c` is one of the square brackets.
pub open spec fn is_square_bracket(c: char) -> bool {
    c == '[' || c == ']'
}

/// `s` without its leading characters that satisfy `p`.
pub open spec fn trim_start_by(s: Seq<char>, p: spec_fn(char) -> bool) -> Seq<char>
    decreases s.len(),
{
    if s.len() > 0 && p(s[0]) {
        trim_start_by(s.drop_first(), p)
    } else {
        s
    }
}

/// `s` without its trailing characters that satisfy `p`.
pub open spec fn trim_end_by(s: Seq<char>, p: spec_fn(char) -> bool) -> Seq<char>
    decreases s.len(),
{
    if s.len() > 0 && p(s.last()) {
        trim_end_by(s.drop_last(), p)
    } else {
        s
    }
}

/// `s` without leading and trailing characters that satisfy `p`.
pub open spec fn trim_by(s: Seq<char>, p: spec_fn(char) -> bool) -> Seq<char> {
    trim_end_by(trim_start_by(s, p), p)
}

/// `s` without leading and trailing white space, as `str::trim` gives it.
pub open spec fn trim_ws(s: Seq<char>) -> Seq<char> {
    trim_by(s, |c: char| is_unicode_whitespace(c))
}

/// `s` without leading and trailing square brackets.
pub open spec fn trim_brackets(s: Seq<char>) -> Seq<char> {
    trim_by(s, |c: char| is_square_bracket(c))
}

proof fn lemma_trim_start_skip(s: Seq<char>, p: spec_fn(char) -> bool, i: int)
    requires
        0 <= i <= s.len(),
        forall|k: int| 0 <= k < i ==> p(#[trigger] s[k]),
    ensures
        trim_start_by(s, p) == trim_start_by(s.subrange(i, s.len() as int), p),
    decreases i,
{
    if i > 0 {
        assert(s.drop_first().subrange(i - 1, s.drop_first().len() as int) == s.subrange(
            i,
            s.len() as int,
        ));
        lemma_trim_start_skip(s.drop_first(), p, i - 1);
    } else {
        assert(s.subrange(0, s.len() as int) == s);
    }
}

proof fn lemma_trim_end_skip(s: Seq<char>, p: spec_fn(char) -> bool, j: int)
    requires
        0 <= j <= s.len(),
        forall|k: int| j <= k < s.len() ==> p(#[trigger] s[k]),
    ensures
        trim_end_by(s, p) == trim_end_by(s.subrange(0, j), p),
    decreases s.len() - j,
{
    if j < s.len() {
        assert(s.drop_last().subrange(0, j) == s.subrange(0, j));
        lemma_trim_end_skip(s.drop_last(), p, j);
    } else {
        assert(s.subrange(0, s.len() as int) == s);
    }
}

/// The character class a trim removes: square brackets, or else white space.
pub open spec fn trim_class(brackets: bool) -> spec_fn(char) -> bool {
    if brackets {
        |c: char| is_square_bracket(c)
    } else {
        |c: char| is_unicode_whitespace(c)
    }
}

fn in_trim_class(c: char, brackets: bool) -> (r: bool)
    ensures
        r == trim_class(brackets)(c),
{
    if brackets {
        c == '[' || c == ']'
    } else {
        is_whitespace(c)
    }
}

fn trim_with(s: &str, brackets: bool) -> (r: String)
    ensures
        r@ == trim_by(s@, trim_class(brackets)),
{
    let cs = chars_vec(s);
    let n = cs.len();
    let ghost p = trim_class(brackets);
    let mut i: usize = 0;
    while i < n && in_trim_class(cs[i], brackets)
        invariant
            n == cs@.len(),
            cs@ == s@,
            i <= n,
            p == trim_class(brackets),
            forall|k: int| 0 <= k < i ==> p(#[trigger] cs@[k]),
        decreases n - i,
    {
        i = i + 1;
    }
    proof {
        lemma_trim_start_skip(s@, p, i as int);
    }
    let ghost rest = s@.subrange(i as int, n as int);
    assert(trim_start_by(rest, p) == rest);
    let mut j: usize = n;
    while j > i && in_trim_class(cs[j - 1], brackets)
        invariant
            n == cs@.len(),
            cs@ == s@,
            i <= j <= n,
            p == trim_class(brackets),
            forall|k: int| j <= k < n ==> p(#[trigger] cs@[k]),
        decreases j - i,
    {
        j = j - 1;
    }
    proof {
        assert forall|k: int| j - i <= k < rest.len() implies p(#[trigger] rest[k]) by {
            assert(rest[k] == cs@[k + i]);
        }
        lemma_trim_end_skip(rest, p, j - i);
        assert(rest.subrange(0, j - i) == s@.subrange(i as int, j as int));
    }
    string_from_chars(&cs.as_slice()[i..j])
}

/// `s` without leading and trailing white space (`str::trim`).
pub fn trim(s: &str) -> (r: String)
    ensures
        r@ == trim_ws(s@),
{
    trim_with(s, false)
}

/// `s` without leading and trailing `[` and `]` (`str::trim_matches(['[', ']'])`).
pub fn trim_square_brackets(s: &str) -> (r: String)
    ensures
        r@ == trim_brackets(s@),
{
    trim_with(s, true)
}

// ---------------------------------------------------------------------------
// Splitting and joining
// ---------------------------------------------------------------------------

/// The pieces of `s` between occurrences of `sep`, as `str::split` yields them:
/// always at least one piece, empty pieces kept.
pub open spec fn split_on(s: Seq<char>, sep: char) -> Seq<Seq<char>>
    decreases s.len(),
{
    if s.len() == 0 {
        seq![Seq::<char>::empty()]
    } else {
        let r = split_on(s.drop_last(), sep);
        if s.last() == sep {
            r.push(Seq::<char>::empty())
        } else {
            r.update(r.len() - 1, r.last().push(s.last()))
        }
    }
}

pub proof fn lemma_split_nonempty(s: Seq<char>, sep: char)
    ensures
        split_on(s, sep).len() >= 1,
    decreases s.len(),
{
    if s.len() > 0 {
        lemma_split_nonempty(s.drop_last(), sep);
    }
}

/// The pieces of `s` between occurrences of `sep`.
pub fn split_char(s: &str, sep: char) -> (r: Vec<String>)
    ensures
        r@.len() == split_on(s@, sep).len(),
        forall|i: int| 0 <= i < r@.len() ==> #[trigger] r@[i]@ == split_on(s@, sep)[i],
{
    let cs = chars_vec(s);
    let n = cs.len();
    let mut done: Vec<String> = Vec::new();
    let mut cur: Vec<char> = Vec::new();
    for i in 0..n
        invariant
            n == cs@.len(),
            cs@ == s@,
            done@.len() + 1 == split_on(s@.take(i as int), sep).len(),
            forall|k: int| 0 <= k < done@.len() ==> #[trigger] done@[k]@ == split_on(
                s@.take(i as int),
                sep,
            )[k],
            cur@ == split_on(s@.take(i as int), sep).last(),
    {
        let c = cs[i];
        proof {
            lemma_split_nonempty(s@.take(i as int), sep);
            assert(s@.take(i + 1).drop_last() == s@.take(i as int));
        }
        if c == sep {
            let piece = string_from_chars(cur.as_slice());
            done.push(piece);
            cur = Vec::new();
        } else {
            cur.push(c);
        }
    }
    assert(s@.take(n as int) == s@);
    let last = string_from_chars(cur.as_slice());
    done.push(last);
    done
}

/// The pieces of `parts` with `sep` between consecutive ones (`[..].join(sep)`).
pub open spec fn joined(parts: Seq<Seq<char>>, sep: Seq<char>) -> Seq<char>
    decreases parts.len(),
{
    if parts.len() == 0 {
        Seq::empty()
    } else if parts.len() == 1 {
        parts[0]
    } else {
        joined(parts.drop_last(), sep) + sep + parts.last()
    }
}

/// The views of the strings of `v`.
pub open spec fn views(v: Seq<String>) -> Seq<Seq<char>> {
    v.map_values(|x: String| x@)
}

/// The strings of `parts` joined by `sep`.
pub fn join(parts: &Vec<String>, sep: &str) -> (r: String)
    ensures
        r@ == joined(views(parts@), sep@),
{
    let mut r = String::new();
    let n = parts.len();
    for i in 0..n
        invariant
            n == parts@.len(),
            r@ == joined(views(parts@.take(i as int)), sep@),
    {
        proof {
            assert(views(parts@.take(i + 1)).drop_last() == views(parts@.take(i as int)));
            assert(views(parts@.take(i + 1)).last() == parts@[i as int]@);
        }
        if i > 0 {
            r.append(sep);
        }
        r.append(parts[i].as_str());
    }
    assert(parts@.take(n as int) == parts@);
    r
}

// ---------------------------------------------------------------------------
// Integers
// ---------------------------------------------------------------------------

/// The decimal digit character for `d < 10`.
pub open spec fn digit_char(d: nat) -> char {
    (48 + d) as char
}

/// The decimal representation of `n`, without leading zeros.
pub open spec fn decimal_digits(n: nat) -> Seq<char>
    decreases n,
{
    if n < 10 {
        seq![digit_char(n)]
    } else {
        decimal_digits(n / 10).push(digit_char(n % 10))
    }
}

/// The decimal representation of `n`, with a `-` in front when it is negative
/// (what `to_string` gives for an integer).
pub open spec fn decimal(n: int) -> Seq<char> {
    if n < 0 {
        seq!['-'] + decimal_digits((-n) as nat)
    } else {
        decimal_digits(n as nat)
    }
}

/// The decimal representation of `n`.
pub fn format_u64(n: u64) -> (s: String)
    ensures
        s@ == decimal_digits(n as nat),
    decreases n,
{
    let d = (n % 10) as u8;
    let c = (d + 48u8) as char;
    assert(c == digit_char((n % 10) as nat));
    if n < 10 {
        let mut s = String::new();
        push_char(&mut s, c);
        assert(s@ == seq![c]);
        s
    } else {
        let mut s = format_u64(n / 10);
        push_char(&mut s, c);
        s
    }
}

/// The decimal representation of `n`, signed.
pub fn format_i64(n: i64) -> (s: String)
    ensures
        s@ == decimal(n as int),
{
    if n < 0 {
        let m = (0i128 - (n as i128)) as u64;
        let digits = format_u64(m);
        proof {
            reveal_strlit("-");
        }
        concat2("-", digits.as_str())
    } else {
        format_u64(n as u64)
    }
}

/// Whether `c` is one of the ASCII digits `0`-`9`.
pub open spec fn is_ascii_digit(c: char) -> bool {
    '0' <= c <= '9'
}

/// The value of a string of decimal digits.
pub open spec fn digits_value(s: Seq<char>) -> nat
    decreases s.len(),
{
    if s.len() == 0 {
        0
    } else {
        digits_value(s.drop_last()) * 10 + (s.last() as int - 48) as nat
    }
}

/// Whether every character of `s` is an ASCII digit.
pub open spec fn all_ascii_digits(s: Seq<char>) -> bool {
    forall|i: int| 0 <= i < s.len() ==> is_ascii_digit(#[trigger] s[i])
}

/// The length of the leading sign of `s` (`+` or `-`), 0 or 1.
pub open spec fn sign_len(s: Seq<char>) -> int {
    if s.len() > 0 && (s[0] == '-' || s[0] == '+') {
        1
    } else {
        0
    }
}

/// The value of `s` read as a signed decimal number.
pub open spec fn signed_value(s: Seq<char>) -> int {
    let magnitude = digits_value(s.skip(sign_len(s))) as int;
    if s.len() > 0 && s[0] == '-' {
        -magnitude
    } else {
        magnitude
    }
}

/// What `str::parse::<i32>` gives: an optional `+` or `-`, then one or more ASCII
/// digits, and a value that fits in an `i32`; `None` for anything else.
pub open spec fn parse_i32_spec(s: Seq<char>) -> Option<i32> {
    let body = s.skip(sign_len(s));
    if body.len() > 0 && all_ascii_digits(body) && i32::MIN <= signed_value(s) <= i32::MAX {
        Some(signed_value(s) as i32)
    } else {
        None
    }
}

proof fn lemma_digits_value_prefix(s: Seq<char>, k: int)
    requires
        0 <= k <= s.len(),
        forall|i: int| 0 <= i < s.len() ==> is_ascii_digit(#[trigger] s[i]),
    ensures
        digits_value(s.take(k)) <= digits_value(s),
    decreases s.len(),
{
    if k < s.len() {
        assert(s.drop_last().take(k) == s.take(k));
        assert forall|i: int| 0 <= i < s.drop_last().len() implies is_ascii_digit(
            #[trigger] s.drop_last()[i],
        ) by {
            assert(s.drop_last()[i] == s[i]);
        }
        lemma_digits_value_prefix(s.drop_last(), k);
    } else {
        assert(s.take(k) == s);
    }
}

/// The decimal digits of `n` are ASCII digits, at least one, and their value is `n`.
proof fn lemma_decimal_digits_value(n: nat)
    ensures
        decimal_digits(n).len() > 0,
        all_ascii_digits(decimal_digits(n)),
        digits_value(decimal_digits(n)) == n,
    decreases n,
{
    if n < 10 {
        let s = decimal_digits(n);
        assert(s.drop_last().len() == 0);
        assert(digits_value(s.drop_last()) == 0);
    } else {
        lemma_decimal_digits_value(n / 10);
        let s = decimal_digits(n);
        assert(s.drop_last() == decimal_digits(n / 10));
        assert forall|i: int| 0 <= i < s.len() implies is_ascii_digit(#[trigger] s[i]) by {
            if i < s.len() - 1 {
                assert(s[i] == decimal_digits(n / 10)[i]);
            }
        }
    }
}

/// The decimal text of an `i32`, as `format_i64` writes it, is read back as that same
/// number by `parse_i32`.
pub proof fn lemma_parse_decimal(n: i32)
    ensures
        parse_i32_spec(decimal(n as int)) == Some(n),
{
    let s = decimal(n as int);
    if n < 0 {
        let d = decimal_digits((-n) as nat);
        lemma_decimal_digits_value((-n) as nat);
        assert(s[0] == '-');
        assert(s.skip(1) == d);
    } else {
        let d = decimal_digits(n as nat);
        lemma_decimal_digits_value(n as nat);
        assert(is_ascii_digit(d[0]));
        assert(s.skip(0) == d);
    }
}

/// Parses `s` as an `i32` the way `str::parse::<i32>` does.
pub fn parse_i32(s: &str) -> (r: Option<i32>)
    ensures
        r == parse_i32_spec(s@),
{
    let cs = chars_vec(s);
    let n = cs.len();
    let signed = n > 0 && (cs[0] == '-' || cs[0] == '+');
    let negative = n > 0 && cs[0] == '-';
    let start: usize = if signed {
        1
    } else {
        0
    };
    let ghost body = s@.skip(sign_len(s@));
    assert(sign_len(s@) == start);
    assert(body == s@.subrange(start as int, n as int));
    if start == n {
        assert(body.len() == 0);
        return None;
    }
    let mut i: usize = start;
    while i < n
        invariant
            n == cs@.len(),
            cs@ == s@,
            start <= i <= n,
            body == s@.subrange(start as int, n as int),
            body == s@.skip(sign_len(s@)),
            forall|k: int| 0 <= k < i - start ==> is_ascii_digit(#[trigger] body[k]),
        decreases n - i,
    {
        let c = cs[i];
        assert(body[i - start] == c);
        if !('0' <= c && c <= '9') {
            assert(!is_ascii_digit(body[i - start]));
            assert(!all_ascii_digits(body));
            assert(body == s@.skip(sign_len(s@)));
            assert(parse_i32_spec(s@) is None);
            return None;
        }
        i = i + 1;
    }
    let mut acc: i64 = 0;
    let mut i: usize = start;
    while i < n
        invariant
            n == cs@.len(),
            cs@ == s@,
            start <= i <= n,
            body == s@.subrange(start as int, n as int),
            body == s@.skip(sign_len(s@)),
            forall|k: int| 0 <= k < body.len() ==> is_ascii_digit(#[trigger] body[k]),
            acc == digits_value(body.take(i - start)),
            acc <= 2147483648,
        decreases n - i,
    {
        let c = cs[i];
        assert(body[i - start] == c);
        assert(is_ascii_digit(body[i - start]));
        let d = (c as u32 - 48) as i64;
        assert(body.take(i - start + 1).drop_last() == body.take(i - start));
        acc = acc * 10 + d;
        i = i + 1;
        assert(body.take(i - start).last() == c);
        assert(acc == digits_value(body.take(i - start)));
        if acc > 2147483648 {
            proof {
                lemma_digits_value_prefix(body, i - start);
                assert(body.take(body.len() as int) == body);
            }
            assert(digits_value(body) > 2147483648);
            assert(signed_value(s@) > 2147483648 || signed_value(s@) < -2147483648);
            assert(parse_i32_spec(s@) is None);
            return None;
        }
    }
    assert(body.take(n - start) == body);
    if negative {
        assert(s@[0] == '-');
        let v = 0 - acc;
        Some(v as i32)
    } else {
        if acc > 2147483647 {
            None
        } else {
            Some(acc as i32)
        }
    }
}

/// The lower-case form of `s` as `str::to_lowercase` gives it (full Unicode case mapping).
pub uninterp spec fn lowercase_of(s: Seq<char>) -> Seq<char>;

/// `str::to_lowercase`; the result depends only on the characters of `s`.
#[verifier::external_body]
pub(crate) fn to_lowercase(s: &str) -> (r: String)
    ensures
        r@ == lowercase_of(s@),
{
    s.to_lowercase()
}

/// The index of the first `c` in `s`, if any.
pub open spec fn first_index_of(s: Seq<char>, c: char) -> Option<int> {
    if exists|i: int| 0 <= i < s.len() && s[i] == c {
        Some(choose|i: int| 0 <= i < s.len() && s[i] == c && forall|k: int| 0 <= k < i ==> s[k] != c)
    } else {
        None
    }
}

/// `s` cut at its first `sep`, as `str::splitn(2, sep)` yields it: the part before, and
/// the part after if `sep` occurs.
pub open spec fn split_once_spec(s: Seq<char>, sep: char) -> (Seq<char>, Option<Seq<char>>) {
    match first_index_of(s, sep) {
        Some(i) => (s.take(i), Some(s.skip(i + 1))),
        None => (s, None),
    }
}

/// Cuts `s` at its first `sep`.
pub fn split_once_char(s: &str, sep: char) -> (r: (String, Option<String>))
    ensures
        r.0@ == split_once_spec(s@, sep).0,
        match r.1 {
            Some(x) => split_once_spec(s@, sep).1 == Some(x@),
            None => split_once_spec(s@, sep).1 is None,
        },
{
    let cs = chars_vec(s);
    let n = cs.len();
    let mut i: usize = 0;
    while i < n && cs[i] != sep
        invariant
            n == cs@.len(),
            cs@ == s@,
            i <= n,
            forall|k: int| 0 <= k < i ==> cs@[k] != sep,
        decreases n - i,
    {
        i = i + 1;
    }
    if i == n {
        assert(!exists|k: int| 0 <= k < s@.len() && s@[k] == sep);
        (owned(s), None)
    } else {
        let ghost w = choose|k: int| 0 <= k < s@.len() && s@[k] == sep && forall|m: int|
            0 <= m < k ==> s@[m] != sep;
        assert(0 <= i < s@.len() && s@[i as int] == sep && forall|m: int|
            0 <= m < i ==> s@[m] != sep);
        assert(w == i);
        let head = string_from_chars(&cs.as_slice()[0..i]);
        let tail = string_from_chars(&cs.as_slice()[i + 1..n]);
        assert(cs@.subrange(0, i as int) == s@.take(i as int));
        assert(cs@.subrange(i + 1, n as int) == s@.skip(i + 1));
        (head, Some(tail))
    }
}

/// A copy of an optional string.
pub fn clone_opt(o: &Option<String>) -> (r: Option<String>)
    ensures
        r == *o,
{
    match o {
        Some(s) => Some(s.clone()),
        None => None,
    }
}

/// Copies of the strings of `v`, in order.
pub fn clone_strings(v: &Vec<String>) -> (r: Vec<String>)
    ensures
        r@ == v@,
{
    let mut r: Vec<String> = Vec::new();
    for i in 0..v.len()
        invariant
            r@ == v@.take(i as int),
    {
        r.push(v[i].clone());
        assert(v@.take(i + 1) == v@.take(i as int).push(v@[i as int]));
    }
    assert(v@.take(v@.len() as int) == v@);
    r
}

/// The view of an optional string.
pub open spec fn opt_view(o: Option<String>) -> Option<Seq<char>> {
    match o {
        Some(s) => Some(s@),
        None => None,
    }
}

/// The text `{:?}` writes for the string `s`: `s` between double quotes, with quotes,
/// backslashes and unprintable characters escaped.
pub uninterp spec fn debug_text_of(s: Seq<char>) -> Seq<char>;

/// `format!("{:?}", s)`; the result depends only on the characters of `s`.
#[verifier::external_body]
pub(crate) fn debug_text(s: &str) -> (r: String)
    ensures
        r@ == debug_text_of(s@),
{
    format!("{:?}", s)
}

} // verus!
