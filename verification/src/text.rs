//! Character-level string helpers shared by the parsers and formatters.

use vstd::prelude::*;
use vstd::std_specs::iter::IteratorSpec;
use vstd::string::*;

verus! {

broadcast use vstd::string::group_string_axioms;

/// The characters of `s`, in order.
pub fn chars_of(s: &str) -> (v: Vec<char>)
    ensures
        v@ == s@,
{
    let mut v: Vec<char> = Vec::new();
    for c in it: s.chars()
        invariant
            v@ == it.seq().take(it.index() as int),
    {
        v.push(c);
    }
    assert(v@ =~= s@);
    v
}

/// Appends one character to a string.
#[verifier::external_body]
pub(crate) fn push_char(s: &mut String, c: char)
    ensures
        final(s)@ == old(s)@.push(c),
{
    s.push(c);
}

/// A string holding exactly the characters of `v`.
pub fn string_of(v: &Vec<char>) -> (s: String)
    ensures
        s@ == v@,
{
    let mut s = String::new();
    let mut i: usize = 0;
    while i < v.len()
        invariant
            i <= v.len(),
            s@ == v@.take(i as int),
        decreases v.len() - i,
    {
        push_char(&mut s, v[i]);
        assert(v@.take(i + 1) =~= v@.take(i as int).push(v@[i as int]));
        i += 1;
    }
    assert(v@.take(v.len() as int) =~= v@);
    s
}

/// A string holding exactly the characters of `t`.
pub fn string_from(t: &str) -> (s: String)
    ensures
        s@ == t@,
{
    String::from_str(t)
}

/// `a` followed by `b`.
pub fn concat(a: &str, b: &str) -> (s: String)
    ensures
        s@ == a@ + b@,
{
    let mut s = String::from_str(a);
    s.append(b);
    s
}

/// Unicode `White_Space`, the property `char::is_whitespace` reports.
pub open spec fn spec_is_whitespace(c: char) -> bool {
    let u = c as u32;
    ||| 0x09 <= u <= 0x0D
    ||| u == 0x20
    ||| u == 0x85
    ||| u == 0xA0
    ||| u == 0x1680
    ||| 0x2000 <= u <= 0x200A
    ||| u == 0x2028
    ||| u == 0x2029
    ||| u == 0x202F
    ||| u == 0x205F
    ||| u == 0x3000
}

/// Whether `c` is a Unicode whitespace character.
pub fn is_whitespace(c: char) -> (b: bool)
    ensures
        b == spec_is_whitespace(c),
{
    let u = c as u32;
    (0x09 <= u && u <= 0x0D) || u == 0x20 || u == 0x85 || u == 0xA0 || u == 0x1680
        || (0x2000 <= u && u <= 0x200A) || u == 0x2028 || u == 0x2029 || u == 0x202F
        || u == 0x205F || u == 0x3000
}

/// Index of the first non-whitespace character at or after `i`
/// (`s.len()` when there is none).
pub open spec fn skip_ws_forward(s: Seq<char>, i: int) -> int
    decreases s.len() - i,
{
    if i >= s.len() {
        s.len() as int
    } else if spec_is_whitespace(s[i]) {
        skip_ws_forward(s, i + 1)
    } else {
        i
    }
}

/// Walking back from `j`, the end of the last non-whitespace character
/// above `lo` (`lo` when there is none).
pub open spec fn skip_ws_backward(s: Seq<char>, j: int, lo: int) -> int
    decreases j - lo,
{
    if j <= lo {
        lo
    } else if spec_is_whitespace(s[j - 1]) {
        skip_ws_backward(s, j - 1, lo)
    } else {
        j
    }
}

/// `s` with leading and trailing whitespace removed, as `str::trim` does.
pub open spec fn trimmed(s: Seq<char>) -> Seq<char> {
    let i = skip_ws_forward(s, 0);
    s.subrange(i, skip_ws_backward(s, s.len() as int, i))
}

/// The characters of `v` with surrounding whitespace removed.
pub fn trim_chars(v: &Vec<char>) -> (t: Vec<char>)
    ensures
        t@ == trimmed(v@),
{
    let n = v.len();
    let mut i: usize = 0;
    while i < n && is_whitespace(v[i])
        invariant
            i <= n == v@.len(),
            skip_ws_forward(v@, i as int) == skip_ws_forward(v@, 0),
        decreases n - i,
    {
        i += 1;
    }
    let mut j: usize = n;
    while j > i && is_whitespace(v[j - 1])
        invariant
            i <= j <= n == v@.len(),
            i == skip_ws_forward(v@, 0),
            skip_ws_backward(v@, j as int, i as int) == skip_ws_backward(v@, n as int, i as int),
        decreases j - i,
    {
        j -= 1;
    }
    let mut t: Vec<char> = Vec::new();
    let mut k: usize = i;
    while k < j
        invariant
            i <= k <= j <= n == v@.len(),
            t@ == v@.subrange(i as int, k as int),
        decreases j - k,
    {
        t.push(v[k]);
        assert(v@.subrange(i as int, k + 1) =~= v@.subrange(i as int, k as int).push(v@[k as int]));
        k += 1;
    }
    t
}

/// `s` with surrounding whitespace removed.
pub fn trim(s: &str) -> (t: String)
    ensures
        t@ == trimmed(s@),
{
    let v = chars_of(s);
    let t = trim_chars(&v);
    string_of(&t)
}

/// ASCII lowercase of one character; other characters are unchanged.
pub open spec fn ascii_lower(c: char) -> char {
    if 'A' <= c && c <= 'Z' { ((c as u32) + 32) as char } else { c }
}

/// ASCII uppercase of one character; other characters are unchanged.
pub open spec fn ascii_upper(c: char) -> char {
    if 'a' <= c && c <= 'z' { ((c as u32) - 32) as char } else { c }
}

/// Every character of `s` is ASCII.
pub open spec fn all_ascii(s: Seq<char>) -> bool {
    forall|i: int| 0 <= i < s.len() ==> (s[i] as u32) < 128
}

pub fn to_ascii_lower_char(c: char) -> (d: char)
    ensures
        d == ascii_lower(c),
{
    if 'A' <= c && c <= 'Z' {
        let u = (c as u32) + 32;
        assert(u < 128);
        char_from_ascii(u)
    } else {
        c
    }
}

pub fn to_ascii_upper_char(c: char) -> (d: char)
    ensures
        d == ascii_upper(c),
{
    if 'a' <= c && c <= 'z' {
        let u = (c as u32) - 32;
        char_from_ascii(u)
    } else {
        c
    }
}

fn char_from_ascii(u: u32) -> (c: char)
    requires
        u < 128,
    ensures
        c == u as char,
{
    let b = u as u8;
    b as char
}

/// `s` with every ASCII letter lowercased, as `str::to_ascii_lowercase` does.
pub fn ascii_lowercase(s: &Vec<char>) -> (t: Vec<char>)
    ensures
        t@ == s@.map_values(|c: char| ascii_lower(c)),
{
    let mut t: Vec<char> = Vec::new();
    let mut i: usize = 0;
    while i < s.len()
        invariant
            i <= s.len(),
            t@ == s@.take(i as int).map_values(|c: char| ascii_lower(c)),
        decreases s.len() - i,
    {
        let d = to_ascii_lower_char(s[i]);
        t.push(d);
        assert(s@.take(i + 1).map_values(|c: char| ascii_lower(c)) =~= s@.take(i as int).map_values(
            |c: char| ascii_lower(c),
        ).push(d));
        i += 1;
    }
    assert(s@.take(s.len() as int) =~= s@);
    t
}

/// Whether `a` and `b` are equal when ASCII letters are compared without
/// regard to case, as `str::eq_ignore_ascii_case` does.
pub open spec fn eq_ignore_ascii_case(a: Seq<char>, b: Seq<char>) -> bool {
    a.len() == b.len() && forall|i: int| 0 <= i < a.len() ==> ascii_lower(a[i]) == ascii_lower(b[i])
}

pub fn chars_eq_ignore_ascii_case(a: &Vec<char>, b: &str) -> (r: bool)
    ensures
        r == eq_ignore_ascii_case(a@, b@),
{
    let bv = chars_of(b);
    if a.len() != bv.len() {
        return false;
    }
    let mut i: usize = 0;
    while i < a.len()
        invariant
            i <= a.len() == bv@.len(),
            bv@ == b@,
            forall|k: int| 0 <= k < i ==> ascii_lower(a@[k]) == ascii_lower(bv@[k]),
        decreases a.len() - i,
    {
        let x = to_ascii_lower_char(a[i]);
        let y = to_ascii_lower_char(bv[i]);
        if x != y {
            return false;
        }
        i += 1;
    }
    true
}

/// Whether two character sequences are equal.
pub fn chars_eq(a: &Vec<char>, b: &Vec<char>) -> (r: bool)
    ensures
        r == (a@ == b@),
{
    if a.len() != b.len() {
        return false;
    }
    let mut i: usize = 0;
    while i < a.len()
        invariant
            i <= a.len() == b@.len(),
            forall|k: int| 0 <= k < i ==> a@[k] == b@[k],
        decreases a.len() - i,
    {
        if a[i] != b[i] {
            return false;
        }
        i += 1;
    }
    assert(a@ =~= b@);
    true
}

/// Whether `s` equals the literal `t`.
pub fn str_eq(s: &str, t: &str) -> (r: bool)
    ensures
        r == (s@ == t@),
{
    let a = chars_of(s);
    let b = chars_of(t);
    chars_eq(&a, &b)
}

/// Whether `needle` occurs in `hay` starting at index `i`.
pub open spec fn occurs_at(hay: Seq<char>, needle: Seq<char>, i: int) -> bool {
    0 <= i && i + needle.len() <= hay.len() && hay.subrange(i, i + needle.len()) == needle
}

/// Whether `needle` occurs anywhere in `hay`, as `str::contains` reports.
pub open spec fn contains_seq(hay: Seq<char>, needle: Seq<char>) -> bool {
    exists|i: int| occurs_at(hay, needle, i)
}

/// Whether `hay` starts with `needle`.
pub open spec fn starts_with(hay: Seq<char>, needle: Seq<char>) -> bool {
    occurs_at(hay, needle, 0)
}

fn occurs_at_exec(hay: &Vec<char>, needle: &Vec<char>, i: usize) -> (r: bool)
    requires
        i + needle.len() <= hay.len(),
    ensures
        r == occurs_at(hay@, needle@, i as int),
{
    let mut k: usize = 0;
    while k < needle.len()
        invariant
            k <= needle.len(),
            i + needle.len() <= hay.len(),
            forall|m: int| 0 <= m < k ==> hay@[i + m] == needle@[m],
        decreases needle.len() - k,
    {
        if hay[i + k] != needle[k] {
            assert(hay@.subrange(i as int, i + needle.len())[k as int] != needle@[k as int]);
            return false;
        }
        k += 1;
    }
    assert(hay@.subrange(i as int, i + needle.len()) =~= needle@);
    true
}

/// Whether `needle` occurs in `hay`.
pub fn contains(hay: &str, needle: &str) -> (r: bool)
    ensures
        r == contains_seq(hay@, needle@),
{
    let h = chars_of(hay);
    let n = chars_of(needle);
    if n.len() > h.len() {
        assert forall|i: int| !occurs_at(hay@, needle@, i) by {}
        return false;
    }
    let last = h.len() - n.len();
    let mut i: usize = 0;
    loop
        invariant
            h@ == hay@,
            n@ == needle@,
            n.len() <= h.len(),
            last == h.len() - n.len(),
            i <= last,
            forall|k: int| 0 <= k < i ==> !occurs_at(hay@, needle@, k),
        decreases last - i,
    {
        if occurs_at_exec(&h, &n, i) {
            return true;
        }
        if i == last {
            assert forall|k: int| !occurs_at(hay@, needle@, k) by {
                if 0 <= k && k + needle@.len() <= hay@.len() {
                    assert(k <= i);
                }
            }
            return false;
        }
        i += 1;
    }
}

/// Whether `hay` starts with `needle`.
pub fn has_prefix(hay: &str, needle: &str) -> (r: bool)
    ensures
        r == starts_with(hay@, needle@),
{
    let h = chars_of(hay);
    let n = chars_of(needle);
    if n.len() > h.len() {
        return false;
    }
    occurs_at_exec(&h, &n, 0)
}

/// What `str::to_lowercase` returns for a string with these characters.
pub uninterp spec fn unicode_lowercase(s: Seq<char>) -> Seq<char>;

/// What `str::to_uppercase` returns for a string with these characters.
pub uninterp spec fn unicode_uppercase(s: Seq<char>) -> Seq<char>;

/// Lowercase as `str::to_lowercase` gives it: ASCII text maps letter by
/// letter; other text is left to Unicode's case mapping.
pub open spec fn lowercase_of(s: Seq<char>) -> Seq<char> {
    if all_ascii(s) {
        s.map_values(|c: char| ascii_lower(c))
    } else {
        unicode_lowercase(s)
    }
}

/// Calls `str::to_lowercase`. The contract names the result; on ASCII text
/// it is the ASCII lowercase, letter by letter, as the Unicode mapping of
/// ASCII letters is (`str::to_ascii_lowercase` documents the same mapping
/// for ASCII).
#[verifier::external_body]
pub(crate) fn to_lowercase(s: &str) -> (r: String)
    ensures
        r@ == unicode_lowercase(s@),
        all_ascii(s@) ==> r@ == s@.map_values(|c: char| ascii_lower(c)),
{
    s.to_lowercase()
}

/// Uppercase as `str::to_uppercase` gives it: ASCII text maps letter by
/// letter; other text is left to Unicode's case mapping.
pub open spec fn uppercase_of(s: Seq<char>) -> Seq<char> {
    if all_ascii(s) {
        s.map_values(|c: char| ascii_upper(c))
    } else {
        unicode_uppercase(s)
    }
}

/// Calls `str::to_uppercase`. The contract names the result; on ASCII text
/// it is the ASCII uppercase, letter by letter, as the Unicode mapping of
/// ASCII letters is (`str::to_ascii_uppercase` documents the same mapping
/// for ASCII).
#[verifier::external_body]
pub(crate) fn to_uppercase(s: &str) -> (r: String)
    ensures
        r@ == unicode_uppercase(s@),
        all_ascii(s@) ==> r@ == s@.map_values(|c: char| ascii_upper(c)),
{
    s.to_uppercase()
}

/// The pieces of `s` between occurrences of `sep`, as `str::split` yields
/// them for a single-character pattern (always at least one piece).
pub open spec fn split_on(s: Seq<char>, sep: char) -> Seq<Seq<char>>
    decreases s.len(),
{
    if s.len() == 0 {
        seq![Seq::<char>::empty()]
    } else {
        let rest = split_on(s.drop_last(), sep);
        if s.last() == sep {
            rest.push(Seq::<char>::empty())
        } else {
            rest.update(rest.len() - 1, rest.last().push(s.last()))
        }
    }
}

pub proof fn lemma_split_nonempty(s: Seq<char>, sep: char)
    ensures
        split_on(s, sep).len() >= 1,
    decreases s.len(),
{
    if s.len() > 0 {
        lemma_split_nonempty(s.drop_last(), sep);
    }
}

/// The pieces of `s` between occurrences of `sep`.
pub fn split_chars(s: &Vec<char>, sep: char) -> (parts: Vec<Vec<char>>)
    ensures
        parts.len() == split_on(s@, sep).len(),
        forall|k: int| 0 <= k < parts.len() ==> #[trigger] parts[k]@ == split_on(s@, sep)[k],
{
    let mut done: Vec<Vec<char>> = Vec::new();
    let mut current: Vec<char> = Vec::new();
    let mut i: usize = 0;
    while i < s.len()
        invariant
            i <= s.len(),
            done.len() + 1 == split_on(s@.take(i as int), sep).len(),
            forall|k: int| 0 <= k < done.len() ==> #[trigger] done[k]@ == split_on(s@.take(i as int), sep)[k],
            current@ == split_on(s@.take(i as int), sep).last(),
        decreases s.len() - i,
    {
        let ghost prev = split_on(s@.take(i as int), sep);
        proof {
            lemma_split_nonempty(s@.take(i as int), sep);
            assert(s@.take(i + 1).drop_last() =~= s@.take(i as int));
        }
        let c = s[i];
        if c == sep {
            let finished = current;
            done.push(finished);
            current = Vec::new();
            assert(split_on(s@.take(i + 1), sep) == prev.push(Seq::<char>::empty()));
        } else {
            current.push(c);
            assert(split_on(s@.take(i + 1), sep) == prev.update(prev.len() - 1, prev.last().push(c)));
        }
        i += 1;
    }
    assert(s@.take(s.len() as int) =~= s@);
    done.push(current);
    done
}

/// The characters of `s` before the first occurrence of `a` or `b`, which is
/// the first piece `str::split` yields for the pattern `[a, b]`.
pub open spec fn first_field(s: Seq<char>, a: char, b: char) -> Seq<char>
    decreases s.len(),
{
    if s.len() == 0 || s[0] == a || s[0] == b {
        Seq::<char>::empty()
    } else {
        seq![s[0]] + first_field(s.drop_first(), a, b)
    }
}

/// The characters of `s` before the first occurrence of `a` or `b`.
pub fn first_field_chars(s: &Vec<char>, a: char, b: char) -> (f: Vec<char>)
    ensures
        f@ == first_field(s@, a, b),
{
    let mut f: Vec<char> = Vec::new();
    let mut i: usize = 0;
    assert(s@.skip(0) =~= s@);
    assert(f@ + first_field(s@, a, b) =~= first_field(s@, a, b));
    while i < s.len() && s[i] != a && s[i] != b
        invariant
            i <= s.len(),
            f@ + first_field(s@.skip(i as int), a, b) == first_field(s@, a, b),
        decreases s.len() - i,
    {
        let c = s[i];
        f.push(c);
        proof {
            let rest = s@.skip(i as int);
            assert(rest.drop_first() =~= s@.skip(i + 1));
            assert(first_field(rest, a, b) == seq![c] + first_field(rest.drop_first(), a, b));
            assert(f@ + first_field(s@.skip(i + 1), a, b) =~= (f@.drop_last() + seq![c]) + first_field(
                rest.drop_first(),
                a,
                b,
            ));
        }
        i += 1;
    }
    assert(first_field(s@.skip(i as int), a, b) == Seq::<char>::empty());
    assert(f@ =~= f@ + Seq::<char>::empty());
    f
}

/// The decimal digits of a natural number, most significant first.
pub open spec fn decimal_digits(n: nat) -> Seq<char>
    decreases n,
{
    if n < 10 {
        seq![((48 + n) as u8) as char]
    } else {
        decimal_digits(n / 10).push(((48 + n % 10) as u8) as char)
    }
}

/// An integer in decimal, with a leading `-` when negative, as `Display`
/// writes integers.
pub open spec fn decimal(n: int) -> Seq<char> {
    if n < 0 {
        seq!['-'] + decimal_digits((-n) as nat)
    } else {
        decimal_digits(n as nat)
    }
}

fn digits_of(n: u64) -> (v: Vec<char>)
    ensures
        v@ == decimal_digits(n as nat),
    decreases n,
{
    if n < 10 {
        let c = ((48 + n) as u8) as char;
        let mut v: Vec<char> = Vec::new();
        v.push(c);
        assert(v@ =~= seq![c]);
        v
    } else {
        let mut v = digits_of(n / 10);
        let c = ((48 + n % 10) as u8) as char;
        v.push(c);
        v
    }
}

/// An integer in decimal.
pub fn i64_to_decimal(n: i64) -> (s: String)
    ensures
        s@ == decimal(n as int),
{
    if n < 0 {
        let magnitude: u64 = if n == i64::MIN { 9_223_372_036_854_775_808u64 } else { (-n) as u64 };
        let digits = digits_of(magnitude);
        let mut s = String::new();
        push_char(&mut s, '-');
        let rest = string_of(&digits);
        s.append(rest.as_str());
        assert(s@ =~= seq!['-'] + decimal_digits((-(n as int)) as nat));
        s
    } else {
        let digits = digits_of(n as u64);
        string_of(&digits)
    }
}

} // verus!
