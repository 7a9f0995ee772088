//! Character-level string utilities with exact specifications.

use vstd::prelude::*;
use crate::seqs::lemma_deep_view_push;
use vstd::string::StringSliceAdditionalSpecFns;

verus! {
/// The largest index at most `n` that ends a character of the UTF-8 bytes `b`
/// (0 always does).
pub open spec fn boundary_at_most(b: Seq<u8>, n: nat) -> nat
    decreases n,
{
    if n == 0 || vstd::utf8::is_char_boundary(b, n as int) {
        n
    } else {
        boundary_at_most(b, (n - 1) as nat)
    }
}

/// The largest index at most `n` that ends a character of `s` (see
/// `boundary_at_most`).
pub fn floor_boundary(s: &str, n: usize) -> (r: usize)
    ensures
        r == boundary_at_most(s.spec_bytes(), n as nat),
        r <= n,
        vstd::utf8::is_char_boundary(s.spec_bytes(), r as int),
{
    let mut k = n;
    while k > 0 && !s.is_char_boundary(k)
        invariant
            k <= n,
            boundary_at_most(s.spec_bytes(), n as nat) == boundary_at_most(s.spec_bytes(), k as nat),
        decreases k,
    {
        k = k - 1;
    }
    proof {
        vstd::utf8::encode_utf8_valid_utf8(s@);
        vstd::utf8::is_char_boundary_start_end_of_seq(s.spec_bytes());
    }
    k
}


/// The Unicode `White_Space` property (as listed in PropList.txt),
/// which is what `char::is_whitespace` tests.
pub open spec fn is_white_space(c: char) -> bool {
    ||| ('\u{9}' <= c && c <= '\u{d}')
    ||| c == ' '
    ||| c == '\u{85}'
    ||| c == '\u{a0}'
    ||| c == '\u{1680}'
    ||| ('\u{2000}' <= c && c <= '\u{200a}')
    ||| c == '\u{2028}'
    ||| c == '\u{2029}'
    ||| c == '\u{202f}'
    ||| c == '\u{205f}'
    ||| c == '\u{3000}'
}

/// Decides the Unicode `White_Space` property of a character.
pub fn is_whitespace(c: char) -> (r: bool)
    ensures
        r == is_white_space(c),
{
    ('\u{9}' <= c && c <= '\u{d}') || c == ' ' || c == '\u{85}' || c == '\u{a0}' || c
        == '\u{1680}' || ('\u{2000}' <= c && c <= '\u{200a}') || c == '\u{2028}' || c
        == '\u{2029}' || c == '\u{202f}' || c == '\u{205f}' || c == '\u{3000}'
}

/// Appends one character to a `String` (`String::push`).
#[verifier::external_body]
pub fn push_char(s: &mut String, c: char)
    ensures
        final(s)@ == old(s)@.push(c),
{
    s.push(c);
}

/// Removes the last character of a `String` (`String::pop`): `None` and no
/// change when it is empty.
#[verifier::external_body]
pub fn pop_char(s: &mut String) -> (r: Option<char>)
    ensures
        old(s)@.len() == 0 ==> r is None && final(s)@ == old(s)@,
        old(s)@.len() > 0 ==> r == Some(old(s)@.last()) && final(s)@ == old(s)@.drop_last(),
{
    s.pop()
}

/// The lowercase mapping of a string (`str::to_lowercase`, full Unicode).
pub uninterp spec fn lowercase(s: Seq<char>) -> Seq<char>;

/// The uppercase mapping of a string (`str::to_uppercase`, full Unicode).
pub uninterp spec fn uppercase(s: Seq<char>) -> Seq<char>;

/// `str::to_lowercase`: the result is the named `lowercase(s@)`; the Unicode
/// case mapping itself is not stated here.
#[verifier::external_body]
pub fn to_lowercase(s: &str) -> (r: String)
    ensures
        r@ == lowercase(s@),
{
    s.to_lowercase()
}

/// `str::to_uppercase`: the result is the named `uppercase(s@)`; the Unicode
/// case mapping itself is not stated here.
#[verifier::external_body]
pub fn to_uppercase(s: &str) -> (r: String)
    ensures
        r@ == uppercase(s@),
{
    s.to_uppercase()
}

/// `needle` occurs in `hay` as a contiguous run (`str::contains`).
pub open spec fn contains_spec(hay: Seq<char>, needle: Seq<char>) -> bool {
    exists|i: int| 0 <= i <= hay.len() - needle.len() && #[trigger] hay.subrange(i, i + needle.len()) == needle
}

/// Whether `needle` occurs in `hay`.
pub fn contains(hay: &str, needle: &str) -> (r: bool)
    ensures
        r == contains_spec(hay@, needle@),
{
    let h = chars_of(hay);
    let n = chars_of(needle);
    if n.len() == 0 {
        assert(hay@.subrange(0int, 0int + needle@.len()) =~= needle@);
        return true;
    }
    if n.len() > h.len() {
        return false;
    }
    let mut i: usize = 0;
    while i <= h.len() - n.len()
        invariant
            1 <= n@.len() <= h@.len(),
            i <= h@.len() - n@.len() + 1,
            h@ == hay@,
            n@ == needle@,
            forall|k: int| 0 <= k < i ==> #[trigger] hay@.subrange(k, k + needle@.len()) != needle@,
        decreases h.len() - n.len() + 1 - i,
    {
        let mut j: usize = 0;
        let mut ok = true;
        while j < n.len()
            invariant
                j <= n@.len(),
                i + n@.len() <= h@.len(),
                h@.len() == h.len(),
                n@.len() == n.len(),
                ok ==> forall|t: int| 0 <= t < j ==> h@[i + t] == n@[t],
                !ok ==> h@.subrange(i as int, i + n@.len()) != n@,
            decreases n.len() - j,
        {
            if h[i + j] != n[j] {
                ok = false;
                assert(h@.subrange(i as int, i + n@.len())[j as int] != n@[j as int]);
            }
            j = j + 1;
        }
        if ok {
            assert(h@.subrange(i as int, i + n@.len()) =~= n@);
            return true;
        }
        i = i + 1;
    }
    assert forall|k: int| 0 <= k <= hay@.len() - needle@.len() implies #[trigger] hay@.subrange(k, k + needle@.len()) != needle@ by {
    }
    false
}

/// The characters of a string slice, in order.
pub fn chars_of(s: &str) -> (r: Vec<char>)
    ensures
        r@ == s@,
{
    let mut r: Vec<char> = Vec::new();
    for c in it: s.chars()
        invariant
            it.seq() == s@,
            r@ == s@.take(it.index()),
    {
        r.push(c);
    }
    assert(r@ =~= s@);
    r
}

/// A `String` holding exactly the given characters.
pub fn string_from_chars(v: &Vec<char>) -> (r: String)
    ensures
        r@ == v@,
{
    let mut r = String::new();
    for i in 0..v.len()
        invariant
            r@ == v@.take(i as int),
    {
        push_char(&mut r, v[i]);
        assert(v@.take(i + 1) =~= v@.take(i as int).push(v@[i as int]));
    }
    assert(v@.take(v.len() as int) =~= v@);
    r
}

/// Appends a string slice to a `String`.
pub fn push_str(s: &mut String, t: &str)
    ensures
        final(s)@ == old(s)@ + t@,
{
    let ghost s0 = s@;
    for c in it: t.chars()
        invariant
            it.seq() == t@,
            s@ == s0 + t@.take(it.index()),
    {
        push_char(s, c);
        assert(t@.take(it.index() + 1) =~= t@.take(it.index()).push(c));
    }
    assert(t@.take(t@.len() as int) =~= t@);
}

/// The sequence with its leading white space removed (`str::trim_start`).
pub open spec fn trim_start_spec(s: Seq<char>) -> Seq<char>
    decreases s.len(),
{
    if s.len() > 0 && is_white_space(s[0]) {
        trim_start_spec(s.drop_first())
    } else {
        s
    }
}

/// The sequence with its trailing white space removed (`str::trim_end`).
pub open spec fn trim_end_spec(s: Seq<char>) -> Seq<char>
    decreases s.len(),
{
    if s.len() > 0 && is_white_space(s.last()) {
        trim_end_spec(s.drop_last())
    } else {
        s
    }
}

/// The sequence with leading and trailing white space removed (`str::trim`).
pub open spec fn trim_spec(s: Seq<char>) -> Seq<char> {
    trim_end_spec(trim_start_spec(s))
}

proof fn lemma_trim_start_step(s: Seq<char>, i: int)
    requires
        0 <= i < s.len(),
        is_white_space(s[i]),
    ensures
        trim_start_spec(s.subrange(i, s.len() as int)) == trim_start_spec(
            s.subrange(i + 1, s.len() as int),
        ),
{
    assert(s.subrange(i, s.len() as int).drop_first() =~= s.subrange(i + 1, s.len() as int));
}

proof fn lemma_trim_end_step(s: Seq<char>, j: int)
    requires
        0 < j <= s.len(),
        is_white_space(s[j - 1]),
    ensures
        trim_end_spec(s.subrange(0, j)) == trim_end_spec(s.subrange(0, j - 1)),
{
    assert(s.subrange(0, j).drop_last() =~= s.subrange(0, j - 1));
}

/// Removes leading and trailing white space from a character sequence.
pub fn trim_chars(v: &Vec<char>) -> (r: Vec<char>)
    ensures
        r@ == trim_spec(v@),
{
    let n = v.len();
    let mut i: usize = 0;
    assert(v@.subrange(0, n as int) =~= v@);
    while i < n && is_whitespace(v[i])
        invariant
            i <= n == v.len(),
            trim_start_spec(v@) == trim_start_spec(v@.subrange(i as int, n as int)),
        decreases n - i,
    {
        proof {
            lemma_trim_start_step(v@, i as int);
        }
        i = i + 1;
    }
    let ghost t = v@.subrange(i as int, n as int);
    assert(trim_start_spec(v@) == t);
    let mut j: usize = n;
    assert(t.subrange(0, (j - i) as int) =~= t);
    while j > i && is_whitespace(v[j - 1])
        invariant
            i <= j <= n == v.len(),
            t == v@.subrange(i as int, n as int),
            trim_end_spec(t) == trim_end_spec(t.subrange(0, (j - i) as int)),
        decreases j,
    {
        proof {
            lemma_trim_end_step(t, (j - i) as int);
        }
        j = j - 1;
    }
    assert(trim_end_spec(t) == t.subrange(0, (j - i) as int));
    let mut r: Vec<char> = Vec::new();
    let mut k: usize = i;
    while k < j
        invariant
            i <= k <= j <= n == v.len(),
            r@ == v@.subrange(i as int, k as int),
        decreases j - k,
    {
        r.push(v[k]);
        assert(v@.subrange(i as int, k + 1) =~= v@.subrange(i as int, k as int).push(v@[k as int]));
        k = k + 1;
    }
    assert(r@ =~= t.subrange(0, (j - i) as int));
    r
}

/// Removes leading white space from a character sequence.
pub fn trim_start_chars(v: &Vec<char>) -> (r: Vec<char>)
    ensures
        r@ == trim_start_spec(v@),
{
    let n = v.len();
    let mut i: usize = 0;
    assert(v@.subrange(0, n as int) =~= v@);
    while i < n && is_whitespace(v[i])
        invariant
            i <= n == v.len(),
            trim_start_spec(v@) == trim_start_spec(v@.subrange(i as int, n as int)),
        decreases n - i,
    {
        proof {
            lemma_trim_start_step(v@, i as int);
        }
        i = i + 1;
    }
    let mut r: Vec<char> = Vec::new();
    let mut k: usize = i;
    while k < n
        invariant
            i <= k <= n == v.len(),
            r@ == v@.subrange(i as int, k as int),
        decreases n - k,
    {
        r.push(v[k]);
        assert(v@.subrange(i as int, k + 1) =~= v@.subrange(i as int, k as int).push(v@[k as int]));
        k = k + 1;
    }
    r
}

/// Removes leading and trailing white space (`str::trim`).
pub fn trim(s: &str) -> (r: String)
    ensures
        r@ == trim_spec(s@),
{
    let v = chars_of(s);
    let t = trim_chars(&v);
    string_from_chars(&t)
}

/// Equality of two string slices, character by character.
pub fn str_eq(a: &str, b: &str) -> (r: bool)
    ensures
        r == (a@ == b@),
{
    let va = chars_of(a);
    let vb = chars_of(b);
    vec_chars_eq(&va, &vb)
}

/// Equality of two character vectors.
pub fn vec_chars_eq(va: &Vec<char>, vb: &Vec<char>) -> (r: bool)
    ensures
        r == (va@ == vb@),
{
    if va.len() != vb.len() {
        return false;
    }
    let mut i: usize = 0;
    while i < va.len()
        invariant
            i <= va.len() == vb.len(),
            forall|j: int| 0 <= j < i ==> va@[j] == vb@[j],
        decreases va.len() - i,
    {
        if va[i] != vb[i] {
            return false;
        }
        i = i + 1;
    }
    assert(va@ =~= vb@);
    true
}

/// A `String` equal to the given string slice.
pub fn string_of(s: &str) -> (r: String)
    ensures
        r@ == s@,
{
    let v = chars_of(s);
    string_from_chars(&v)
}

/// The ASCII digit for a value below ten.
pub open spec fn digit_char(d: nat) -> char {
    if d == 0 {
        '0'
    } else if d == 1 {
        '1'
    } else if d == 2 {
        '2'
    } else if d == 3 {
        '3'
    } else if d == 4 {
        '4'
    } else if d == 5 {
        '5'
    } else if d == 6 {
        '6'
    } else if d == 7 {
        '7'
    } else if d == 8 {
        '8'
    } else {
        '9'
    }
}

/// The decimal representation of `n` (as `{}` formats an unsigned integer).
pub open spec fn dec_spec(n: nat) -> Seq<char>
    decreases n,
{
    if n < 10 {
        seq![digit_char(n)]
    } else {
        dec_spec(n / 10).push(digit_char(n % 10))
    }
}

fn digit_of(d: u64) -> (c: char)
    requires
        d < 10,
    ensures
        c == digit_char(d as nat),
{
    if d == 0 {
        '0'
    } else if d == 1 {
        '1'
    } else if d == 2 {
        '2'
    } else if d == 3 {
        '3'
    } else if d == 4 {
        '4'
    } else if d == 5 {
        '5'
    } else if d == 6 {
        '6'
    } else if d == 7 {
        '7'
    } else if d == 8 {
        '8'
    } else {
        '9'
    }
}

/// Appends the decimal representation of `n`.
pub fn push_decimal(s: &mut String, n: u64)
    ensures
        final(s)@ == old(s)@ + dec_spec(n as nat),
    decreases n,
{
    if n < 10 {
        push_char(s, digit_of(n));
        assert(old(s)@.push(digit_char(n as nat)) =~= old(s)@ + seq![digit_char(n as nat)]);
    } else {
        push_decimal(s, n / 10);
        push_char(s, digit_of(n % 10));
        assert(old(s)@ + dec_spec(n as nat) =~= (old(s)@ + dec_spec((n / 10) as nat)).push(
            digit_char((n % 10) as nat),
        ));
    }
}

/// The decimal representation of `n` as a new `String`.
pub fn decimal_string(n: u64) -> (r: String)
    ensures
        r@ == dec_spec(n as nat),
{
    let mut s = String::new();
    push_decimal(&mut s, n);
    assert(Seq::<char>::empty() + dec_spec(n as nat) =~= dec_spec(n as nat));
    s
}

/// How `{}` formats a `bool`.
pub open spec fn bool_str(b: bool) -> Seq<char> {
    if b {
        seq!['t', 'r', 'u', 'e']
    } else {
        seq!['f', 'a', 'l', 's', 'e']
    }
}

/// Appends `true` or `false`.
pub fn push_bool(s: &mut String, b: bool)
    ensures
        final(s)@ == old(s)@ + bool_str(b),
{
    if b {
        push_char(s, 't');
        push_char(s, 'r');
        push_char(s, 'u');
        push_char(s, 'e');
    } else {
        push_char(s, 'f');
        push_char(s, 'a');
        push_char(s, 'l');
        push_char(s, 's');
        push_char(s, 'e');
    }
    assert(final(s)@ =~= old(s)@ + bool_str(b));
}

/// Joining a relative path component onto a path (`PathBuf::join` on Unix):
/// a separator is inserted unless the base is empty or already ends in `/`.
pub open spec fn path_join_spec(base: Seq<char>, comp: Seq<char>) -> Seq<char> {
    if base.len() == 0 {
        comp
    } else if base.last() == '/' {
        base + comp
    } else {
        base + seq!['/'] + comp
    }
}

/// Joins a relative component (one that does not start with `/`) onto a path.
pub fn path_join(base: &str, comp: &str) -> (r: String)
    requires
        comp@.len() > 0,
        comp@[0] != '/',
    ensures
        r@ == path_join_spec(base@, comp@),
{
    let b = chars_of(base);
    let mut r = string_from_chars(&b);
    if b.len() == 0 {
        push_str(&mut r, comp);
        assert(r@ =~= comp@);
    } else if b[b.len() - 1] == '/' {
        push_str(&mut r, comp);
    } else {
        push_char(&mut r, '/');
        push_str(&mut r, comp);
        assert(r@ =~= base@ + seq!['/'] + comp@);
    }
    r
}

/// Scanning `s` left to right for `split(d)`: the finished pieces and the
/// piece under construction.
pub open spec fn split_scan(s: Seq<char>, d: char) -> (Seq<Seq<char>>, Seq<char>)
    decreases s.len(),
{
    if s.len() == 0 {
        (Seq::empty(), Seq::empty())
    } else {
        let (ps, cur) = split_scan(s.drop_last(), d);
        if s.last() == d {
            (ps.push(cur), Seq::empty())
        } else {
            (ps, cur.push(s.last()))
        }
    }
}

/// The pieces of `s` between occurrences of `d` (`str::split(d)`); there is
/// always at least one piece.
pub open spec fn split_spec(s: Seq<char>, d: char) -> Seq<Seq<char>> {
    let (ps, cur) = split_scan(s, d);
    ps.push(cur)
}

/// Splits a character sequence at every occurrence of `d`.
pub fn split_chars(v: &Vec<char>, d: char) -> (r: Vec<Vec<char>>)
    ensures
        r.deep_view() == split_spec(v@, d),
{
    let mut pieces: Vec<Vec<char>> = Vec::new();
    let mut cur: Vec<char> = Vec::new();
    for i in 0..v.len()
        invariant
            (pieces.deep_view(), cur@) == split_scan(v@.take(i as int), d),
    {
        assert(v@.take(i + 1).drop_last() =~= v@.take(i as int));
        if v[i] == d {
            let ghost old_p = pieces;
            let c = cur;
            cur = Vec::new();
            pieces.push(c);
            proof {
                lemma_deep_view_push(old_p, pieces, c);
                assert(c.deep_view() =~= c@);
            }
        } else {
            cur.push(v[i]);
        }
    }
    assert(v@.take(v.len() as int) =~= v@);
    let ghost old_p = pieces;
    let c = cur;
    pieces.push(c);
    proof {
        lemma_deep_view_push(old_p, pieces, c);
        assert(c.deep_view() =~= c@);
    }
    pieces
}

/// The value of a decimal digit character.
pub open spec fn digit_value(c: char) -> nat {
    (c as nat - '0' as nat) as nat
}

/// An ASCII decimal digit.
pub open spec fn is_digit(c: char) -> bool {
    '0' <= c && c <= '9'
}

/// The value of a string of decimal digits.
pub open spec fn digits_value(s: Seq<char>) -> nat
    decreases s.len(),
{
    if s.len() == 0 {
        0
    } else {
        digits_value(s.drop_last()) * 10 + digit_value(s.last())
    }
}

/// The digits part of an unsigned number: the text after an optional leading `+`.
pub open spec fn unsigned_digits(s: Seq<char>) -> Seq<char> {
    if s.len() > 0 && s[0] == '+' {
        s.drop_first()
    } else {
        s
    }
}

/// Every character is an ASCII decimal digit.
pub open spec fn all_digits(d: Seq<char>) -> bool {
    forall|i: int| 0 <= i < d.len() ==> is_digit(#[trigger] d[i])
}

/// `str::parse` for an unsigned integer type whose maximum is `max`: an
/// optional `+`, then one or more decimal digits, with a value up to `max`.
pub open spec fn parse_unsigned_spec(s: Seq<char>, max: nat) -> Option<nat> {
    let d = unsigned_digits(s);
    if d.len() == 0 || !all_digits(d) {
        None
    } else if digits_value(d) <= max {
        Some(digits_value(d))
    } else {
        None
    }
}

proof fn lemma_digits_value_monotone(s: Seq<char>, k: int)
    requires
        0 <= k <= s.len(),
    ensures
        digits_value(s.take(k)) <= digits_value(s),
    decreases s.len() - k,
{
    if k < s.len() {
        lemma_digits_value_monotone(s, k + 1);
        assert(s.take(k + 1).drop_last() =~= s.take(k));
    } else {
        assert(s.take(k) =~= s);
    }
}

/// Parses an unsigned decimal number no greater than `max`.
pub fn parse_unsigned(v: &Vec<char>, max: u64) -> (r: Option<u64>)
    requires
        max < 0x1_0000_0000_0000,
    ensures
        r == match parse_unsigned_spec(v@, max as nat) {
            Some(n) => Some(n as u64),
            None => None::<u64>,
        },
{
    let ghost d = unsigned_digits(v@);
    let start: usize = if v.len() > 0 && v[0] == '+' {
        1
    } else {
        0
    };
    assert(d =~= v@.subrange(start as int, v.len() as int));
    if start >= v.len() {
        assert(d.len() == 0);
        return None;
    }
    let mut acc: u64 = 0;
    let mut too_big = false;
    let mut i = start;
    while i < v.len()
        invariant
            start <= i <= v.len(),
            d == v@.subrange(start as int, v.len() as int),
            d == unsigned_digits(v@),
            max < 0x1_0000_0000_0000,
            !too_big ==> acc == digits_value(d.take(i - start)) && acc <= max,
            too_big ==> digits_value(d.take(i - start)) > max,
            forall|j: int| 0 <= j < i - start ==> is_digit(#[trigger] d[j]),
        decreases v.len() - i,
    {
        let c = v[i];
        if !('0' <= c && c <= '9') {
            assert(!is_digit(d[i - start]));
            assert(!all_digits(d));
            return None;
        }
        assert(d.take(i - start + 1).drop_last() =~= d.take(i - start));
        let dv = (c as u64) - ('0' as u64);
        if !too_big {
            let next = acc * 10 + dv;
            if next > max {
                too_big = true;
            } else {
                acc = next;
            }
        } else {
            assert(digits_value(d.take(i - start + 1)) >= digits_value(d.take(i - start))) by (
            nonlinear_arith)
                requires
                    digits_value(d.take(i - start + 1)) == digits_value(d.take(i - start)) * 10
                        + digit_value(c),
            ;
        }
        i = i + 1;
    }
    assert(d.take(i - start) =~= d);
    if too_big {
        None
    } else {
        Some(acc)
    }
}

/// The pieces joined with `sep` between consecutive pieces (`[..].join(sep)`).
pub open spec fn join_spec(ps: Seq<Seq<char>>, sep: Seq<char>) -> Seq<char>
    decreases ps.len(),
{
    if ps.len() == 0 {
        Seq::empty()
    } else if ps.len() == 1 {
        ps[0]
    } else {
        join_spec(ps.drop_last(), sep) + sep + ps.last()
    }
}

/// `d` does not occur in `s`.
pub open spec fn free_of(s: Seq<char>, d: char) -> bool {
    forall|i: int| 0 <= i < s.len() ==> s[i] != d
}

/// Scanning on past text free of the delimiter only extends the current piece.
pub proof fn lemma_split_scan_append_free(p: Seq<char>, b: Seq<char>, d: char)
    requires
        free_of(b, d),
    ensures
        split_scan(p + b, d) == (split_scan(p, d).0, split_scan(p, d).1 + b),
    decreases b.len(),
{
    if b.len() == 0 {
        assert(p + b =~= p);
        assert(split_scan(p, d).1 + b =~= split_scan(p, d).1);
    } else {
        let b1 = b.drop_last();
        assert(free_of(b1, d)) by {
            assert forall|i: int| 0 <= i < b1.len() implies b1[i] != d by {
                assert(b1[i] == b[i]);
            }
        }
        lemma_split_scan_append_free(p, b1, d);
        assert((p + b).drop_last() =~= p + b1);
        assert((p + b).last() == b.last());
        assert(b[b.len() - 1] != d);
        assert(split_scan(p, d).1 + b1.push(b.last()) =~= split_scan(p, d).1 + b);
        assert(b1.push(b.last()) =~= b);
        assert((split_scan(p, d).1 + b1).push(b.last()) =~= split_scan(p, d).1 + b);
    }
}

/// Text free of the delimiter is one piece.
pub proof fn lemma_split_free(b: Seq<char>, d: char)
    requires
        free_of(b, d),
    ensures
        split_spec(b, d) == seq![b],
{
    lemma_split_scan_append_free(Seq::empty(), b, d);
    assert(Seq::<char>::empty() + b =~= b);
    assert(Seq::<char>::empty() + b =~= b);
}

/// Splitting `a`, the delimiter, then delimiter-free `b`, gives the pieces of
/// `a` and then `b`.
pub proof fn lemma_split_join(a: Seq<char>, b: Seq<char>, d: char)
    requires
        free_of(b, d),
    ensures
        split_spec(a + seq![d] + b, d) == split_spec(a, d).push(b),
{
    let ad = a.push(d);
    assert(a + seq![d] =~= ad);
    assert(ad.drop_last() =~= a);
    assert(split_scan(ad, d) == (split_spec(a, d), Seq::<char>::empty()));
    lemma_split_scan_append_free(ad, b, d);
    assert(Seq::<char>::empty() + b =~= b);
}

/// Text that starts and ends with a non-white-space character is its own trim.
pub proof fn lemma_trim_unchanged(s: Seq<char>)
    requires
        s.len() > 0,
        !is_white_space(s[0]),
        !is_white_space(s.last()),
    ensures
        trim_spec(s) == s,
{
}

/// Every character is a decimal digit.
proof fn lemma_digit_char_props(n: nat)
    requires
        n < 10,
    ensures
        is_digit(digit_char(n)),
        digit_value(digit_char(n)) == n,
        digit_char(n) != '+',
        !is_white_space(digit_char(n)),
        digit_char(n) != ':',
        digit_char(n) != '\n',
{
}

/// The decimal representation: non-empty, all digits, no delimiters or
/// white space, first character not `+`, and of value `n`.
pub proof fn lemma_dec_props(n: nat)
    ensures
        dec_spec(n).len() > 0,
        all_digits(dec_spec(n)),
        digits_value(dec_spec(n)) == n,
        dec_spec(n)[0] != '+',
        !is_white_space(dec_spec(n)[0]),
        !is_white_space(dec_spec(n).last()),
        free_of(dec_spec(n), ':'),
        free_of(dec_spec(n), '\n'),
    decreases n,
{
    if n < 10 {
        lemma_digit_char_props(n);
        assert(dec_spec(n) =~= seq![digit_char(n)]);
        assert(dec_spec(n).drop_last() =~= Seq::<char>::empty());
        assert(digits_value(dec_spec(n)) == digits_value(Seq::<char>::empty()) * 10 + digit_value(digit_char(n)));
    } else {
        lemma_dec_props(n / 10);
        lemma_digit_char_props(n % 10);
        let p = dec_spec(n / 10);
        let s = dec_spec(n);
        assert(s == p.push(digit_char(n % 10)));
        assert(s.drop_last() =~= p);
        assert(s[0] == p[0]);
        assert(digits_value(s) == digits_value(p) * 10 + digit_value(digit_char(n % 10)));
        assert((n / 10) * 10 + n % 10 == n) by (nonlinear_arith);
        assert forall|i: int| 0 <= i < s.len() implies is_digit(#[trigger] s[i]) && s[i] != ':' && s[i] != '\n' by {
            if i < p.len() {
                assert(s[i] == p[i]);
            }
        }
    }
}

/// Parsing the decimal representation of `n` (at most `max`) gives `n` back.
pub proof fn lemma_parse_dec(n: nat, max: nat)
    requires
        n <= max,
    ensures
        parse_unsigned_spec(dec_spec(n), max) == Some(n),
{
    lemma_dec_props(n);
    assert(unsigned_digits(dec_spec(n)) == dec_spec(n));
}


/// Whether a text has no characters.
pub fn text_is_empty(s: &str) -> (r: bool)
    ensures
        r == (s@.len() == 0),
{
    let mut it = s.chars();
    match it.next() {
        Some(_) => false,
        None => true,
    }
}

/// A line without the carriage return that ends it, if any.
pub open spec fn strip_cr(p: Seq<char>) -> Seq<char> {
    if p.len() > 0 && p.last() == '\r' {
        p.drop_last()
    } else {
        p
    }
}

/// The lines of a text (`str::lines`): the pieces between line feeds, each
/// ended by a line feed losing a carriage return before it, and the last
/// piece left out when it is empty.
pub open spec fn std_lines(s: Seq<char>) -> Seq<Seq<char>> {
    let ps = split_spec(s, '\n');
    let n = if ps.last().len() == 0 { ps.len() - 1 } else { ps.len() as int };
    Seq::new(n as nat, |i: int| if i < ps.len() - 1 { strip_cr(ps[i]) } else { ps[i] })
}

/// Splitting gives at least one piece.
proof fn lemma_split_some(s: Seq<char>, d: char)
    ensures
        split_spec(s, d).len() >= 1,
{
}

/// The lines of a text (see `std_lines`).
pub fn text_lines(text: &str) -> (r: Vec<String>)
    ensures
        r.deep_view() == std_lines(text@),
{
    let v = chars_of(text);
    let ps = split_chars(&v, '\n');
    let ghost pv = ps.deep_view();
    proof {
        lemma_split_some(text@, '\n');
    }
    let total = ps.len();
    let mut n = total;
    assert(pv.last() == ps@[total - 1]@);
    if ps[total - 1].len() == 0 {
        n = n - 1;
    }
    let ghost ls = std_lines(text@);
    assert(ls.len() == n);
    let mut out: Vec<String> = Vec::new();
    let mut i: usize = 0;
    while i < n
        invariant
            pv == ps.deep_view(),
            pv == split_spec(text@, '\n'),
            total == ps@.len() == pv.len(),
            ls == std_lines(text@),
            n == ls.len() <= total,
            i <= n,
            out.deep_view() =~= ls.take(i as int),
        decreases n - i,
    {
        assert(pv[i as int] == ps@[i as int]@);
        let p = &ps[i];
        let mut line: Vec<char> = Vec::new();
        let mut k: usize = 0;
        let m = p.len();
        let cut = i + 1 < total && m > 0 && p[m - 1] == '\r';
        let end = if cut { m - 1 } else { m };
        while k < end
            invariant
                k <= end <= m == p@.len(),
                line@ == p@.take(k as int),
            decreases end - k,
        {
            line.push(p[k]);
            assert(p@.take(k + 1) =~= p@.take(k as int).push(p@[k as int]));
            k += 1;
        }
        assert(line@ == ls[i as int]);
        let ghost before = out.deep_view();
        out.push(string_from_chars(&line));
        assert(out.deep_view() =~= before.push(ls[i as int]));
        assert(ls.take(i + 1) =~= ls.take(i as int).push(ls[i as int]));
        i += 1;
    }
    assert(ls.take(n as int) =~= ls);
    out
}

} // verus!
