//! Text as sequences of characters: the operations that the rest of the
//! crate needs, each with the sequence that it yields.
use vstd::prelude::*;
use vstd::slice::slice_subrange;
use vstd::string::{StringExecFns, StringSliceAdditionalSpecFns};
use vstd::utf8::*;

verus! {

/// `String::push` appends the given character to the end of the string.
pub assume_specification[ String::push ](s: &mut String, c: char)
    ensures
        final(s)@ == old(s)@.push(c),
;

/// The Unicode `White_Space` property.
pub open spec fn white_space(c: char) -> bool {
    ||| '\u{9}' <= c <= '\u{d}'
    ||| c == '\u{20}' || c == '\u{85}' || c == '\u{a0}' || c == '\u{1680}'
    ||| '\u{2000}' <= c <= '\u{200a}'
    ||| c == '\u{2028}' || c == '\u{2029}' || c == '\u{202f}' || c == '\u{205f}' || c == '\u{3000}'
}

/// Whether `c` is white space.
pub fn is_white_space(c: char) -> (r: bool)
    ensures
        r == white_space(c),
{
    ('\u{9}' <= c && c <= '\u{d}') || c == '\u{20}' || c == '\u{85}' || c == '\u{a0}'
        || c == '\u{1680}' || ('\u{2000}' <= c && c <= '\u{200a}') || c == '\u{2028}'
        || c == '\u{2029}' || c == '\u{202f}' || c == '\u{205f}' || c == '\u{3000}'
}

/// The characters of `s`, in order.
pub fn chars_of(s: &str) -> (r: Vec<char>)
    ensures
        r@ == s@,
{
    let mut r: Vec<char> = Vec::new();
    for c in it: s.chars()
        invariant
            r@ == it.seq().take(it.index() as int),
            it.seq() == s@,
    {
        r.push(c);
    }
    r
}

/// The text made of the given characters.
pub fn text_of(chars: &[char]) -> (r: String)
    ensures
        r@ == chars@,
{
    let mut r = String::new();
    for i in 0..chars.len()
        invariant
            r@ == chars@.take(i as int),
    {
        r.push(chars[i]);
    }
    r
}

/// Whether two texts hold the same characters.
pub fn same_text(a: &str, b: &str) -> (r: bool)
    ensures
        r == (a@ == b@),
{
    let x = a.as_bytes();
    let y = b.as_bytes();
    if x.len() != y.len() {
        return false;
    }
    for i in 0..x.len()
        invariant
            x@ == a.spec_bytes(),
            y@ == b.spec_bytes(),
            x@.len() == y@.len(),
            x@.take(i as int) == y@.take(i as int),
    {
        if x[i] != y[i] {
            return false;
        }
        assert(x@.take(i + 1) == x@.take(i as int).push(x@[i as int]));
        assert(y@.take(i + 1) == y@.take(i as int).push(y@[i as int]));
    }
    proof {
        assert(x@ == x@.take(x@.len() as int));
        assert(y@ == y@.take(x@.len() as int));
        encode_utf8_decode_utf8(a@);
        encode_utf8_decode_utf8(b@);
    }
    true
}

/// The number of bytes of a text in UTF-8.
pub open spec fn utf8_len(s: Seq<char>) -> nat {
    encode_utf8(s).len()
}

/// The bytes of two texts, one after the other, are their bytes one after the
/// other.
pub proof fn lemma_encode_concat(a: Seq<char>, b: Seq<char>)
    ensures
        encode_utf8(a + b) == encode_utf8(a) + encode_utf8(b),
        utf8_len(a + b) == utf8_len(a) + utf8_len(b),
    decreases a.len(),
{
    if a.len() == 0 {
        assert(a + b == b);
    } else {
        assert((a + b).drop_first() == a.drop_first() + b);
        lemma_encode_concat(a.drop_first(), b);
    }
}

/// The number of bytes that `s` takes.
pub fn byte_len(s: &str) -> (r: usize)
    ensures
        r == utf8_len(s@),
{
    s.as_bytes().len()
}

/// `s` without its leading white space.
pub open spec fn trimmed_start(s: Seq<char>) -> Seq<char>
    decreases s.len(),
{
    if s.len() > 0 && white_space(s[0]) {
        trimmed_start(s.drop_first())
    } else {
        s
    }
}

/// `s` without its trailing white space.
pub open spec fn trimmed_end(s: Seq<char>) -> Seq<char>
    decreases s.len(),
{
    if s.len() > 0 && white_space(s.last()) {
        trimmed_end(s.drop_last())
    } else {
        s
    }
}

/// `s` without white space at either end.
pub open spec fn trimmed(s: Seq<char>) -> Seq<char> {
    trimmed_end(trimmed_start(s))
}

/// A text that neither begins nor ends with white space is trimmed as it is.
pub proof fn lemma_nothing_to_trim(s: Seq<char>)
    requires
        s.len() > 0 ==> !white_space(s[0]) && !white_space(s.last()),
    ensures
        trimmed(s) == s,
{
}

/// A text that begins with something else than white space is not blank.
pub proof fn lemma_not_blank(s: Seq<char>)
    requires
        s.len() > 0,
        !white_space(s[0]),
    ensures
        trimmed(s).len() > 0,
    decreases s.len(),
{
    if s.len() > 1 && white_space(s.last()) {
        lemma_not_blank(s.drop_last());
    }
}

/// The part of `chars` that `trimmed` keeps.
pub fn trim_chars(chars: &[char]) -> (r: &[char])
    ensures
        r@ == trimmed(chars@),
{
    let n: usize = chars.len();
    let mut start: usize = 0;
    assert(chars@.skip(0) == chars@);
    while start < n && is_white_space(chars[start])
        invariant
            start <= n == chars@.len(),
            trimmed_start(chars@) == trimmed_start(chars@.skip(start as int)),
        decreases n - start,
    {
        assert(chars@.skip(start as int).drop_first() == chars@.skip(start + 1));
        start = start + 1;
    }
    let mut end: usize = n;
    assert(chars@.skip(start as int) == chars@.subrange(start as int, end as int));
    assert(trimmed_start(chars@) == chars@.subrange(start as int, n as int));
    while end > start && is_white_space(chars[end - 1])
        invariant
            start <= end <= n == chars@.len(),
            trimmed(chars@) == trimmed_end(chars@.subrange(start as int, end as int)),
        decreases end,
    {
        assert(chars@.subrange(start as int, end as int).drop_last() == chars@.subrange(
            start as int,
            end - 1,
        ));
        end = end - 1;
    }
    slice_subrange(chars, start, end)
}

/// `s` without white space at either end.
pub fn trim(s: &str) -> (r: String)
    ensures
        r@ == trimmed(s@),
{
    let chars = chars_of(s);
    text_of(trim_chars(&chars))
}

/// Whether `s` holds nothing but white space.
pub fn is_blank(s: &str) -> (r: bool)
    ensures
        r == (trimmed(s@).len() == 0),
{
    let chars = chars_of(s);
    trim_chars(&chars).len() == 0
}

/// Whether `s` begins with `prefix`.
pub fn starts_with(s: &[char], prefix: &[char]) -> (r: bool)
    ensures
        r == prefix@.is_prefix_of(s@),
{
    occurs_at(s, 0, prefix)
}

/// Whether `part` occurs in `s` at the index `at`.
fn occurs_at(s: &[char], at: usize, part: &[char]) -> (r: bool)
    requires
        at <= s@.len(),
    ensures
        r == (part@.len() <= s@.len() - at && s@.subrange(at as int, at + part@.len()) == part@),
{
    let n: usize = s.len();
    if part.len() > n - at {
        return false;
    }
    for i in 0..part.len()
        invariant
            at <= s@.len() == n,
            part@.len() <= s@.len() - at,
            forall|j: int| 0 <= j < i ==> s@[at + j] == part@[j],
    {
        if s[at + i] != part[i] {
            assert(s@.subrange(at as int, at + part@.len())[i as int] != part@[i as int]);
            return false;
        }
    }
    assert(s@.subrange(at as int, at + part@.len()) == part@);
    true
}

/// Whether `part` occurs in `s`, as consecutive characters.
pub open spec fn has_part(s: Seq<char>, part: Seq<char>) -> bool {
    exists|i: int|
        0 <= i && i + part.len() <= s.len() && #[trigger] s.subrange(i, i + part.len()) == part
}

/// Whether `part` occurs in `s`.
pub fn contains_part(s: &[char], part: &[char]) -> (r: bool)
    ensures
        r == has_part(s@, part@),
{
    let mut at: usize = 0;
    while at < s.len()
        invariant
            at <= s@.len(),
            forall|i: int|
                0 <= i < at && i + part@.len() <= s@.len() ==> #[trigger] s@.subrange(
                    i,
                    i + part@.len(),
                ) != part@,
        decreases s@.len() - at,
    {
        if occurs_at(s, at, part) {
            return true;
        }
        at = at + 1;
    }
    occurs_at(s, at, part)
}

/// `s` without the copies of `c` at its end.
pub open spec fn without_trailing(s: Seq<char>, c: char) -> Seq<char>
    decreases s.len(),
{
    if s.len() > 0 && s.last() == c {
        without_trailing(s.drop_last(), c)
    } else {
        s
    }
}

/// `s` without the copies of `c` at its end.
pub fn trim_trailing(s: &str, c: char) -> (r: String)
    ensures
        r@ == without_trailing(s@, c),
{
    let chars = chars_of(s);
    let mut end: usize = chars.len();
    assert(chars@.take(end as int) == chars@);
    while end > 0 && chars[end - 1] == c
        invariant
            end <= chars@.len(),
            without_trailing(s@, c) == without_trailing(chars@.take(end as int), c),
        decreases end,
    {
        assert(chars@.take(end as int).drop_last() == chars@.take(end - 1));
        end = end - 1;
    }
    text_of(slice_subrange(&chars, 0, end))
}

/// `s` without any white space.
pub open spec fn without_white_space(s: Seq<char>) -> Seq<char> {
    s.filter(|c: char| !white_space(c))
}

/// `s` without any white space.
pub fn drop_white_space(s: &[char]) -> (r: String)
    ensures
        r@ == without_white_space(s@),
{
    let mut r = String::new();
    let ghost keep = |c: char| !white_space(c);
    for i in 0..s.len()
        invariant
            keep == (|c: char| !white_space(c)),
            r@ == s@.take(i as int).filter(keep),
    {
        proof {
            reveal(Seq::filter);
            assert(s@.take(i + 1).drop_last() == s@.take(i as int));
        }
        if !is_white_space(s[i]) {
            r.push(s[i]);
        }
    }
    assert(s@.take(s@.len() as int) == s@);
    r
}

/// A text without white space is what dropping the white space leaves of it.
pub proof fn lemma_nothing_to_drop(s: Seq<char>)
    requires
        forall|i: int| 0 <= i < s.len() ==> !white_space(#[trigger] s[i]),
    ensures
        without_white_space(s) == s,
{
    crate::lists::lemma_filter_keeps_all(s, |c: char| !white_space(c));
}

/// The first `n` characters of `s`, or all of them where there are fewer.
pub open spec fn clipped(s: Seq<char>, n: nat) -> Seq<char> {
    if s.len() <= n {
        s
    } else {
        s.take(n as int)
    }
}

/// The first `n` characters of `chars`, or all of them where there are fewer.
pub fn clip_chars(chars: &[char], n: usize) -> (r: String)
    ensures
        r@ == clipped(chars@, n as nat),
{
    if chars.len() <= n {
        text_of(chars)
    } else {
        text_of(slice_subrange(chars, 0, n))
    }
}

/// The first `n` characters of `s`, or all of them where there are fewer.
pub fn clip(s: &str, n: usize) -> (r: String)
    ensures
        r@ == clipped(s@, n as nat),
{
    clip_chars(&chars_of(s), n)
}

/// The decimal digit for `d`, which is below ten.
pub open spec fn digit(d: nat) -> char {
    (48 + d) as char
}

/// `n` in decimal, without leading zeros.
pub open spec fn decimal(n: nat) -> Seq<char>
    decreases n,
{
    if n < 10 {
        seq![digit(n)]
    } else {
        decimal(n / 10).push(digit(n % 10))
    }
}

/// `n` in decimal, without leading zeros.
pub fn decimal_text(n: usize) -> (r: String)
    ensures
        r@ == decimal(n as nat),
    decreases n,
{
    let last: char = (48 + (n % 10) as u8) as char;
    let mut r = if n < 10 {
        String::new()
    } else {
        decimal_text(n / 10)
    };
    r.push(last);
    r
}

/// `a` followed by `b`.
pub fn join(a: &str, b: &str) -> (r: String)
    ensures
        r@ == a@ + b@,
{
    let mut r = a.to_owned();
    r.append(b);
    r
}

/// Trimming takes off the white space at both ends and nothing else.
pub proof fn trimming_takes_off_the_ends_only(a: Seq<char>, m: Seq<char>, b: Seq<char>)
    requires
        forall|i: int| 0 <= i < a.len() ==> white_space(#[trigger] a[i]),
        forall|i: int| 0 <= i < b.len() ==> white_space(#[trigger] b[i]),
        m.len() > 0 ==> !white_space(m[0]) && !white_space(m[m.len() - 1]),
    ensures
        trimmed(a + m + b) == m,
    decreases a.len() + b.len(),
{
    let s = a + m + b;
    if a.len() > 0 {
        let rest = a.drop_first();
        assert(forall|i: int| 0 <= i < rest.len() ==> rest[i] == a[i + 1]);
        trimming_takes_off_the_ends_only(rest, m, b);
        assert(white_space(a[0]));
        assert(s[0] == a[0]);
        assert(s.drop_first() == rest + m + b);
    } else if m.len() == 0 {
        if b.len() > 0 {
            let rest = b.drop_first();
            assert(forall|i: int| 0 <= i < rest.len() ==> rest[i] == b[i + 1]);
            trimming_takes_off_the_ends_only(a, m, rest);
            assert(white_space(b[0]));
            assert(s[0] == b[0]);
            assert(s.drop_first() == a + m + rest);
        } else {
            assert(s == m);
        }
    } else if b.len() > 0 {
        let rest = b.drop_last();
        assert(forall|i: int| 0 <= i < rest.len() ==> rest[i] == b[i]);
        trimming_takes_off_the_ends_only(a, m, rest);
        assert(white_space(b[b.len() - 1]));
        assert(s[0] == m[0]);
        assert(s.last() == b[b.len() - 1]);
        assert(s.drop_last() == a + m + rest);
        assert((a + m + rest)[0] == m[0]);
    } else {
        assert(s == m);
    }
}

/// Where the part that trimming leaves begins and ends.
proof fn lemma_trim_bounds(s: Seq<char>) -> (r: (int, int))
    ensures
        0 <= r.0 <= r.1 <= s.len(),
        trimmed(s) == s.subrange(r.0, r.1),
        forall|k: int| 0 <= k < r.0 ==> white_space(#[trigger] s[k]),
        forall|k: int| r.1 <= k < s.len() ==> white_space(#[trigger] s[k]),
        r.0 < r.1 ==> !white_space(s[r.0]) && !white_space(s[r.1 - 1]),
    decreases s.len(),
{
    if s.len() == 0 {
        assert(trimmed(s) == s.subrange(0, 0));
        (0, 0)
    } else if white_space(s[0]) {
        let t = s.drop_first();
        let r = lemma_trim_bounds(t);
        assert(t.subrange(r.0, r.1) == s.subrange(r.0 + 1, r.1 + 1));
        assert(forall|k: int| 0 < k < s.len() ==> s[k] == t[k - 1]);
        (r.0 + 1, r.1 + 1)
    } else if white_space(s.last()) {
        let t = s.drop_last();
        assert(forall|k: int| 0 <= k < t.len() ==> s[k] == t[k]);
        assert(t[0] == s[0]);
        let r = lemma_trim_bounds(t);
        assert(t.subrange(r.0, r.1) == s.subrange(r.0, r.1));
        assert(trimmed(s) == trimmed(t));
        r
    } else {
        assert(trimmed(s) == s.subrange(0, s.len() as int));
        (0, s.len() as int)
    }
}

/// Every text is what trimming leaves of it, with white space around it. What
/// is left neither begins nor ends with white space, and is nothing exactly
/// where the text holds nothing else.
pub proof fn a_text_is_its_middle_between_white_space(s: Seq<char>)
    ensures
        exists|i: int, j: int|
            {
                &&& 0 <= i <= j <= s.len()
                &&& trimmed(s) == #[trigger] s.subrange(i, j)
                &&& forall|k: int| 0 <= k < i ==> white_space(#[trigger] s[k])
                &&& forall|k: int| j <= k < s.len() ==> white_space(#[trigger] s[k])
            },
        trimmed(s).len() > 0 ==> !white_space(trimmed(s)[0]) && !white_space(
            trimmed(s)[trimmed(s).len() - 1],
        ),
        trimmed(s).len() > 0 <==> exists|k: int| 0 <= k < s.len() && !white_space(#[trigger] s[k]),
{
    let r = lemma_trim_bounds(s);
    assert(trimmed(s) == s.subrange(r.0, r.1));
}

/// A text holds a part exactly where it is that part with something before and
/// after it.
pub proof fn a_part_stands_between_two_texts(s: Seq<char>, part: Seq<char>)
    ensures
        has_part(s, part) <==> exists|a: Seq<char>, b: Seq<char>| s == #[trigger] (a + part + b),
        forall|a: Seq<char>, b: Seq<char>| has_part(#[trigger] (a + part + b), part),
{
    assert forall|a: Seq<char>, b: Seq<char>| has_part(#[trigger] (a + part + b), part) by {
        let t = a + part + b;
        assert(t.subrange(a.len() as int, a.len() as int + part.len()) == part);
    }
    if has_part(s, part) {
        let i = choose|i: int|
            0 <= i && i + part.len() <= s.len() && #[trigger] s.subrange(i, i + part.len()) == part;
        let a = s.take(i);
        let b = s.skip(i + part.len());
        assert(s == a + part + b);
    }
}

/// Trimming does not touch a part that holds no white space.
pub proof fn lemma_trimming_keeps_parts(s: Seq<char>, part: Seq<char>)
    requires
        part.len() > 0,
        forall|k: int| 0 <= k < part.len() ==> !white_space(#[trigger] part[k]),
    ensures
        has_part(trimmed(s), part) == has_part(s, part),
{
    let (i, j) = lemma_trim_bounds(s);
    let t = trimmed(s);
    if has_part(t, part) {
        let p = choose|p: int|
            0 <= p && p + part.len() <= t.len() && #[trigger] t.subrange(p, p + part.len()) == part;
        assert(s.subrange(i + p, i + p + part.len()) == t.subrange(p, p + part.len()));
    }
    if has_part(s, part) {
        let p = choose|p: int|
            0 <= p && p + part.len() <= s.len() && #[trigger] s.subrange(p, p + part.len()) == part;
        let q = s.subrange(p, p + part.len());
        assert(q[0] == s[p] && q[part.len() - 1] == s[p + part.len() - 1]);
        assert(!white_space(part[0]) && !white_space(part[part.len() - 1]));
        assert(i <= p && p + part.len() <= j);
        assert(t.subrange(p - i, p - i + part.len()) == q);
    }
}

/// Taking off the copies of a character at the end takes off these alone.
pub proof fn trailing_copies_alone_are_taken_off(s: Seq<char>, c: char, n: nat)
    requires
        s.len() > 0 ==> s[s.len() - 1] != c,
    ensures
        without_trailing(s + Seq::new(n, |i: int| c), c) == s,
    decreases n,
{
    let t = s + Seq::new(n, |i: int| c);
    if n == 0 {
        assert(t == s);
    } else {
        let m = (n - 1) as nat;
        trailing_copies_alone_are_taken_off(s, c, m);
        assert(t.drop_last() == s + Seq::new(m, |i: int| c));
    }
}

/// White space is dropped character by character, and everything else stays in
/// its place.
pub proof fn white_space_alone_is_dropped(s: Seq<char>, c: char)
    ensures
        without_white_space(Seq::empty()) == Seq::<char>::empty(),
        white_space(c) ==> without_white_space(s.push(c)) == without_white_space(s),
        !white_space(c) ==> without_white_space(s.push(c)) == without_white_space(s).push(c),
{
    reveal(Seq::filter);
    assert(s.push(c).drop_last() == s);
}

/// A clipped text is the beginning of the text: all of it, or as many
/// characters as are allowed.
pub proof fn a_clipped_text_is_a_beginning(s: Seq<char>, n: nat)
    ensures
        clipped(s, n).len() == if s.len() < n {
            s.len()
        } else {
            n
        },
        forall|i: int| 0 <= i < clipped(s, n).len() ==> #[trigger] clipped(s, n)[i] == s[i],
{
}

/// Decimal notation: one digit below ten; a further digit multiplies by ten.
pub proof fn a_further_digit_multiplies_by_ten(n: nat, d: nat)
    requires
        d < 10,
    ensures
        decimal(d) == seq![(48 + d) as char],
        n > 0 ==> decimal(n * 10 + d) == decimal(n).push((48 + d) as char),
{
    assert((n * 10 + d) / 10 == n);
    assert((n * 10 + d) % 10 == d);
}

/// The length in bytes is that of the UTF-8 encoding.
pub proof fn lengths_are_counted_in_bytes(s: Seq<char>)
    ensures
        utf8_len(s) == encode_utf8(s).len(),
{
}

} // verus!
