//! Character-level text handling shared by the rest of the library: Unicode
//! white space, trimming, word counting, prefix/suffix tests and decimal
//! number parsing, each stated over the string's sequence of characters.
use vstd::prelude::*;

verus! {

broadcast use vstd::string::group_string_axioms;

/// The Unicode `White_Space` property (PropList.txt): the characters that
/// `char::is_whitespace` recognises and that `str::trim` and
/// `str::split_whitespace` treat as separators.
pub open spec fn is_ws(c: char) -> bool {
    let u = c as u32;
    ||| 0x09 <= u <= 0x0d
    ||| u == 0x20
    ||| u == 0x85
    ||| u == 0xa0
    ||| u == 0x1680
    ||| 0x2000 <= u <= 0x200a
    ||| u == 0x2028
    ||| u == 0x2029
    ||| u == 0x202f
    ||| u == 0x205f
    ||| u == 0x3000
}

/// Number of leading white-space characters of `s`.
pub open spec fn leading_ws(s: Seq<char>) -> nat
    decreases s.len(),
{
    if s.len() > 0 && is_ws(s[0]) {
        1 + leading_ws(s.drop_first())
    } else {
        0
    }
}

/// Number of trailing white-space characters of `s`.
pub open spec fn trailing_ws(s: Seq<char>) -> nat
    decreases s.len(),
{
    if s.len() > 0 && is_ws(s.last()) {
        1 + trailing_ws(s.drop_last())
    } else {
        0
    }
}

/// `s` without leading white space.
pub open spec fn trim_start(s: Seq<char>) -> Seq<char> {
    s.skip(leading_ws(s) as int)
}

/// `s` without trailing white space.
pub open spec fn trim_end(s: Seq<char>) -> Seq<char> {
    s.take(s.len() - trailing_ws(s))
}

/// `s` without leading and trailing white space (what `str::trim` returns).
pub open spec fn trimmed(s: Seq<char>) -> Seq<char> {
    trim_end(trim_start(s))
}

/// Whether `s` holds nothing but white space (possibly nothing at all).
pub open spec fn is_blank(s: Seq<char>) -> bool {
    forall|i: int| 0 <= i < s.len() ==> is_ws(#[trigger] s[i])
}

/// Number of white-space separated words of `s`: the positions that hold a
/// non-white-space character preceded by white space or by the start.
pub open spec fn word_count_of(s: Seq<char>) -> nat
    decreases s.len(),
{
    if s.len() == 0 {
        0
    } else {
        let n = s.len() - 1;
        word_count_of(s.drop_last()) + if !is_ws(s[n]) && (n == 0 || is_ws(s[n - 1])) {
            1nat
        } else {
            0nat
        }
    }
}

/// Numeric value of a sequence of ASCII decimal digits.
pub open spec fn digits_value(s: Seq<char>) -> nat
    decreases s.len(),
{
    if s.len() == 0 {
        0
    } else {
        digits_value(s.drop_last()) * 10 + ((s.last() as u32) - ('0' as u32)) as nat
    }
}

/// Whether `c` is one of the ASCII digits `0`..`9`.
pub open spec fn is_digit(c: char) -> bool {
    '0' as u32 <= c as u32 <= '9' as u32
}

/// The digits of a number in text form: `s` without one optional leading `+`.
pub open spec fn unsigned_body(s: Seq<char>) -> Seq<char> {
    if s.len() > 0 && s[0] == '+' {
        s.drop_first()
    } else {
        s
    }
}

/// The value of `s` read as an unsigned decimal number no greater than `max`:
/// an optional `+` followed by one or more ASCII digits, nothing else (the
/// text form that the standard library's `FromStr` for unsigned integers
/// accepts); `None` for any other text or for a value above `max`.
pub open spec fn parse_unsigned(s: Seq<char>, max: nat) -> Option<nat> {
    let d = unsigned_body(s);
    if d.len() > 0 && (forall|i: int| 0 <= i < d.len() ==> is_digit(#[trigger] d[i]))
        && digits_value(d) <= max {
        Some(digits_value(d))
    } else {
        None
    }
}

/// Whether `p` is a prefix of `s`.
pub open spec fn has_prefix(s: Seq<char>, p: Seq<char>) -> bool {
    p.len() <= s.len() && s.take(p.len() as int) == p
}

/// Whether `p` is a suffix of `s`.
pub open spec fn has_suffix(s: Seq<char>, p: Seq<char>) -> bool {
    p.len() <= s.len() && s.skip(s.len() - p.len()) == p
}

/// The characters of `s`, in order.
pub fn chars_of(s: &str) -> (r: Vec<char>)
    ensures
        r@ == s@,
{
    let mut r: Vec<char> = Vec::new();
    for c in it: s.chars()
        invariant
            it.seq() == s@,
            r@ == it.seq().take(it.index() as int),
    {
        r.push(c);
    }
    r
}

/// Whether `c` is Unicode white space.
pub fn is_white_space(c: char) -> (r: bool)
    ensures
        r == is_ws(c),
{
    let u = c as u32;
    (0x09 <= u && u <= 0x0d) || u == 0x20 || u == 0x85 || u == 0xa0 || u == 0x1680 || (0x2000
        <= u && u <= 0x200a) || u == 0x2028 || u == 0x2029 || u == 0x202f || u == 0x205f || u
        == 0x3000
}

proof fn lemma_leading_ws(s: Seq<char>, k: int)
    requires
        0 <= k <= s.len(),
        forall|i: int| 0 <= i < k ==> is_ws(#[trigger] s[i]),
        k == s.len() || !is_ws(s[k]),
    ensures
        leading_ws(s) == k,
    decreases k,
{
    if k > 0 {
        let t = s.drop_first();
        assert forall|i: int| 0 <= i < k - 1 implies is_ws(#[trigger] t[i]) by {
            assert(t[i] == s[i + 1]);
        }
        if k < s.len() {
            assert(t[k - 1] == s[k]);
        }
        lemma_leading_ws(t, k - 1);
    }
}

proof fn lemma_trailing_ws(s: Seq<char>, k: int)
    requires
        0 <= k <= s.len(),
        forall|i: int| s.len() - k <= i < s.len() ==> is_ws(#[trigger] s[i]),
        k == s.len() || !is_ws(s[s.len() - k - 1]),
    ensures
        trailing_ws(s) == k,
    decreases k,
{
    if k > 0 {
        let t = s.drop_last();
        assert forall|i: int| t.len() - (k - 1) <= i < t.len() implies is_ws(#[trigger] t[i]) by {
            assert(t[i] == s[i]);
        }
        if k < s.len() {
            assert(t[t.len() - (k - 1) - 1] == s[s.len() - k - 1]);
        }
        lemma_trailing_ws(t, k - 1);
    }
}

/// `s` without leading and trailing white space, as `str::trim` gives it.
pub fn trim(s: &str) -> (r: &str)
    ensures
        r@ == trimmed(s@),
{
    let cs = chars_of(s);
    let n = cs.len();
    let mut a: usize = 0;
    while a < n && is_white_space(cs[a])
        invariant
            cs@ == s@,
            n == cs@.len(),
            a <= n,
            forall|i: int| 0 <= i < a ==> is_ws(#[trigger] cs@[i]),
        decreases n - a,
    {
        a = a + 1;
    }
    proof {
        lemma_leading_ws(s@, a as int);
    }
    let mut b: usize = n;
    while b > a && is_white_space(cs[b - 1])
        invariant
            cs@ == s@,
            n == cs@.len(),
            a <= b <= n,
            forall|i: int| b <= i < n ==> is_ws(#[trigger] cs@[i]),
        decreases b - a,
    {
        b = b - 1;
    }
    proof {
        let t = s@.skip(a as int);
        assert forall|i: int| t.len() - (n - b) <= i < t.len() implies is_ws(#[trigger] t[i]) by {
            assert(t[i] == s@[i + a]);
        }
        if b > a {
            assert(t[t.len() - (n - b) - 1] == s@[b - 1]);
        }
        lemma_trailing_ws(t, (n - b) as int);
        assert(trimmed(s@) =~= s@.subrange(a as int, b as int));
    }
    s.substring_char(a, b)
}

/// Number of white-space separated words of `s`, as
/// `s.split_whitespace().count()` gives it.
pub fn word_count(s: &str) -> (r: usize)
    ensures
        r == word_count_of(s@),
{
    let cs = chars_of(s);
    let n = cs.len();
    let mut count: usize = 0;
    let mut i: usize = 0;
    while i < n
        invariant
            cs@ == s@,
            n == cs@.len(),
            i <= n,
            count == word_count_of(cs@.take(i as int)),
            count <= i,
        decreases n - i,
    {
        let starts = !is_white_space(cs[i]) && (i == 0 || is_white_space(cs[i - 1]));
        proof {
            let t = cs@.take(i + 1);
            assert(t.drop_last() =~= cs@.take(i as int));
            assert(t[i as int] == cs@[i as int]);
            if i > 0 {
                assert(t[i - 1] == cs@[i - 1]);
            }
        }
        if starts {
            count = count + 1;
        }
        i = i + 1;
    }
    proof {
        assert(cs@.take(n as int) =~= cs@);
    }
    count
}

/// Whether two sequences of characters are equal.
pub fn chars_eq(a: &Vec<char>, b: &Vec<char>) -> (r: bool)
    ensures
        r == (a@ == b@),
{
    if a.len() != b.len() {
        return false;
    }
    let mut i: usize = 0;
    while i < a.len()
        invariant
            a@.len() == b@.len(),
            i <= a@.len(),
            forall|k: int| 0 <= k < i ==> a@[k] == b@[k],
        decreases a@.len() - i,
    {
        if a[i] != b[i] {
            return false;
        }
        i = i + 1;
    }
    assert(a@ =~= b@);
    true
}

/// Whether two strings hold the same characters.
pub fn str_eq(a: &str, b: &str) -> (r: bool)
    ensures
        r == (a@ == b@),
{
    let x = chars_of(a);
    let y = chars_of(b);
    chars_eq(&x, &y)
}

/// Whether `p` is a prefix of `s`.
pub fn starts_with(s: &str, p: &str) -> (r: bool)
    ensures
        r == has_prefix(s@, p@),
{
    let x = chars_of(s);
    let y = chars_of(p);
    if y.len() > x.len() {
        return false;
    }
    let mut i: usize = 0;
    while i < y.len()
        invariant
            x@ == s@,
            y@ == p@,
            y@.len() <= x@.len(),
            i <= y@.len(),
            forall|k: int| 0 <= k < i ==> x@[k] == y@[k],
        decreases y@.len() - i,
    {
        if x[i] != y[i] {
            assert(x@.take(y@.len() as int)[i as int] == x@[i as int]);
            return false;
        }
        i = i + 1;
    }
    assert(x@.take(y@.len() as int) =~= y@);
    true
}

/// Whether `p` is a suffix of `s`.
pub fn ends_with(s: &str, p: &str) -> (r: bool)
    ensures
        r == has_suffix(s@, p@),
{
    let x = chars_of(s);
    let y = chars_of(p);
    if y.len() > x.len() {
        return false;
    }
    let off = x.len() - y.len();
    let mut i: usize = 0;
    while i < y.len()
        invariant
            x@ == s@,
            y@ == p@,
            off == x@.len() - y@.len(),
            off + y@.len() == x@.len(),
            x@.len() == x.len(),
            i <= y@.len(),
            forall|k: int| 0 <= k < i ==> x@[off + k] == y@[k],
        decreases y@.len() - i,
    {
        if x[off + i] != y[i] {
            assert(x@.skip(off as int)[i as int] == x@[off + i]);
            return false;
        }
        i = i + 1;
    }
    assert(x@.skip(off as int) =~= y@);
    true
}

proof fn lemma_digits_value_mono(s: Seq<char>, k: int)
    requires
        0 <= k <= s.len(),
    ensures
        digits_value(s.take(k)) <= digits_value(s),
    decreases s.len() - k,
{
    if k < s.len() {
        lemma_digits_value_mono(s, k + 1);
        assert(s.take(k + 1).drop_last() =~= s.take(k));
    } else {
        assert(s.take(k) =~= s);
    }
}

/// The value of `s` read as an unsigned decimal number no greater than `max`,
/// in the text form that `str::parse` accepts for unsigned integers.
pub fn parse_decimal(s: &str, max: u64) -> (r: Option<u64>)
    ensures
        match r {
            Some(v) => parse_unsigned(s@, max as nat) == Some(v as nat),
            None => parse_unsigned(s@, max as nat) is None,
        },
{
    let cs = chars_of(s);
    let n = cs.len();
    let start: usize = if n > 0 && cs[0] == '+' {
        1
    } else {
        0
    };
    let ghost d = unsigned_body(s@);
    assert(d =~= cs@.skip(start as int));
    if start == n {
        return None;
    }
    let mut acc: u64 = 0;
    let mut i: usize = start;
    while i < n
        invariant
            cs@ == s@,
            n == cs@.len(),
            start <= i <= n,
            start < n,
            d == cs@.skip(start as int),
            d == unsigned_body(s@),
            forall|k: int| start <= k < i ==> is_digit(#[trigger] cs@[k]),
            acc as nat == digits_value(d.take(i - start)),
            acc <= max,
        decreases n - i,
    {
        let c = cs[i];
        let u = c as u32;
        if !(0x30 <= u && u <= 0x39) {
            assert(d[i - start] == c);
            assert(!is_digit(d[i - start]));
            return None;
        }
        let digit: u64 = (u - 0x30) as u64;
        proof {
            assert(d.take(i - start + 1).drop_last() =~= d.take(i - start));
            assert(d.take(i - start + 1).last() == c);
        }
        if digit > max || acc > (max - digit) / 10 {
            proof {
                assert(acc * 10 + digit > max) by (nonlinear_arith)
                    requires
                        digit > max || acc > (max - digit) / 10,
                ;
                lemma_digits_value_mono(d, i - start + 1);
            }
            return None;
        }
        proof {
            assert(acc * 10 + digit <= max) by (nonlinear_arith)
                requires
                    acc <= (max - digit) / 10,
                    digit <= max,
            ;
        }
        acc = acc * 10 + digit;
        i = i + 1;
    }
    proof {
        assert(d.take(n - start) =~= d);
        assert forall|k: int| 0 <= k < d.len() implies is_digit(#[trigger] d[k]) by {
            assert(d[k] == cs@[k + start]);
        }
    }
    Some(acc)
}

/// A text trims to nothing exactly when it holds only white space.
pub proof fn lemma_trimmed_empty(s: Seq<char>)
    ensures
        is_blank(s) <==> trimmed(s).len() == 0,
{
    lemma_leading_ws_bound(s);
    let t = trim_start(s);
    lemma_trailing_ws_bound(t);
    if is_blank(s) {
        lemma_leading_ws_all(s);
    } else {
        let i = choose|i: int| 0 <= i < s.len() && !is_ws(s[i]);
        lemma_leading_ws_stops(s, i);
        assert(t[i - leading_ws(s)] == s[i]);
        lemma_trailing_ws_stops(t, i - leading_ws(s));
    }
}

proof fn lemma_leading_ws_bound(s: Seq<char>)
    ensures
        leading_ws(s) <= s.len(),
    decreases s.len(),
{
    if s.len() > 0 && is_ws(s[0]) {
        lemma_leading_ws_bound(s.drop_first());
    }
}

proof fn lemma_trailing_ws_bound(s: Seq<char>)
    ensures
        trailing_ws(s) <= s.len(),
    decreases s.len(),
{
    if s.len() > 0 && is_ws(s.last()) {
        lemma_trailing_ws_bound(s.drop_last());
    }
}

proof fn lemma_leading_ws_all(s: Seq<char>)
    requires
        is_blank(s),
    ensures
        leading_ws(s) == s.len(),
    decreases s.len(),
{
    if s.len() > 0 {
        let t = s.drop_first();
        assert forall|i: int| 0 <= i < t.len() implies is_ws(#[trigger] t[i]) by {
            assert(t[i] == s[i + 1]);
        }
        assert(is_ws(s[0]));
        lemma_leading_ws_all(t);
    }
}

proof fn lemma_leading_ws_stops(s: Seq<char>, i: int)
    requires
        0 <= i < s.len(),
        !is_ws(s[i]),
    ensures
        leading_ws(s) <= i,
    decreases i,
{
    if i > 0 && is_ws(s[0]) {
        assert(s.drop_first()[i - 1] == s[i]);
        lemma_leading_ws_stops(s.drop_first(), i - 1);
    }
}

proof fn lemma_trailing_ws_stops(s: Seq<char>, i: int)
    requires
        0 <= i < s.len(),
        !is_ws(s[i]),
    ensures
        trailing_ws(s) <= s.len() - 1 - i,
    decreases s.len() - i,
{
    if s.len() - 1 > i && is_ws(s.last()) {
        assert(s.drop_last()[i] == s[i]);
        lemma_trailing_ws_stops(s.drop_last(), i);
    }
}

/// A text of one word is one word, a blank text has none, and appending a
/// white-space separated word to any text adds exactly one word: the count
/// is the number of words, without bound.
pub proof fn lemma_word_count_appends(s: Seq<char>, w: Seq<char>)
    requires
        w.len() > 0,
        forall|i: int| 0 <= i < w.len() ==> !is_ws(#[trigger] w[i]),
    ensures
        word_count_of(s + seq![' '] + w) == word_count_of(s) + 1,
        word_count_of(w) == 1,
{
    let t = s + seq![' '];
    assert(t.drop_last() =~= s);
    assert(t[t.len() - 1] == ' ');
    assert(is_ws(t.last()));
    assert(word_count_of(t) == word_count_of(s));
    lemma_word_count_run(t, w, w.len() as int);
    assert(w.take(w.len() as int) =~= w);
    assert(s + seq![' '] + w =~= t + w.take(w.len() as int));
    let e: Seq<char> = seq![];
    lemma_word_count_run(e, w, w.len() as int);
    assert(e + w.take(w.len() as int) =~= w);
    assert(word_count_of(e) == 0);
}

/// After a text that is empty or ends in white space, the first `k`
/// characters of a word add one word.
proof fn lemma_word_count_run(t: Seq<char>, w: Seq<char>, k: int)
    requires
        0 < k <= w.len(),
        t.len() == 0 || is_ws(t.last()),
        forall|i: int| 0 <= i < w.len() ==> !is_ws(#[trigger] w[i]),
    ensures
        word_count_of(t + w.take(k)) == word_count_of(t) + 1,
    decreases k,
{
    let u = t + w.take(k);
    assert(u.drop_last() =~= t + w.take(k - 1));
    assert(u[u.len() - 1] == w[k - 1]);
    if k == 1 {
        assert(t + w.take(0) =~= t);
    } else {
        lemma_word_count_run(t, w, k - 1);
        assert(u[u.len() - 2] == w[k - 2]);
    }
}

/// A text of white space only has no words.
pub proof fn lemma_blank_has_no_words(s: Seq<char>)
    requires
        is_blank(s),
    ensures
        word_count_of(s) == 0,
    decreases s.len(),
{
    if s.len() > 0 {
        let t = s.drop_last();
        assert forall|i: int| 0 <= i < t.len() implies is_ws(#[trigger] t[i]) by {
            assert(t[i] == s[i]);
        }
        lemma_blank_has_no_words(t);
        assert(is_ws(s[s.len() - 1]));
    }
}

} // verus!
