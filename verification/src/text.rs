//! Character-sequence utilities: whitespace trimming, first lines,
//! joining and decimal rendering, stated over `Seq<char>`.
use vstd::prelude::*;

verus! {

/// The characters that `char::is_whitespace` accepts (Unicode `White_Space`).
pub open spec fn is_whitespace(c: char) -> bool {
    ||| ('\u{9}' <= c && c <= '\u{d}')
    ||| c == ' '
    ||| c == '\u{85}'
    ||| c == '\u{a0}'
    ||| c == '\u{1680}'
    ||| ('\u{2000}' <= c && c <= '\u{200a}')
    ||| c == '\u{2028}'
    ||| c == '\u{2029}'
    ||| c == '\u{202f}'
    ||| c == '\u{205f}'
    ||| c == '\u{3000}'
}

pub fn is_whitespace_char(c: char) -> (r: bool)
    ensures
        r == is_whitespace(c),
{
    ('\u{9}' <= c && c <= '\u{d}') || c == ' ' || c == '\u{85}' || c == '\u{a0}' || c == '\u{1680}'
        || ('\u{2000}' <= c && c <= '\u{200a}') || c == '\u{2028}' || c == '\u{2029}'
        || c == '\u{202f}' || c == '\u{205f}' || c == '\u{3000}'
}

/// The characters of a string slice, in order.
pub(crate) fn chars_of(s: &str) -> (r: Vec<char>)
    ensures
        r@ == s@,
{
    let mut r: Vec<char> = Vec::new();
    for c in it: s.chars()
        invariant
            r@ == it.history(),
    {
        r.push(c);
    }
    r
}

/// A `String` holding exactly the given characters.
/// Trusted: `Iterator::collect` into a `String` from std, claimed to keep the
/// characters and their order.
#[verifier::external_body]
pub(crate) fn string_from_chars(v: &[char]) -> (r: String)
    ensures
        r@ == v@,
{
    v.iter().collect()
}

/// `s` without its leading whitespace (what `str::trim_start` gives).
pub open spec fn trim_start(s: Seq<char>) -> Seq<char>
    decreases s.len(),
{
    if s.len() > 0 && is_whitespace(s[0]) {
        trim_start(s.drop_first())
    } else {
        s
    }
}

/// `s` without the trailing characters `c` (what `str::trim_end_matches(c)` gives).
pub open spec fn trim_end_char(s: Seq<char>, c: char) -> Seq<char>
    decreases s.len(),
{
    if s.len() > 0 && s.last() == c {
        trim_end_char(s.drop_last(), c)
    } else {
        s
    }
}

/// `s` without its trailing whitespace (what `str::trim_end` gives).
pub open spec fn trim_end(s: Seq<char>) -> Seq<char>
    decreases s.len(),
{
    if s.len() > 0 && is_whitespace(s.last()) {
        trim_end(s.drop_last())
    } else {
        s
    }
}

/// `s` without leading and trailing whitespace (what `str::trim` gives).
pub open spec fn trim(s: Seq<char>) -> Seq<char> {
    trim_end(trim_start(s))
}

proof fn lemma_trim_start_skip(s: Seq<char>, i: int)
    requires
        0 <= i <= s.len(),
        forall|j: int| 0 <= j < i ==> is_whitespace(#[trigger] s[j]),
    ensures
        trim_start(s) == trim_start(s.skip(i)),
    decreases i,
{
    if i > 0 {
        assert(s.skip(1) =~= s.drop_first());
        lemma_trim_start_skip(s.drop_first(), i - 1);
        assert(s.drop_first().skip(i - 1) =~= s.skip(i));
    } else {
        assert(s.skip(0) =~= s);
    }
}

proof fn lemma_trim_end_take(s: Seq<char>, i: int)
    requires
        0 <= i <= s.len(),
        forall|j: int| i <= j < s.len() ==> is_whitespace(#[trigger] s[j]),
    ensures
        trim_end(s) == trim_end(s.take(i)),
    decreases s.len() - i,
{
    if i < s.len() {
        lemma_trim_end_take(s.drop_last(), i);
        assert(s.drop_last().take(i) =~= s.take(i));
    } else {
        assert(s.take(i) =~= s);
    }
}

proof fn lemma_trim_end_char_take(s: Seq<char>, c: char, i: int)
    requires
        0 <= i <= s.len(),
        forall|j: int| i <= j < s.len() ==> #[trigger] s[j] == c,
    ensures
        trim_end_char(s, c) == trim_end_char(s.take(i), c),
    decreases s.len() - i,
{
    if i < s.len() {
        lemma_trim_end_char_take(s.drop_last(), c, i);
        assert(s.drop_last().take(i) =~= s.take(i));
    } else {
        assert(s.take(i) =~= s);
    }
}

proof fn lemma_trim_start_shape(s: Seq<char>) -> (k: int)
    ensures
        0 <= k <= s.len(),
        trim_start(s) == s.skip(k),
        forall|j: int| 0 <= j < k ==> is_whitespace(#[trigger] s[j]),
        k < s.len() ==> !is_whitespace(s[k]),
    decreases s.len(),
{
    if s.len() > 0 && is_whitespace(s[0]) {
        let k1 = lemma_trim_start_shape(s.drop_first());
        assert(s.drop_first().skip(k1) =~= s.skip(k1 + 1));
        assert forall|j: int| 0 <= j < k1 + 1 implies is_whitespace(#[trigger] s[j]) by {
            if j > 0 {
                assert(s[j] == s.drop_first()[j - 1]);
            }
        }
        k1 + 1
    } else {
        assert(s.skip(0) =~= s);
        0
    }
}

proof fn lemma_trim_end_shape(s: Seq<char>) -> (m: int)
    ensures
        0 <= m <= s.len(),
        trim_end(s) == s.take(m),
        forall|j: int| m <= j < s.len() ==> is_whitespace(#[trigger] s[j]),
        m > 0 ==> !is_whitespace(s[m - 1]),
    decreases s.len(),
{
    if s.len() > 0 && is_whitespace(s.last()) {
        let m1 = lemma_trim_end_shape(s.drop_last());
        assert(s.drop_last().take(m1) =~= s.take(m1));
        assert forall|j: int| m1 <= j < s.len() implies is_whitespace(#[trigger] s[j]) by {
            if j < s.len() - 1 {
                assert(s[j] == s.drop_last()[j]);
            }
        }
        m1
    } else {
        assert(s.take(s.len() as int) =~= s);
        s.len() as int
    }
}

/// Trimming removes exactly the whitespace at both ends: the result is a
/// contiguous part of `s`, everything cut off is whitespace, and the result
/// neither starts nor ends with whitespace.
pub proof fn lemma_trim_removes_only_outer_whitespace(s: Seq<char>)
    ensures
        exists|a: int, b: int| {
            &&& 0 <= a <= b <= s.len()
            &&& trim(s) == s.subrange(a, b)
            &&& forall|j: int| 0 <= j < a ==> is_whitespace(#[trigger] s[j])
            &&& forall|j: int| b <= j < s.len() ==> is_whitespace(#[trigger] s[j])
        },
        trim(s).len() > 0 ==> !is_whitespace(trim(s)[0]) && !is_whitespace(trim(s).last()),
{
    let k = lemma_trim_start_shape(s);
    let t = s.skip(k);
    let m = lemma_trim_end_shape(t);
    assert(t.take(m) =~= s.subrange(k, k + m));
    assert forall|j: int| k + m <= j < s.len() implies is_whitespace(#[trigger] s[j]) by {
        assert(s[j] == t[j - k]);
    }
    assert(trim(s) == s.subrange(k, k + m));
}

/// The characters of `s` with leading and trailing whitespace removed.
pub fn trim_chars(s: &[char]) -> (r: Vec<char>)
    ensures
        r@ == trim(s@),
{
    let n = s.len();
    let mut start: usize = 0;
    while start < n && is_whitespace_char(s[start])
        invariant
            start <= n,
            n == s@.len(),
            forall|j: int| 0 <= j < start ==> is_whitespace(#[trigger] s@[j]),
        decreases n - start,
    {
        start = start + 1;
    }
    proof {
        lemma_trim_start_skip(s@, start as int);
    }
    let mut end: usize = n;
    while end > start && is_whitespace_char(s[end - 1])
        invariant
            start <= end <= n,
            n == s@.len(),
            forall|j: int| end <= j < n ==> is_whitespace(#[trigger] s@[j]),
        decreases end,
    {
        end = end - 1;
    }
    let mut r: Vec<char> = Vec::new();
    let mut k: usize = start;
    while k < end
        invariant
            start <= k <= end <= n,
            n == s@.len(),
            r@ =~= s@.subrange(start as int, k as int),
        decreases end - k,
    {
        r.push(s[k]);
        k = k + 1;
    }
    proof {
        let t = s@.skip(start as int);
        if start < n {
            assert(!is_whitespace(t[0]));
            assert(trim_start(t) == t);
        } else {
            assert(t.len() == 0);
        }
        lemma_trim_end_take(t, end - start);
        assert(t.take(end - start) =~= r@);
        if end > start {
            assert(!is_whitespace(r@.last()));
        }
    }
    r
}

/// The characters of `s` without its trailing characters `c`.
pub fn trim_end_char_chars(s: &[char], c: char) -> (r: Vec<char>)
    ensures
        r@ == trim_end_char(s@, c),
{
    let n = s.len();
    let mut end: usize = n;
    while end > 0 && s[end - 1] == c
        invariant
            end <= n,
            n == s@.len(),
            forall|j: int| end <= j < n ==> #[trigger] s@[j] == c,
        decreases end,
    {
        end = end - 1;
    }
    let mut r: Vec<char> = Vec::new();
    let mut k: usize = 0;
    while k < end
        invariant
            k <= end <= n,
            n == s@.len(),
            r@ =~= s@.take(k as int),
        decreases end - k,
    {
        r.push(s[k]);
        k = k + 1;
    }
    proof {
        lemma_trim_end_char_take(s@, c, end as int);
    }
    r
}

/// The parts joined with `sep` between neighbours (what `[String]::join` gives).
pub open spec fn join(parts: Seq<Seq<char>>, sep: Seq<char>) -> Seq<char>
    decreases parts.len(),
{
    if parts.len() == 0 {
        Seq::empty()
    } else if parts.len() == 1 {
        parts[0]
    } else {
        join(parts.drop_last(), sep) + sep + parts.last()
    }
}

/// Appends the characters of `s` to `r`.
pub fn append_chars(r: &mut Vec<char>, s: &[char])
    ensures
        final(r)@ == old(r)@ + s@,
{
    let mut k: usize = 0;
    while k < s.len()
        invariant
            k <= s@.len(),
            r@ =~= old(r)@ + s@.take(k as int),
        decreases s@.len() - k,
    {
        r.push(s[k]);
        k = k + 1;
    }
    assert(s@.take(s@.len() as int) =~= s@);
}

/// The parts, each taken as its characters, joined with the character `sep` between neighbours.
pub fn join_texts(parts: &Vec<String>, sep: char) -> (r: Vec<char>)
    ensures
        r@ == join(parts@.map_values(|p: String| p@), seq![sep]),
{
    let ghost views = parts@.map_values(|p: String| p@);
    let mut r: Vec<char> = Vec::new();
    let mut k: usize = 0;
    while k < parts.len()
        invariant
            k <= parts@.len(),
            views == parts@.map_values(|p: String| p@),
            r@ == join(views.take(k as int), seq![sep]),
        decreases parts@.len() - k,
    {
        let piece = chars_of(parts[k].as_str());
        if k > 0 {
            r.push(sep);
        }
        append_chars(&mut r, piece.as_slice());
        proof {
            assert(views.take(k + 1).drop_last() =~= views.take(k as int));
            assert(views.take(k + 1).last() == views[k as int]);
            if k == 0 {
                assert(join(views.take(0), seq![sep]) =~= Seq::<char>::empty());
            }
        }
        k = k + 1;
    }
    assert(views.take(parts@.len() as int) =~= views);
    r
}

/// Removing the trailing `c`s leaves a prefix of `s` that does not end in
/// `c`, and everything removed is `c`.
pub proof fn lemma_trim_end_char_removes_only_trailing(s: Seq<char>, c: char)
    ensures
        trim_end_char(s, c).len() <= s.len(),
        s.take(trim_end_char(s, c).len() as int) == trim_end_char(s, c),
        trim_end_char(s, c).len() > 0 ==> trim_end_char(s, c).last() != c,
        forall|j: int| trim_end_char(s, c).len() <= j < s.len() ==> s[j] == c,
    decreases s.len(),
{
    if s.len() > 0 && s.last() == c {
        lemma_trim_end_char_removes_only_trailing(s.drop_last(), c);
        assert(s.drop_last().take(trim_end_char(s, c).len() as int) =~= s.take(trim_end_char(s, c).len() as int));
        assert forall|j: int| trim_end_char(s, c).len() <= j < s.len() implies s[j] == c by {
            if j < s.len() - 1 {
                assert(s.drop_last()[j] == s[j]);
            }
        }
    } else {
        assert(s.take(s.len() as int) =~= s);
    }
}

/// `k` is where the first line of `s` ends: at its first `\n`, or at its end
/// when it has none.
pub open spec fn is_first_break(s: Seq<char>, k: int) -> bool {
    &&& 0 <= k <= s.len()
    &&& k == s.len() || s[k] == '\n'
    &&& forall|j: int| 0 <= j < k ==> s[j] != '\n'
}

/// The first line of `s` without its line ending (what `str::lines().next()`
/// gives, or the empty text when `s` is empty): the text before the first
/// `\n`, less a `\r` just before that `\n`.
pub open spec fn first_line(s: Seq<char>) -> Seq<char> {
    let k = choose|k: int| is_first_break(s, k);
    if k < s.len() && k > 0 && s[k - 1] == '\r' {
        s.take(k - 1)
    } else {
        s.take(k)
    }
}

/// The first line is the part of `s` before its first line ending (`\n`, or
/// `\r\n`), the whole of `s` when it has none; it holds no `\n`.
pub proof fn lemma_first_line_ends_at_first_break(s: Seq<char>)
    ensures
        first_line(s).len() <= s.len(),
        s.take(first_line(s).len() as int) == first_line(s),
        forall|j: int| 0 <= j < first_line(s).len() ==> first_line(s)[j] != '\n',
        ({
            let n = first_line(s).len() as int;
            ||| n == s.len()
            ||| s[n] == '\n'
            ||| n + 1 < s.len() && s[n] == '\r' && s[n + 1] == '\n'
        }),
{
    lemma_first_break_exists(s, 0);
    let k = choose|k: int| is_first_break(s, k);
    assert(s.take(k).len() == k);
    if k < s.len() && k > 0 && s[k - 1] == '\r' {
        assert(first_line(s) == s.take(k - 1));
        assert(s.take(k - 1).len() == k - 1);
    }
}

proof fn lemma_first_break_exists(s: Seq<char>, w: int)
    requires
        0 <= w <= s.len(),
        forall|j: int| 0 <= j < w ==> s[j] != '\n',
    ensures
        exists|k: int| is_first_break(s, k),
    decreases s.len() - w,
{
    if w == s.len() || s[w] == '\n' {
        assert(is_first_break(s, w));
    } else {
        lemma_first_break_exists(s, w + 1);
    }
}

/// The characters of the first line of `s`.
pub fn first_line_chars(s: &[char]) -> (r: Vec<char>)
    ensures
        r@ == first_line(s@),
{
    let n = s.len();
    let mut k: usize = 0;
    while k < n && s[k] != '\n'
        invariant
            k <= n,
            n == s@.len(),
            forall|j: int| 0 <= j < k ==> s@[j] != '\n',
        decreases n - k,
    {
        k = k + 1;
    }
    proof {
        assert(is_first_break(s@, k as int));
        let c = choose|c: int| is_first_break(s@, c);
        assert(c == k) by {
            if c < k {
                assert(s@[c] != '\n');
            }
            if k < c {
                assert(s@[k as int] != '\n');
            }
        }
    }
    let end: usize = if k < n && k > 0 && s[k - 1] == '\r' { k - 1 } else { k };
    let mut r: Vec<char> = Vec::new();
    let mut m: usize = 0;
    while m < end
        invariant
            m <= end <= n,
            n == s@.len(),
            r@ =~= s@.take(m as int),
        decreases end - m,
    {
        r.push(s[m]);
        m = m + 1;
    }
    r
}

/// The digit character of `d`, for `d < 10`.
pub open spec fn digit_char(d: int) -> char {
    if d == 0 { '0' }
    else if d == 1 { '1' }
    else if d == 2 { '2' }
    else if d == 3 { '3' }
    else if d == 4 { '4' }
    else if d == 5 { '5' }
    else if d == 6 { '6' }
    else if d == 7 { '7' }
    else if d == 8 { '8' }
    else { '9' }
}

/// The decimal notation of `n`, without leading zeros.
pub open spec fn decimal(n: nat) -> Seq<char>
    decreases n,
{
    if n < 10 {
        seq![digit_char(n as int)]
    } else {
        decimal(n / 10).push(digit_char((n % 10) as int))
    }
}

/// The decimal notation of `i`: a `'-'` before that of its magnitude when negative.
pub open spec fn signed_decimal(i: int) -> Seq<char> {
    if i < 0 {
        seq!['-'] + decimal((-i) as nat)
    } else {
        decimal(i as nat)
    }
}

fn digit(d: u64) -> (c: char)
    requires
        d < 10,
    ensures
        c == digit_char(d as int),
{
    if d == 0 { '0' }
    else if d == 1 { '1' }
    else if d == 2 { '2' }
    else if d == 3 { '3' }
    else if d == 4 { '4' }
    else if d == 5 { '5' }
    else if d == 6 { '6' }
    else if d == 7 { '7' }
    else if d == 8 { '8' }
    else { '9' }
}

/// The decimal notation of `n`, as `u64::to_string` writes it.
pub fn decimal_chars(n: u64) -> (r: Vec<char>)
    ensures
        r@ == decimal(n as nat),
{
    let mut q: u64 = n;
    let mut r: Vec<char> = Vec::new();
    loop
        invariant
            decimal(n as nat) == decimal(q as nat) + r@,
        decreases q,
    {
        let c = digit(q % 10);
        r.insert(0, c);
        if q < 10 {
            assert(r@ =~= decimal(q as nat) + r@.drop_first());
            return r;
        }
        assert(decimal(q as nat) + r@.drop_first() =~= decimal((q / 10) as nat) + r@);
        q = q / 10;
    }
}

/// The decimal notation of `i`, as `i64::to_string` writes it.
pub fn signed_decimal_chars(i: i64) -> (r: Vec<char>)
    ensures
        r@ == signed_decimal(i as int),
{
    if i < 0 {
        let magnitude: u64 = if i == i64::MIN {
            9223372036854775808u64
        } else {
            (-i) as u64
        };
        let digits = decimal_chars(magnitude);
        let mut r: Vec<char> = Vec::new();
        r.push('-');
        append_chars(&mut r, digits.as_slice());
        assert(r@ =~= seq!['-'] + digits@);
        r
    } else {
        decimal_chars(i as u64)
    }
}

} // verus!
