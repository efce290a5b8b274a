//! Character-level helpers for reading command lines: whitespace, trimming,
//! tokens, decimal numbers and case-insensitive keywords.

use vstd::prelude::*;

verus! {

/// The characters that Unicode calls white space.
pub open spec fn is_space(c: char) -> bool {
    let u = c as u32;
    ||| u == 0x20
    ||| 0x09 <= u <= 0x0d
    ||| u == 0x85
    ||| u == 0xa0
    ||| u == 0x1680
    ||| 0x2000 <= u <= 0x200a
    ||| u == 0x2028
    ||| u == 0x2029
    ||| u == 0x202f
    ||| u == 0x205f
    ||| u == 0x3000
}

pub fn is_space_char(c: char) -> (r: bool)
    ensures
        r == is_space(c),
{
    let u = c as u32;
    u == 0x20 || (0x09 <= u && u <= 0x0d) || u == 0x85 || u == 0xa0 || u == 0x1680 || (0x2000 <= u
        && u <= 0x200a) || u == 0x2028 || u == 0x2029 || u == 0x202f || u == 0x205f || u == 0x3000
}

/// `s` without its leading white space.
pub open spec fn trim_front(s: Seq<char>) -> Seq<char>
    decreases s.len(),
{
    if s.len() > 0 && is_space(s[0]) {
        trim_front(s.drop_first())
    } else {
        s
    }
}

/// `s` without its trailing white space.
pub open spec fn trim_back(s: Seq<char>) -> Seq<char>
    decreases s.len(),
{
    if s.len() > 0 && is_space(s.last()) {
        trim_back(s.drop_last())
    } else {
        s
    }
}

/// `s` without white space at either end.
pub open spec fn trim(s: Seq<char>) -> Seq<char> {
    trim_back(trim_front(s))
}

/// The characters of `s`, one by one.
pub fn chars_of(s: &str) -> (v: Vec<char>)
    ensures
        v@ == s@,
{
    let n = s.unicode_len();
    let mut v: Vec<char> = Vec::new();
    let mut i: usize = 0;
    while i < n
        invariant
            n == s@.len(),
            i <= n,
            v@ == s@.subrange(0, i as int),
        decreases n - i,
    {
        v.push(s.get_char(i));
        i = i + 1;
        assert(v@ =~= s@.subrange(0, i as int));
    }
    assert(v@ =~= s@);
    v
}

/// The bounds, inside `lo..hi`, of `v[lo..hi]` with its white space trimmed.
pub fn trim_range(v: &Vec<char>, lo: usize, hi: usize) -> (r: (usize, usize))
    requires
        lo <= hi <= v@.len(),
    ensures
        lo <= r.0 <= r.1 <= hi,
        v@.subrange(r.0 as int, r.1 as int) == trim(v@.subrange(lo as int, hi as int)),
{
    let mut a: usize = lo;
    while a < hi && is_space_char(v[a])
        invariant
            lo <= a <= hi <= v@.len(),
            trim_front(v@.subrange(lo as int, hi as int)) == trim_front(v@.subrange(a as int, hi as int)),
        decreases hi - a,
    {
        assert(v@.subrange(a as int, hi as int).drop_first() =~= v@.subrange(a + 1, hi as int));
        a = a + 1;
    }
    assert(trim_front(v@.subrange(lo as int, hi as int)) == v@.subrange(a as int, hi as int));
    let mut b: usize = hi;
    while b > a && is_space_char(v[b - 1])
        invariant
            lo <= a <= b <= hi <= v@.len(),
            trim(v@.subrange(lo as int, hi as int)) == trim_back(v@.subrange(a as int, b as int)),
        decreases b - a,
    {
        assert(v@.subrange(a as int, b as int).drop_last() =~= v@.subrange(a as int, b - 1));
        b = b - 1;
    }
    (a, b)
}

/// A character that separates tokens: white space, and also `,` where
/// `commas` is set.
pub open spec fn is_sep(c: char, commas: bool) -> bool {
    is_space(c) || (commas && c == ',')
}

/// Length of the run of non-separators that `s` starts with.
pub open spec fn run_len(s: Seq<char>, commas: bool) -> nat
    decreases s.len(),
{
    if s.len() == 0 || is_sep(s[0], commas) {
        0
    } else {
        1 + run_len(s.drop_first(), commas)
    }
}

/// The non-empty pieces of `s` between separators, in order.
pub open spec fn tokens(s: Seq<char>, commas: bool) -> Seq<Seq<char>>
    decreases s.len(),
    via tokens_decreases
{
    if s.len() == 0 {
        seq![]
    } else if is_sep(s[0], commas) {
        tokens(s.drop_first(), commas)
    } else {
        let n = run_len(s, commas);
        seq![s.take(n as int)] + tokens(s.skip(n as int), commas)
    }
}

proof fn lemma_run_len_bound(s: Seq<char>, commas: bool)
    ensures
        1 <= run_len(s, commas) <= s.len() || (run_len(s, commas) == 0 && (s.len() == 0 || is_sep(s[0], commas))),
        run_len(s, commas) <= s.len(),
    decreases s.len(),
{
    if s.len() > 0 && !is_sep(s[0], commas) {
        lemma_run_len_bound(s.drop_first(), commas);
    }
}

#[via_fn]
proof fn tokens_decreases(s: Seq<char>, commas: bool) {
    lemma_run_len_bound(s, commas);
    if s.len() > 0 && !is_sep(s[0], commas) {
        lemma_run_len_bound(s.drop_first(), commas);
    }
}

proof fn lemma_run_len_stops(a: Seq<char>, c: Seq<char>, commas: bool)
    requires
        c.len() > 0,
        is_sep(c[0], commas),
    ensures
        run_len(a + c, commas) == run_len(a, commas),
    decreases a.len(),
{
    if a.len() == 0 {
        assert(a + c =~= c);
    } else if !is_sep(a[0], commas) {
        assert((a + c).drop_first() =~= a.drop_first() + c);
        lemma_run_len_stops(a.drop_first(), c, commas);
    }
}

/// The tokens of two texts joined by a separator are the tokens of the one
/// followed by those of the other.
pub proof fn lemma_tokens_join(a: Seq<char>, sep: char, b: Seq<char>, commas: bool)
    requires
        is_sep(sep, commas),
    ensures
        tokens(a + seq![sep] + b, commas) == tokens(a, commas) + tokens(b, commas),
    decreases a.len(),
{
    let c = seq![sep] + b;
    assert(a + seq![sep] + b =~= a + c);
    if a.len() == 0 {
        assert(a + c =~= c);
        assert(c.drop_first() =~= b);
        assert(tokens(a, commas) =~= seq![]);
        assert(tokens(c, commas) == tokens(b, commas));
        assert(tokens(a, commas) + tokens(b, commas) =~= tokens(b, commas));
    } else if is_sep(a[0], commas) {
        assert((a + c).drop_first() =~= a.drop_first() + seq![sep] + b);
        lemma_tokens_join(a.drop_first(), sep, b, commas);
    } else {
        lemma_run_len_stops(a, c, commas);
        lemma_run_len_bound(a, commas);
        let n = run_len(a, commas) as int;
        assert((a + c).take(n) =~= a.take(n));
        assert((a + c).skip(n) =~= a.skip(n) + seq![sep] + b);
        lemma_tokens_join(a.skip(n), sep, b, commas);
        assert(tokens(a + c, commas) == seq![a.take(n)] + tokens(a.skip(n) + seq![sep] + b, commas));
        assert(tokens(a + c, commas) =~= tokens(a, commas) + tokens(b, commas));
    }
}

/// The pieces of `v` cut out by `spans`.
pub open spec fn span_texts(v: Seq<char>, spans: Seq<(usize, usize)>) -> Seq<Seq<char>> {
    spans.map_values(|p: (usize, usize)| v.subrange(p.0 as int, p.1 as int))
}

/// The spans of the tokens of `v[lo..hi]`.
pub fn token_spans(v: &Vec<char>, lo: usize, hi: usize, commas: bool) -> (r: Vec<(usize, usize)>)
    requires
        lo <= hi <= v@.len(),
    ensures
        span_texts(v@, r@) == tokens(v@.subrange(lo as int, hi as int), commas),
        forall|k: int| 0 <= k < r@.len() ==> lo <= #[trigger] r@[k].0 <= r@[k].1 <= hi,
{
    let mut spans: Vec<(usize, usize)> = Vec::new();
    let mut i: usize = lo;
    while i < hi
        invariant
            lo <= i <= hi <= v@.len(),
            span_texts(v@, spans@) + tokens(v@.subrange(i as int, hi as int), commas) == tokens(
                v@.subrange(lo as int, hi as int),
                commas,
            ),
            forall|k: int| 0 <= k < spans@.len() ==> lo <= #[trigger] spans@[k].0 <= spans@[k].1 <= hi,
        decreases hi - i,
    {
        let ghost rest = v@.subrange(i as int, hi as int);
        let c = v[i];
        let sep = is_space_char(c) || (commas && c == ',');
        if sep {
            assert(rest.drop_first() =~= v@.subrange(i + 1, hi as int));
            i = i + 1;
        } else {
            let mut j: usize = i + 1;
            assert(rest.drop_first() =~= v@.subrange(i + 1, hi as int));
            while j < hi && !(is_space_char(v[j]) || (commas && v[j] == ','))
                invariant
                    i < j <= hi <= v@.len(),
                    rest == v@.subrange(i as int, hi as int),
                    run_len(rest, commas) == (j - i) + run_len(v@.subrange(j as int, hi as int), commas),
                decreases hi - j,
            {
                assert(v@.subrange(j as int, hi as int).drop_first() =~= v@.subrange(j + 1, hi as int));
                j = j + 1;
            }
            assert(run_len(v@.subrange(j as int, hi as int), commas) == 0);
            let ghost n = run_len(rest, commas);
            assert(rest.take(n as int) =~= v@.subrange(i as int, j as int));
            assert(rest.skip(n as int) =~= v@.subrange(j as int, hi as int));
            let ghost before = span_texts(v@, spans@);
            spans.push((i, j));
            assert(forall|k: int| 0 <= k < spans@.len() ==> lo <= #[trigger] spans@[k].0 <= spans@[k].1 <= hi);
            assert(span_texts(v@, spans@) =~= before.push(v@.subrange(i as int, j as int)));
            assert(span_texts(v@, spans@) + tokens(v@.subrange(j as int, hi as int), commas) =~= before
                + tokens(rest, commas));
            i = j;
        }
    }
    assert(v@.subrange(i as int, hi as int).len() == 0);
    assert(span_texts(v@, spans@) =~= tokens(v@.subrange(lo as int, hi as int), commas));
    spans
}

pub open spec fn is_digit(c: char) -> bool {
    0x30 <= c as u32 <= 0x39
}

pub open spec fn digits_value(s: Seq<char>) -> nat
    decreases s.len(),
{
    if s.len() == 0 {
        0
    } else {
        digits_value(s.drop_last()) * 10 + (s.last() as u32 - 0x30) as nat
    }
}

pub open spec fn all_digits(s: Seq<char>) -> bool {
    forall|i: int| 0 <= i < s.len() ==> is_digit(#[trigger] s[i])
}

/// The number that a decimal numeral stands for: an optional `+`, then one
/// or more ASCII digits. Anything else stands for no number.
pub open spec fn numeral_value(s: Seq<char>) -> Option<nat> {
    let d = if s.len() > 0 && s[0] == '+' {
        s.drop_first()
    } else {
        s
    };
    if d.len() > 0 && all_digits(d) {
        Some(digits_value(d))
    } else {
        None
    }
}

/// Reads `v[lo..hi]` as a decimal numeral no greater than `limit`.
pub fn parse_numeral(v: &Vec<char>, lo: usize, hi: usize, limit: u64) -> (r: Option<u64>)
    requires
        lo <= hi <= v@.len(),
    ensures
        r is Some <==> (numeral_value(v@.subrange(lo as int, hi as int)) is Some
            && numeral_value(v@.subrange(lo as int, hi as int))->Some_0 <= limit),
        r is Some ==> r->Some_0 == numeral_value(v@.subrange(lo as int, hi as int))->Some_0,
{
    let ghost s = v@.subrange(lo as int, hi as int);
    let start: usize = if lo < hi && v[lo] == '+' { lo + 1 } else { lo };
    assert(v@.subrange(start as int, hi as int) =~= (if s.len() > 0 && s[0] == '+' { s.drop_first() } else { s }));
    if start == hi {
        return None;
    }
    let mut acc: u64 = 0;
    let mut over = false;
    let mut k: usize = start;
    while k < hi
        invariant
            start <= k <= hi <= v@.len(),
            start < hi,
            s == v@.subrange(lo as int, hi as int),
            v@.subrange(start as int, hi as int) == (if s.len() > 0 && s[0] == '+' {
                s.drop_first()
            } else {
                s
            }),
            all_digits(v@.subrange(start as int, k as int)),
            !over ==> acc == digits_value(v@.subrange(start as int, k as int)) && acc <= limit,
            over ==> digits_value(v@.subrange(start as int, k as int)) > limit,
        decreases hi - k,
    {
        let c = v[k];
        let cu = c as u32;
        if cu < 0x30 || cu > 0x39 {
            assert(v@.subrange(start as int, hi as int)[k - start] == c);
            assert(!is_digit(v@.subrange(start as int, hi as int)[k - start]));
            assert(!all_digits(v@.subrange(start as int, hi as int)));
            return None;
        }
        let d = (cu - 0x30) as u64;
        let ghost prev = v@.subrange(start as int, k as int);
        assert(v@.subrange(start as int, k + 1).drop_last() =~= prev);
        assert(digits_value(v@.subrange(start as int, k + 1)) == digits_value(prev) * 10 + d);
        if !over {
            if d > limit || acc > (limit - d) / 10 {
                assert(acc * 10 + d > limit) by (nonlinear_arith)
                    requires
                        d > limit || acc > (limit - d) / 10,
                        d <= 9,
                ;
                over = true;
            } else {
                assert(acc * 10 + d <= limit) by (nonlinear_arith)
                    requires
                        acc <= (limit - d) / 10,
                        d <= limit,
                ;
                acc = acc * 10 + d;
            }
        }
        k = k + 1;
        assert(all_digits(v@.subrange(start as int, k as int)));
    }
    assert(v@.subrange(start as int, k as int) == v@.subrange(start as int, hi as int));
    if over {
        None
    } else {
        Some(acc)
    }
}

/// `c` is `k`, or the capital of the lower-case ASCII letter `k`.
pub open spec fn folds_to(c: char, k: char) -> bool {
    c == k || (0x61 <= k as u32 <= 0x7a && c as u32 == k as u32 - 32)
}

/// `s` is the keyword `kw` (written in lower case) in any mix of ASCII case.
pub open spec fn word_eq(s: Seq<char>, kw: Seq<char>) -> bool {
    s.len() == kw.len() && forall|i: int| 0 <= i < s.len() ==> folds_to(#[trigger] s[i], kw[i])
}

/// `s` starts with the keyword `kw`, in any mix of ASCII case.
pub open spec fn starts_with_word(s: Seq<char>, kw: Seq<char>) -> bool {
    s.len() >= kw.len() && word_eq(s.take(kw.len() as int), kw)
}

fn folds_to_char(c: char, k: char) -> (r: bool)
    ensures
        r == folds_to(c, k),
{
    let cu = c as u32;
    let ku = k as u32;
    c == k || (0x61 <= ku && ku <= 0x7a && cu == ku - 32)
}

/// Whether `v[lo..hi]` starts with the keyword `kw`.
pub fn starts_with_at(v: &Vec<char>, lo: usize, hi: usize, kw: &str) -> (r: bool)
    requires
        lo <= hi <= v@.len(),
    ensures
        r == starts_with_word(v@.subrange(lo as int, hi as int), kw@),
{
    let ghost s = v@.subrange(lo as int, hi as int);
    let n = kw.unicode_len();
    if hi - lo < n {
        return false;
    }
    let mut i: usize = 0;
    while i < n
        invariant
            n == kw@.len(),
            lo + n <= hi <= v@.len(),
            s == v@.subrange(lo as int, hi as int),
            i <= n,
            forall|j: int| 0 <= j < i ==> folds_to(#[trigger] s.take(n as int)[j], kw@[j]),
        decreases n - i,
    {
        if !folds_to_char(v[lo + i], kw.get_char(i)) {
            assert(!folds_to(s.take(n as int)[i as int], kw@[i as int]));
            return false;
        }
        i = i + 1;
    }
    true
}

/// Whether `v[lo..hi]` is the keyword `kw`.
pub fn word_at(v: &Vec<char>, lo: usize, hi: usize, kw: &str) -> (r: bool)
    requires
        lo <= hi <= v@.len(),
    ensures
        r == word_eq(v@.subrange(lo as int, hi as int), kw@),
{
    let n = kw.unicode_len();
    if hi - lo != n {
        return false;
    }
    let r = starts_with_at(v, lo, hi, kw);
    assert(v@.subrange(lo as int, hi as int).take(n as int) =~= v@.subrange(lo as int, hi as int));
    r
}

/// Whether `a` and `b` hold the same characters.
pub fn same_text(a: &str, b: &str) -> (r: bool)
    ensures
        r == (a@ == b@),
{
    let n = a.unicode_len();
    if n != b.unicode_len() {
        return false;
    }
    let mut i: usize = 0;
    while i < n
        invariant
            n == a@.len(),
            n == b@.len(),
            i <= n,
            forall|j: int| 0 <= j < i ==> a@[j] == b@[j],
        decreases n - i,
    {
        if a.get_char(i) != b.get_char(i) {
            return false;
        }
        i = i + 1;
    }
    assert(a@ =~= b@);
    true
}

pub open spec fn digit_char(d: int) -> char {
    seq!['0', '1', '2', '3', '4', '5', '6', '7', '8', '9'][d]
}

/// The decimal digits of `n`, most significant first.
pub open spec fn decimal_digits(n: nat) -> Seq<char>
    decreases n,
{
    if n < 10 {
        seq![digit_char(n as int)]
    } else {
        decimal_digits(n / 10).push(digit_char((n % 10) as int))
    }
}

/// `n` written in decimal, with a leading `-` when negative.
pub open spec fn decimal(n: int) -> Seq<char> {
    if n < 0 {
        seq!['-'] + decimal_digits((-n) as nat)
    } else {
        decimal_digits(n as nat)
    }
}

fn digit_str(d: u64) -> (r: &'static str)
    requires
        d < 10,
    ensures
        r@ == seq![digit_char(d as int)],
{
    proof {
        reveal_strlit("0");
        reveal_strlit("1");
        reveal_strlit("2");
        reveal_strlit("3");
        reveal_strlit("4");
        reveal_strlit("5");
        reveal_strlit("6");
        reveal_strlit("7");
        reveal_strlit("8");
        reveal_strlit("9");
    }
    let r = if d == 0 {
        "0"
    } else if d == 1 {
        "1"
    } else if d == 2 {
        "2"
    } else if d == 3 {
        "3"
    } else if d == 4 {
        "4"
    } else if d == 5 {
        "5"
    } else if d == 6 {
        "6"
    } else if d == 7 {
        "7"
    } else if d == 8 {
        "8"
    } else {
        "9"
    };
    assert(r@ =~= seq![digit_char(d as int)]);
    r
}

/// Appends the decimal digits of `n` to `s`.
pub fn append_digits(s: &mut String, n: u64)
    ensures
        final(s)@ == old(s)@ + decimal_digits(n as nat),
    decreases n,
{
    if n >= 10 {
        append_digits(s, n / 10);
    }
    let ghost mid = s@;
    s.append(digit_str(n % 10));
    proof {
        if n >= 10 {
            assert(decimal_digits(n as nat) == decimal_digits((n / 10) as nat).push(digit_char((n % 10) as int)));
            assert(s@ =~= old(s)@ + decimal_digits(n as nat));
        } else {
            assert(s@ =~= old(s)@ + decimal_digits(n as nat));
        }
    }
}

/// Appends `n` in decimal to `s`.
pub fn append_decimal(s: &mut String, n: i64)
    ensures
        final(s)@ == old(s)@ + decimal(n as int),
{
    if n < 0 {
        s.append("-");
        proof {
            reveal_strlit("-");
        }
        let m: u64 = ((-(n + 1)) as u64) + 1;
        append_digits(s, m);
        assert(s@ =~= old(s)@ + decimal(n as int));
    } else {
        append_digits(s, n as u64);
    }
}

/// `n` in decimal.
pub fn decimal_text(n: i64) -> (r: String)
    ensures
        r@ == decimal(n as int),
{
    let mut s = String::new();
    append_decimal(&mut s, n);
    assert(s@ =~= decimal(n as int));
    s
}

} // verus!
