//! Character-level text helpers over `Seq<char>` views.
use vstd::prelude::*;
use vstd::string::*;

verus! {

broadcast use vstd::string::group_string_axioms;

/// The characters of `s`, in order.
pub fn chars_of(s: &str) -> (v: Vec<char>)
    ensures
        v@ == s@,
{
    let mut v: Vec<char> = Vec::new();
    for c in it: s.chars()
        invariant
            v@ == it.seq().take(it.index() as int),
    {
        v.push(c);
    }
    v
}

} // verus!

verus! {

/// Unicode `White_Space`, the set that `char::is_whitespace` tests.
pub open spec fn is_ws(c: char) -> bool {
    ||| ('\u{9}' <= c && c <= '\u{d}')
    ||| c == ' '
    ||| c == '\u{85}'
    ||| c == '\u{a0}'
    ||| c == '\u{1680}'
    ||| ('\u{2000}' <= c && c <= '\u{200a}')
    ||| c == '\u{2028}'
    ||| c == '\u{2029}'
    ||| c == '\u{202f}'
    ||| c == '\u{205f}'
    ||| c == '\u{3000}'
}

pub fn is_whitespace(c: char) -> (r: bool)
    ensures
        r == is_ws(c),
{
    ('\u{9}' <= c && c <= '\u{d}') || c == ' ' || c == '\u{85}' || c == '\u{a0}' || c == '\u{1680}'
        || ('\u{2000}' <= c && c <= '\u{200a}') || c == '\u{2028}' || c == '\u{2029}' || c
        == '\u{202f}' || c == '\u{205f}' || c == '\u{3000}'
}

/// First position at or after `i` (and before `hi`) that is not whitespace, or `hi`.
pub open spec fn skip_ws(s: Seq<char>, i: int, hi: int) -> int
    decreases hi - i,
{
    if i >= hi {
        hi
    } else if is_ws(s[i]) {
        skip_ws(s, i + 1, hi)
    } else {
        i
    }
}

/// End of `s[lo..j]` once trailing whitespace is removed.
pub open spec fn trim_end_at(s: Seq<char>, lo: int, j: int) -> int
    decreases j - lo,
{
    if j <= lo {
        lo
    } else if is_ws(s[j - 1]) {
        trim_end_at(s, lo, j - 1)
    } else {
        j
    }
}

/// `s` without leading and trailing whitespace.
pub open spec fn trim(s: Seq<char>) -> Seq<char> {
    let a = skip_ws(s, 0, s.len() as int);
    s.subrange(a, trim_end_at(s, a, s.len() as int))
}

pub proof fn lemma_skip_ws_bounds(s: Seq<char>, i: int, hi: int)
    requires
        i <= hi,
    ensures
        i <= skip_ws(s, i, hi) <= hi,
    decreases hi - i,
{
    if i < hi && is_ws(s[i]) {
        lemma_skip_ws_bounds(s, i + 1, hi);
    }
}

pub proof fn lemma_trim_end_bounds(s: Seq<char>, lo: int, j: int)
    requires
        lo <= j,
    ensures
        lo <= trim_end_at(s, lo, j) <= j,
    decreases j - lo,
{
    if lo < j && is_ws(s[j - 1]) {
        lemma_trim_end_bounds(s, lo, j - 1);
    }
}

/// Skips whitespace in `s[i..hi]`.
pub fn skip_whitespace(s: &Vec<char>, i: usize, hi: usize) -> (r: usize)
    requires
        i <= hi <= s.len(),
    ensures
        r == skip_ws(s@, i as int, hi as int),
{
    let mut k = i;
    while k < hi && is_whitespace(s[k])
        invariant
            i <= k <= hi <= s.len(),
            skip_ws(s@, i as int, hi as int) == skip_ws(s@, k as int, hi as int),
        decreases hi - k,
    {
        k = k + 1;
    }
    k
}

/// Drops trailing whitespace from `s[lo..j]`, giving the new end.
pub fn trim_whitespace_end(s: &Vec<char>, lo: usize, j: usize) -> (r: usize)
    requires
        lo <= j <= s.len(),
    ensures
        r == trim_end_at(s@, lo as int, j as int),
{
    let mut k = j;
    while k > lo && is_whitespace(s[k - 1])
        invariant
            lo <= k <= j <= s.len(),
            trim_end_at(s@, lo as int, j as int) == trim_end_at(s@, lo as int, k as int),
        decreases k - lo,
    {
        k = k - 1;
    }
    k
}

/// Bounds of `trim(s[lo..hi])` inside `s`.
pub fn trim_range(s: &Vec<char>, lo: usize, hi: usize) -> (r: (usize, usize))
    requires
        lo <= hi <= s.len(),
    ensures
        lo <= r.0 <= r.1 <= hi,
        s@.subrange(r.0 as int, r.1 as int) == trim(s@.subrange(lo as int, hi as int)),
{
    let a = skip_whitespace(s, lo, hi);
    proof {
        lemma_skip_ws_bounds(s@, lo as int, hi as int);
    }
    let b = trim_whitespace_end(s, a, hi);
    proof {
        lemma_trim_end_bounds(s@, a as int, hi as int);
        let t = s@.subrange(lo as int, hi as int);
        lemma_skip_ws_shift(s@, lo as int, hi as int, lo as int);
        lemma_trim_end_shift(s@, lo as int, hi as int, a as int, hi as int);
        assert(s@.subrange(a as int, b as int) =~= t.subrange(a - lo, b - lo));
    }
    (a, b)
}

/// Skipping whitespace in a window matches skipping in the whole text.
pub proof fn lemma_skip_ws_shift(s: Seq<char>, lo: int, hi: int, i: int)
    requires
        0 <= lo <= i <= hi <= s.len(),
    ensures
        skip_ws(s.subrange(lo, hi), i - lo, hi - lo) + lo == skip_ws(s, i, hi),
    decreases hi - i,
{
    if i < hi {
        lemma_skip_ws_shift(s, lo, hi, i + 1);
    }
}

pub proof fn lemma_trim_end_shift(s: Seq<char>, lo: int, hi: int, a: int, j: int)
    requires
        0 <= lo <= a <= j <= hi <= s.len(),
    ensures
        trim_end_at(s.subrange(lo, hi), a - lo, j - lo) + lo == trim_end_at(s, a, j),
    decreases j - a,
{
    if a < j {
        lemma_trim_end_shift(s, lo, hi, a, j - 1);
    }
}

} // verus!

verus! {

/// Collects characters into a `String` (std's `FromIterator<char>`); the
/// contract says the string holds exactly those characters in order.
#[verifier::external_body]
pub(crate) fn string_from_chars(v: &Vec<char>) -> (r: String)
    ensures
        r@ == v@,
{
    v.iter().collect()
}

/// The decimal digit character for `d < 10`.
pub open spec fn digit_char(d: int) -> char {
    seq!['0', '1', '2', '3', '4', '5', '6', '7', '8', '9'][d]
}

/// The decimal numeral of `n`, without leading zeros.
pub open spec fn decimal(n: nat) -> Seq<char>
    decreases n,
{
    if n < 10 {
        seq![digit_char(n as int)]
    } else {
        decimal(n / 10).push(digit_char((n % 10) as int))
    }
}

/// The decimal numeral of an integer, with a leading `-` when negative.
pub open spec fn int_text(i: int) -> Seq<char> {
    if i < 0 {
        seq!['-'] + decimal((-i) as nat)
    } else {
        decimal(i as nat)
    }
}

fn push_decimal(n: u64, out: &mut Vec<char>)
    ensures
        final(out)@ == old(out)@ + decimal(n as nat),
    decreases n,
{
    let digits = ['0', '1', '2', '3', '4', '5', '6', '7', '8', '9'];
    if n >= 10 {
        push_decimal(n / 10, out);
    }
    let d = (n % 10) as usize;
    out.push(digits[d]);
    proof {
        assert(digits@ =~= seq!['0', '1', '2', '3', '4', '5', '6', '7', '8', '9']);
    }
    assert(out@ =~= old(out)@ + decimal(n as nat));
}

/// The decimal text of an unsigned integer.
pub fn u64_text(n: u64) -> (r: String)
    ensures
        r@ == decimal(n as nat),
{
    let mut v: Vec<char> = Vec::new();
    push_decimal(n, &mut v);
    assert(v@ =~= decimal(n as nat));
    string_from_chars(&v)
}

/// The decimal text of a signed integer.
pub fn i64_text(i: i64) -> (r: String)
    ensures
        r@ == int_text(i as int),
{
    let mut v: Vec<char> = Vec::new();
    if i < 0 {
        v.push('-');
        let m: u64 = (-(i + 1)) as u64 + 1;
        push_decimal(m, &mut v);
        assert(v@ =~= int_text(i as int));
    } else {
        push_decimal(i as u64, &mut v);
        assert(v@ =~= int_text(i as int));
    }
    string_from_chars(&v)
}

/// The number a string of decimal digits spells.
pub open spec fn digits_value(s: Seq<char>) -> int
    decreases s.len(),
{
    if s.len() == 0 {
        0
    } else {
        digits_value(s.drop_last()) * 10 + (s.last() as int - '0' as int)
    }
}

proof fn lemma_digit_char(d: int)
    requires
        0 <= d < 10,
    ensures
        digit_char(d) as int == '0' as int + d,
{
    let ds = seq!['0', '1', '2', '3', '4', '5', '6', '7', '8', '9'];
    assert(ds[0] == '0' && ds[1] == '1' && ds[2] == '2' && ds[3] == '3' && ds[4] == '4' && ds[5]
        == '5' && ds[6] == '6' && ds[7] == '7' && ds[8] == '8' && ds[9] == '9');
}

/// The decimal numeral of `n` is made of digits only, spells `n`, and has
/// no leading zero (only `0` itself starts with `0`).
pub proof fn law_decimal_spells_n(n: nat)
    ensures
        decimal(n).len() >= 1,
        forall|i: int| 0 <= i < decimal(n).len() ==> '0' <= #[trigger] decimal(n)[i] <= '9',
        digits_value(decimal(n)) == n,
        decimal(n)[0] == '0' ==> n == 0,
    decreases n,
{
    if n < 10 {
        lemma_digit_char(n as int);
        let s = decimal(n);
        assert(s.drop_last() =~= Seq::<char>::empty());
        assert(s.len() == 1 && s[0] == digit_char(n as int));
        assert('0' <= s[0] <= '9');
        assert(digits_value(s.drop_last()) == 0);
        assert(s.last() == digit_char(n as int));
        assert(digits_value(s) == n);
    } else {
        law_decimal_spells_n(n / 10);
        lemma_digit_char((n % 10) as int);
        let s = decimal(n);
        assert(s.drop_last() =~= decimal(n / 10));
        assert(s[0] == decimal(n / 10)[0]);
        assert(s.last() == digit_char((n % 10) as int));
        assert(digits_value(s) == digits_value(decimal(n / 10)) * 10 + (n % 10) as int);
        assert((n / 10) * 10 + n % 10 == n);
        assert forall|i: int| 0 <= i < s.len() implies '0' <= #[trigger] s[i] <= '9' by {
            if i < s.len() - 1 {
                assert(s[i] == decimal(n / 10)[i]);
            } else {
                assert(s[i] == digit_char((n % 10) as int));
            }
        }
    }
}

} // verus!
