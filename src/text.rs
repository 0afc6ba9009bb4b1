//! Character-sequence primitives shared by the line grammar.

use vstd::prelude::*;

use crate::zone::{decimal, lemma_decimal};

verus! {

/// `pat` occurs in `s` starting at position `i`.
pub open spec fn occurs_at(s: Seq<char>, pat: Seq<char>, i: int) -> bool {
    0 <= i && i + pat.len() <= s.len() && s.subrange(i, i + pat.len()) == pat
}

/// The first position at or after `from` where `pat` occurs in `s`.
pub open spec fn find_from(s: Seq<char>, pat: Seq<char>, from: int) -> Option<int>
    decreases s.len() + 1 - from,
{
    if from < 0 || from + pat.len() > s.len() {
        None
    } else if occurs_at(s, pat, from) {
        Some(from)
    } else {
        find_from(s, pat, from + 1)
    }
}

/// `s` holds `pat` somewhere at or after `from`.
pub open spec fn contains_from(s: Seq<char>, pat: Seq<char>, from: int) -> bool {
    find_from(s, pat, from) is Some
}

pub open spec fn as_pos(r: Option<usize>) -> Option<int> {
    match r {
        Some(i) => Some(i as int),
        None => None,
    }
}

pub open spec fn num_view(r: Option<(u64, usize)>) -> Option<(nat, int)> {
    match r {
        Some((v, e)) => Some((v as nat, e as int)),
        None => None,
    }
}

pub open spec fn range_view(r: Option<(usize, usize)>) -> Option<(int, int)> {
    match r {
        Some((a, b)) => Some((a as int, b as int)),
        None => None,
    }
}

/// `s` ends with `pat`.
pub open spec fn ends_with(s: Seq<char>, pat: Seq<char>) -> bool {
    s.len() >= pat.len() && occurs_at(s, pat, s.len() - pat.len())
}

pub open spec fn is_digit(c: char) -> bool {
    '0' <= c && c <= '9'
}

/// A character of a `\w` run: an ASCII letter, digit or underscore.
pub open spec fn is_word(c: char) -> bool {
    ('a' <= c && c <= 'z') || ('A' <= c && c <= 'Z') || is_digit(c) || c == '_'
}

/// The end of the run of digits that starts at `i`.
pub open spec fn digit_end(s: Seq<char>, i: int) -> int
    decreases s.len() - i,
{
    if 0 <= i < s.len() && is_digit(s[i]) {
        digit_end(s, i + 1)
    } else {
        i
    }
}

/// The end of the run of word characters that starts at `i`.
pub open spec fn word_end(s: Seq<char>, i: int) -> int
    decreases s.len() - i,
{
    if 0 <= i < s.len() && is_word(s[i]) {
        word_end(s, i + 1)
    } else {
        i
    }
}

pub open spec fn digit_value(c: char) -> nat {
    (c as u32 - '0' as u32) as nat
}

/// The number written by a run of decimal digits.
pub open spec fn digits_value(d: Seq<char>) -> nat
    decreases d.len(),
{
    if d.len() == 0 {
        0
    } else {
        digits_value(d.drop_last()) * 10 + digit_value(d.last())
    }
}

/// The number written at `i` and the position after it, when at least one
/// digit stands there and the number is at most `max`.
pub open spec fn number_at(s: Seq<char>, i: int, max: nat) -> Option<(nat, int)> {
    let j = digit_end(s, i);
    if 0 <= i && i < j && digits_value(s.subrange(i, j)) <= max {
        Some((digits_value(s.subrange(i, j)), j))
    } else {
        None
    }
}

/// The number that follows the literal `lit` placed exactly at `at`.
pub open spec fn number_after(s: Seq<char>, lit: Seq<char>, at: int, max: nat) -> Option<(nat, int)> {
    if occurs_at(s, lit, at) {
        number_at(s, at + lit.len(), max)
    } else {
        None
    }
}

/// The number that follows the first occurrence of `lit` at or after `from`.
pub open spec fn number_following(s: Seq<char>, lit: Seq<char>, from: int, max: nat) -> Option<(nat, int)> {
    match find_from(s, lit, from) {
        Some(p) => number_at(s, p + lit.len(), max),
        None => None,
    }
}

/// The non-empty word run starting at `i`, as `(start, end)`.
pub open spec fn word_at(s: Seq<char>, i: int) -> Option<(int, int)> {
    let j = word_end(s, i);
    if 0 <= i && i < j {
        Some((i, j))
    } else {
        None
    }
}

proof fn lemma_digit_end_bounds(s: Seq<char>, i: int)
    requires
        0 <= i <= s.len(),
    ensures
        i <= digit_end(s, i) <= s.len(),
        forall|k: int| i <= k < digit_end(s, i) ==> is_digit(#[trigger] s[k]),
    decreases s.len() - i,
{
    if i < s.len() && is_digit(s[i]) {
        lemma_digit_end_bounds(s, i + 1);
    }
}

proof fn lemma_digits_value_grows(d: Seq<char>, k: int)
    requires
        0 <= k <= d.len(),
    ensures
        digits_value(d.subrange(0, k)) <= digits_value(d),
    decreases d.len(),
{
    if k < d.len() {
        assert(d.drop_last() == d.subrange(0, d.len() - 1));
        assert(d.subrange(0, k) == d.drop_last().subrange(0, k));
        lemma_digits_value_grows(d.drop_last(), k);
    } else {
        assert(d.subrange(0, k) == d);
    }
}

/// The first occurrence at or after `from` is the one at `k` when none
/// stands between them.
pub proof fn lemma_find_first(s: Seq<char>, pat: Seq<char>, from: int, k: int)
    requires
        0 <= from <= k,
        occurs_at(s, pat, k),
        forall|j: int| from <= j < k ==> !occurs_at(s, pat, j),
    ensures
        find_from(s, pat, from) == Some(k),
    decreases k - from,
{
    if from < k {
        lemma_find_first(s, pat, from + 1, k);
    }
}

/// A pattern whose first character does not stand in `s` is not found.
pub proof fn lemma_find_absent(s: Seq<char>, pat: Seq<char>, from: int)
    requires
        0 <= from,
        pat.len() > 0,
        forall|j: int| from <= j < s.len() ==> s[j] != pat[0],
    ensures
        find_from(s, pat, from) is None,
    decreases s.len() + 1 - from,
{
    if from + pat.len() <= s.len() {
        assert(s.subrange(from, from + pat.len())[0] == s[from]);
        lemma_find_absent(s, pat, from + 1);
    }
}

proof fn lemma_digit_run(s: Seq<char>, i: int, k: int)
    requires
        0 <= i <= k <= s.len(),
        forall|j: int| i <= j < k ==> is_digit(s[j]),
        k == s.len() || !is_digit(s[k]),
    ensures
        digit_end(s, i) == k,
    decreases k - i,
{
    if i < k {
        lemma_digit_run(s, i + 1, k);
    }
}

/// The decimal digits of `n`, written between `a` and a non-digit, read as `n`.
pub proof fn lemma_number_at_decimal(a: Seq<char>, n: nat, b: Seq<char>, max: nat)
    requires
        n <= max,
        b.len() == 0 || !is_digit(b[0]),
    ensures
        number_at(a + decimal(n) + b, a.len() as int, max) == Some(
            (n, (a.len() + decimal(n).len()) as int),
        ),
{
    let d = decimal(n);
    let s = a + d + b;
    lemma_decimal(n);
    let k = (a.len() + d.len()) as int;
    assert forall|j: int| a.len() <= j < k implies is_digit(s[j]) by {
        assert(s[j] == d[j - a.len()]);
    }
    if k < s.len() {
        assert(s[k] == b[0]);
    }
    lemma_digit_run(s, a.len() as int, k);
    assert(s.subrange(a.len() as int, k) =~= d);
}

/// The first position at or after `from` where `pat` occurs in `s`.
pub fn find(s: &[char], pat: &[char], from: usize) -> (r: Option<usize>)
    ensures
        as_pos(r) == find_from(s@, pat@, from as int),
        r matches Some(p) ==> from <= p && occurs_at(s@, pat@, p as int) && s@.len() <= usize::MAX,
{
    if pat.len() > s.len() {
        proof {
            lemma_find_none_beyond(s@, pat@, from as int);
        }
        return None;
    }
    let n = s.len();
    let last = n - pat.len();
    let mut i = from;
    while i <= last
        invariant
            from <= i,
            n == s@.len(),
            last == s@.len() - pat@.len(),
            find_from(s@, pat@, from as int) == find_from(s@, pat@, i as int),
        decreases last + 1 - i,
    {
        let mut j: usize = 0;
        let mut same = true;
        while j < pat.len()
            invariant
                i <= last,
                n == s@.len(),
                last == s@.len() - pat@.len(),
                j <= pat@.len(),
                same == forall|k: int| 0 <= k < j ==> s@[i + k] == pat@[k],
            decreases pat@.len() - j,
        {
            if s[i + j] != pat[j] {
                same = false;
            }
            j = j + 1;
        }
        if same {
            assert(s@.subrange(i as int, i + pat@.len()) =~= pat@);
            return Some(i);
        }
        assert(!occurs_at(s@, pat@, i as int)) by {
            if occurs_at(s@, pat@, i as int) {
                assert forall|k: int| 0 <= k < pat@.len() implies s@[i + k] == pat@[k] by {
                    assert(s@.subrange(i as int, i + pat@.len())[k] == s@[i + k]);
                }
            }
        }
        i = i + 1;
    }
    proof {
        lemma_find_none_beyond(s@, pat@, i as int);
    }
    None
}

proof fn lemma_find_none_beyond(s: Seq<char>, pat: Seq<char>, from: int)
    requires
        from + pat.len() > s.len(),
    ensures
        find_from(s, pat, from) is None,
{
}

/// The number written at `i` (digits only), when it is at most `max`,
/// with the position after its last digit.
pub fn scan_number(s: &[char], i: usize, max: u64) -> (r: Option<(u64, usize)>)
    requires
        max <= u32::MAX,
    ensures
        num_view(r) == number_at(s@, i as int, max as nat),
        r matches Some((v, e)) ==> v <= max && e <= s@.len(),
{
    if i > s.len() {
        return None;
    }
    let mut j = i;
    let mut v: u64 = 0;
    while j < s.len() && '0' <= s[j] && s[j] <= '9'
        invariant
            i <= j <= s@.len(),
            v <= max,
            max <= u32::MAX,
            v == digits_value(s@.subrange(i as int, j as int)),
            digit_end(s@, i as int) == digit_end(s@, j as int),
        decreases s@.len() - j,
    {
        let d = (s[j] as u32 - '0' as u32) as u64;
        assert(s@.subrange(i as int, j + 1).drop_last() =~= s@.subrange(i as int, j as int));
        if v * 10 + d > max {
            proof {
                lemma_digit_end_bounds(s@, j + 1);
                let e = digit_end(s@, i as int);
                let full = s@.subrange(i as int, e);
                assert(full.subrange(0, j + 1 - i) =~= s@.subrange(i as int, j + 1));
                lemma_digits_value_grows(full, j + 1 - i);
            }
            return None;
        }
        proof {
            lemma_digit_end_bounds(s@, i as int);
        }
        v = v * 10 + d;
        j = j + 1;
    }
    if j == i {
        return None;
    }
    Some((v, j))
}

/// The end of the run of digits starting at `i`.
pub fn scan_digits(s: &[char], i: usize) -> (r: usize)
    requires
        i <= s@.len(),
    ensures
        r == digit_end(s@, i as int),
        i <= r <= s@.len(),
{
    let mut j = i;
    while j < s.len() && '0' <= s[j] && s[j] <= '9'
        invariant
            i <= j <= s@.len(),
            digit_end(s@, i as int) == digit_end(s@, j as int),
        decreases s@.len() - j,
    {
        j = j + 1;
    }
    j
}

/// The end of the run of word characters starting at `i`.
pub fn scan_word(s: &[char], i: usize) -> (r: usize)
    requires
        i <= s@.len(),
    ensures
        r == word_end(s@, i as int),
        i <= r <= s@.len(),
{
    let mut j = i;
    while j < s.len() && (('a' <= s[j] && s[j] <= 'z') || ('A' <= s[j] && s[j] <= 'Z') || ('0'
        <= s[j] && s[j] <= '9') || s[j] == '_')
        invariant
            i <= j <= s@.len(),
            word_end(s@, i as int) == word_end(s@, j as int),
        decreases s@.len() - j,
    {
        j = j + 1;
    }
    j
}

/// `pat` stands in `s` exactly at position `i`.
pub fn matches_at(s: &[char], pat: &[char], i: usize) -> (r: bool)
    ensures
        r == occurs_at(s@, pat@, i as int),
{
    let n = s.len();
    if i > n || pat.len() > n - i {
        return false;
    }
    let mut j: usize = 0;
    while j < pat.len()
        invariant
            n == s@.len(),
            i + pat@.len() <= s@.len(),
            j <= pat@.len(),
            forall|k: int| 0 <= k < j ==> s@[i + k] == pat@[k],
        decreases pat@.len() - j,
    {
        if s[i + j] != pat[j] {
            assert(s@.subrange(i as int, i + pat@.len())[j as int] == s@[i + j]);
            return false;
        }
        j = j + 1;
    }
    assert(s@.subrange(i as int, i + pat@.len()) =~= pat@);
    true
}

/// The number that follows `lit` placed exactly at `at`.
pub fn scan_number_after(s: &[char], lit: &[char], at: usize, max: u64) -> (r: Option<(u64, usize)>)
    requires
        max <= u32::MAX,
    ensures
        num_view(r) == number_after(s@, lit@, at as int, max as nat),
        r matches Some((v, e)) ==> v <= max && e <= s@.len(),
{
    let n = s.len();
    if matches_at(s, lit, at) {
        assert(at + lit@.len() <= n);
        scan_number(s, at + lit.len(), max)
    } else {
        None
    }
}

/// The number that follows the first occurrence of `lit` at or after `from`.
pub fn scan_number_following(s: &[char], lit: &[char], from: usize, max: u64) -> (r: Option<(u64, usize)>)
    requires
        max <= u32::MAX,
    ensures
        num_view(r) == number_following(s@, lit@, from as int, max as nat),
        r matches Some((v, e)) ==> v <= max && e <= s@.len(),
{
    let n = s.len();
    match find(s, lit, from) {
        Some(p) => {
            assert(p + lit@.len() <= n);
            scan_number(s, p + lit.len(), max)
        },
        None => None,
    }
}

/// The non-empty run of word characters starting at `i`, as `(start, end)`.
pub fn scan_word_at(s: &[char], i: usize) -> (r: Option<(usize, usize)>)
    ensures
        range_view(r) == word_at(s@, i as int),
        r matches Some((a, b)) ==> a < b <= s@.len(),
{
    if i > s.len() {
        return None;
    }
    let j = scan_word(s, i);
    if i < j {
        Some((i, j))
    } else {
        None
    }
}

/// Whether `pat` occurs anywhere in `s`.
pub fn contains(s: &[char], pat: &[char]) -> (r: bool)
    ensures
        r == contains_from(s@, pat@, 0),
{
    find(s, pat, 0).is_some()
}

/// The characters of `s`, in order.
pub(crate) fn chars_of(s: &str) -> (r: Vec<char>)
    ensures
        r@ == s@,
{
    let mut out: Vec<char> = Vec::new();
    for c in it: s.chars()
        invariant
            out@ == it.history(),
    {
        out.push(c);
    }
    out
}

/// Relies on `FromIterator<&char> for String`: the string of these characters.
#[verifier::external_body]
pub(crate) fn string_of(c: &[char]) -> (r: String)
    ensures
        r@ == c@,
{
    c.iter().collect()
}

} // verus!
