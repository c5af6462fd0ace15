//! Character-level text model: what it means for one text to occur in
//! another, to be replaced, split or trimmed, and executable routines proved
//! against those meanings.

use vstd::prelude::*;
use vstd::utf8::encode_utf8;

verus! {

/// The number of bytes that `s` takes in UTF-8, as a machine word holds
/// it.
pub open spec fn byte_length(s: Seq<char>) -> usize {
    encode_utf8(s).len() as usize
}


/// `pat` stands in `s` at position `i`.
pub open spec fn matches_at(s: Seq<char>, pat: Seq<char>, i: int) -> bool {
    &&& 0 <= i
    &&& i + pat.len() <= s.len()
    &&& s.subrange(i, i + pat.len()) == pat
}

/// `pat` stands somewhere in `s`. The empty text stands in every text.
pub open spec fn occurs_in(pat: Seq<char>, s: Seq<char>) -> bool {
    exists|i: int| matches_at(s, pat, i)
}

/// `s` begins with `pat`.
pub open spec fn begins_with(s: Seq<char>, pat: Seq<char>) -> bool {
    matches_at(s, pat, 0)
}

/// The first position at or after `from` at which `pat` stands in `s`.
pub open spec fn first_match_from(s: Seq<char>, pat: Seq<char>, from: int) -> Option<int>
    decreases s.len() + 1 - from,
{
    if from < 0 || from + pat.len() > s.len() {
        None
    } else if matches_at(s, pat, from) {
        Some(from)
    } else {
        first_match_from(s, pat, from + 1)
    }
}

/// The first position at which `pat` stands in `s`.
pub open spec fn first_match(s: Seq<char>, pat: Seq<char>) -> Option<int> {
    first_match_from(s, pat, 0)
}

/// What `first_match_from` finds is a match, nothing before it is, and it
/// finds nothing only where there is nothing to find.
pub proof fn lemma_first_match_from(s: Seq<char>, pat: Seq<char>, from: int)
    requires
        0 <= from,
    ensures
        match first_match_from(s, pat, from) {
            Some(k) => from <= k && matches_at(s, pat, k) && forall|j: int|
                from <= j < k ==> !matches_at(s, pat, j),
            None => forall|j: int| from <= j ==> !matches_at(s, pat, j),
        },
    decreases s.len() + 1 - from,
{
    if from + pat.len() > s.len() {
    } else if matches_at(s, pat, from) {
    } else {
        lemma_first_match_from(s, pat, from + 1);
    }
}

/// A text occurs in another exactly when a first match exists.
pub proof fn lemma_occurs_iff_first_match(s: Seq<char>, pat: Seq<char>)
    ensures
        occurs_in(pat, s) <==> first_match(s, pat) is Some,
        first_match(s, pat) matches Some(k) ==> 0 <= k && k + pat.len() <= s.len(),
{
    lemma_first_match_from(s, pat, 0);
    if first_match(s, pat) is Some {
        assert(matches_at(s, pat, first_match(s, pat)->0));
    }
}

/// The two parts of `s` around the first occurrence of `pat`.
pub open spec fn split_once_at(s: Seq<char>, pat: Seq<char>) -> Option<(Seq<char>, Seq<char>)> {
    match first_match(s, pat) {
        Some(k) => Some((s.subrange(0, k), s.subrange(k + pat.len(), s.len() as int))),
        None => None,
    }
}

/// What stands in `s` before the first occurrence of `pat`: all of `s` where
/// `pat` does not occur.
pub open spec fn before_first(s: Seq<char>, pat: Seq<char>) -> Seq<char> {
    match first_match(s, pat) {
        Some(k) => s.subrange(0, k),
        None => s,
    }
}

/// `to`, then each character of `s` followed by `to`: what replacing the
/// empty text yields.
pub open spec fn interleaved(s: Seq<char>, to: Seq<char>) -> Seq<char>
    decreases s.len(),
{
    if s.len() == 0 {
        to
    } else {
        to + seq![s[0]] + interleaved(s.subrange(1, s.len() as int), to)
    }
}

/// `s` with every occurrence of `from` replaced by `to`, found from left to
/// right without overlap.
pub open spec fn replaced(s: Seq<char>, from: Seq<char>, to: Seq<char>) -> Seq<char>
    decreases s.len(),
{
    if from.len() == 0 {
        interleaved(s, to)
    } else if s.len() < from.len() {
        s
    } else if matches_at(s, from, 0) {
        to + replaced(s.subrange(from.len() as int, s.len() as int), from, to)
    } else {
        seq![s[0]] + replaced(s.subrange(1, s.len() as int), from, to)
    }
}

/// `s` without the character `c`.
pub open spec fn without(s: Seq<char>, c: char) -> Seq<char>
    decreases s.len(),
{
    if s.len() == 0 {
        s
    } else if s[0] == c {
        without(s.subrange(1, s.len() as int), c)
    } else {
        seq![s[0]] + without(s.subrange(1, s.len() as int), c)
    }
}

/// The pieces of `s` between the occurrences of the character `d`.
pub open spec fn split_by(s: Seq<char>, d: char) -> Seq<Seq<char>>
    decreases s.len(),
{
    match first_match(s, seq![d]) {
        Some(k) => {
            if 0 <= k < s.len() {
                seq![s.subrange(0, k)] + split_by(s.subrange(k + 1, s.len() as int), d)
            } else {
                seq![s]
            }
        },
        None => seq![s],
    }
}

/// Where `d` stands at `k` in `s` and nowhere before, the first match of
/// `d` is `k`.
pub proof fn lemma_first_char(s: Seq<char>, d: char, k: int)
    requires
        0 <= k < s.len(),
        s[k] == d,
        !s.subrange(0, k).contains(d),
    ensures
        first_match(s, seq![d]) == Some(k),
{
    lemma_first_match_from(s, seq![d], 0);
    assert(s.subrange(k, k + 1) =~= seq![d]);
    assert(matches_at(s, seq![d], k));
    match first_match(s, seq![d]) {
        Some(j) => {
            if j < k {
                assert(s.subrange(j, j + 1)[0] == d);
                assert(s.subrange(0, k)[j] == d);
                assert(s.subrange(0, k).contains(d));
            }
        },
        None => {},
    }
}

/// Where `d` stands nowhere in `s`, it has no first match.
pub proof fn lemma_no_char(s: Seq<char>, d: char)
    requires
        !s.contains(d),
    ensures
        first_match(s, seq![d]) is None,
{
    lemma_first_match_from(s, seq![d], 0);
    match first_match(s, seq![d]) {
        Some(j) => {
            assert(s.subrange(j, j + 1)[0] == d);
            assert(s.contains(s[j]));
        },
        None => {},
    }
}

/// A character with the Unicode property White_Space.
pub open spec fn is_space(c: char) -> bool {
    let n = c as u32;
    ||| 0x09 <= n <= 0x0d
    ||| n == 0x20
    ||| n == 0x85
    ||| n == 0xa0
    ||| n == 0x1680
    ||| 0x2000 <= n <= 0x200a
    ||| n == 0x2028
    ||| n == 0x2029
    ||| n == 0x202f
    ||| n == 0x205f
    ||| n == 0x3000
}

/// `s` without the white space at its start.
pub open spec fn trimmed_start(s: Seq<char>) -> Seq<char>
    decreases s.len(),
{
    if s.len() > 0 && is_space(s[0]) {
        trimmed_start(s.subrange(1, s.len() as int))
    } else {
        s
    }
}

/// `s` without the white space at its end.
pub open spec fn trimmed_end(s: Seq<char>) -> Seq<char>
    decreases s.len(),
{
    if s.len() > 0 && is_space(s[s.len() - 1]) {
        trimmed_end(s.subrange(0, s.len() - 1))
    } else {
        s
    }
}

/// `s` without the white space at either end.
pub open spec fn trimmed(s: Seq<char>) -> Seq<char> {
    trimmed_end(trimmed_start(s))
}

/// A single character occurs as a text exactly where the text holds it.
pub proof fn lemma_occurs_char(s: Seq<char>, c: char)
    ensures
        occurs_in(seq![c], s) <==> s.contains(c),
{
    if occurs_in(seq![c], s) {
        let i = choose|i: int| matches_at(s, seq![c], i);
        assert(s.subrange(i, i + 1)[0] == c);
        assert(s[i] == c);
    }
    if s.contains(c) {
        let i = choose|i: int| 0 <= i < s.len() && s[i] == c;
        assert(s.subrange(i, i + 1) =~= seq![c]);
        assert(matches_at(s, seq![c], i));
    }
}

/// A text that holds a character cannot occur in a text that lacks it.
pub proof fn lemma_absent_char(s: Seq<char>, pat: Seq<char>, c: char)
    requires
        pat.contains(c),
        !s.contains(c),
    ensures
        !occurs_in(pat, s),
{
    if occurs_in(pat, s) {
        let i = choose|i: int| matches_at(s, pat, i);
        let k = choose|k: int| 0 <= k < pat.len() && pat[k] == c;
        assert(s.subrange(i, i + pat.len())[k] == c);
        assert(s[i + k] == c);
    }
}

/// Taking out every occurrence of a character leaves none.
pub proof fn lemma_replaced_char_gone(s: Seq<char>, c: char)
    ensures
        !replaced(s, seq![c], Seq::empty()).contains(c),
    decreases s.len(),
{
    let r = replaced(s, seq![c], Seq::empty());
    if s.len() < 1 {
    } else if matches_at(s, seq![c], 0) {
        let rest = s.subrange(1, s.len() as int);
        lemma_replaced_char_gone(rest, c);
        assert(r =~= replaced(rest, seq![c], Seq::empty()));
    } else {
        let rest = s.subrange(1, s.len() as int);
        lemma_replaced_char_gone(rest, c);
        let tail = replaced(rest, seq![c], Seq::empty());
        assert(r =~= seq![s[0]] + tail);
        if s[0] == c {
            assert(s.subrange(0, 1) =~= seq![c]);
        }
        if r.contains(c) {
            let i = choose|i: int| 0 <= i < r.len() && r[i] == c;
            if i > 0 {
                assert(tail[i - 1] == c);
            }
        }
    }
}

/// What stands before the first occurrence of a character holds no such
/// character, and holds nothing that the text does not hold.
pub proof fn lemma_before_first_char(s: Seq<char>, c: char)
    ensures
        s.contains(c) ==> !before_first(s, seq![c]).contains(c),
        forall|d: char| before_first(s, seq![c]).contains(d) ==> s.contains(d),
{
    lemma_first_match_from(s, seq![c], 0);
    lemma_occurs_char(s, c);
    let b = before_first(s, seq![c]);
    match first_match(s, seq![c]) {
        Some(k) => {
            if b.contains(c) {
                let j = choose|j: int| 0 <= j < b.len() && b[j] == c;
                assert(s.subrange(j, j + 1) =~= seq![c]);
                assert(matches_at(s, seq![c], j));
            }
            assert forall|d: char| b.contains(d) implies s.contains(d) by {
                let j = choose|j: int| 0 <= j < b.len() && b[j] == d;
                assert(s[j] == d);
            }
        },
        None => {
            assert(!occurs_in(seq![c], s)) by {
                if occurs_in(seq![c], s) {
                    let i = choose|i: int| matches_at(s, seq![c], i);
                    assert(false);
                }
            }
        },
    }
}

} // verus!
