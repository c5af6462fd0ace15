//! Executable routines on character vectors, each proved against the text
//! model.

use vstd::prelude::*;
use crate::text::{
    before_first, begins_with, byte_length, first_match, first_match_from, interleaved, is_space,
    lemma_first_char, lemma_no_char, lemma_occurs_iff_first_match, matches_at, occurs_in, replaced,
    split_by, split_once_at, trimmed, trimmed_end, trimmed_start, without,
};

verus! {

/// `String::push` of the standard library: appends one character to the end
/// of the string and changes nothing else.
pub assume_specification[ String::push ](s: &mut String, ch: char)
    ensures
        final(s)@ == old(s)@.push(ch),
;

/// The number of bytes that `s` takes.
pub fn count_bytes(s: &str) -> (n: usize)
    ensures
        n == byte_length(s@),
{
    s.len()
}

/// The characters of `s`, in order.
pub fn to_chars(s: &str) -> (v: Vec<char>)
    ensures
        v@ == s@,
{
    let n: usize = s.unicode_len();
    let mut v: Vec<char> = Vec::new();
    let mut i: usize = 0;
    while i < n
        invariant
            n == s@.len(),
            i <= n,
            v@ == s@.subrange(0, i as int),
        decreases n - i,
    {
        let c = s.get_char(i);
        v.push(c);
        i = i + 1;
        assert(v@ =~= s@.subrange(0, i as int));
    }
    assert(s@.subrange(0, n as int) =~= s@);
    v
}

/// The string spelled by the characters of `v`.
pub fn to_text(v: &Vec<char>) -> (s: String)
    ensures
        s@ == v@,
{
    let mut s = String::new();
    let mut i: usize = 0;
    while i < v.len()
        invariant
            i <= v.len(),
            s@ == v@.subrange(0, i as int),
        decreases v.len() - i,
    {
        s.push(v[i]);
        i = i + 1;
        assert(s@ =~= v@.subrange(0, i as int));
    }
    assert(v@.subrange(0, v.len() as int) =~= v@);
    s
}

/// The characters of `s` from position `a` up to, not including, `b`.
pub fn slice_chars(s: &Vec<char>, a: usize, b: usize) -> (r: Vec<char>)
    requires
        a <= b <= s.len(),
    ensures
        r@ == s@.subrange(a as int, b as int),
{
    let mut r: Vec<char> = Vec::new();
    let mut i: usize = a;
    while i < b
        invariant
            a <= i <= b <= s.len(),
            r@ == s@.subrange(a as int, i as int),
        decreases b - i,
    {
        r.push(s[i]);
        i = i + 1;
        assert(r@ =~= s@.subrange(a as int, i as int));
    }
    r
}

/// Appends the characters of `src` to `dst`.
pub fn extend_chars(dst: &mut Vec<char>, src: &Vec<char>)
    ensures
        final(dst)@ == old(dst)@ + src@,
{
    let mut i: usize = 0;
    while i < src.len()
        invariant
            i <= src.len(),
            dst@ == old(dst)@ + src@.subrange(0, i as int),
        decreases src.len() - i,
    {
        dst.push(src[i]);
        i = i + 1;
        assert(dst@ =~= old(dst)@ + src@.subrange(0, i as int));
    }
    assert(src@.subrange(0, src.len() as int) =~= src@);
}

/// `a` followed by `b`.
pub fn join_chars(a: &Vec<char>, b: &Vec<char>) -> (r: Vec<char>)
    ensures
        r@ == a@ + b@,
{
    let mut r: Vec<char> = Vec::new();
    extend_chars(&mut r, a);
    extend_chars(&mut r, b);
    assert(r@ =~= a@ + b@);
    r
}

/// Whether two texts are the same.
pub fn same_chars(a: &Vec<char>, b: &Vec<char>) -> (r: bool)
    ensures
        r == (a@ == b@),
{
    if a.len() != b.len() {
        return false;
    }
    let mut i: usize = 0;
    while i < a.len()
        invariant
            i <= a.len(),
            a.len() == b.len(),
            forall|k: int| 0 <= k < i ==> a@[k] == b@[k],
        decreases a.len() - i,
    {
        if a[i] != b[i] {
            return false;
        }
        i = i + 1;
    }
    assert(a@ =~= b@);
    true
}

/// Whether `pat` stands in `s` at position `i`.
pub fn check_match_at(s: &Vec<char>, pat: &Vec<char>, i: usize) -> (r: bool)
    ensures
        r == matches_at(s@, pat@, i as int),
{
    if pat.len() > s.len() || i > s.len() - pat.len() {
        return false;
    }
    let mut j: usize = 0;
    while j < pat.len()
        invariant
            j <= pat.len(),
            i + pat.len() <= s.len(),
            forall|k: int| 0 <= k < j ==> s@[i + k] == pat@[k],
        decreases pat.len() - j,
    {
        if s[i + j] != pat[j] {
            assert(s@.subrange(i as int, i + pat.len())[j as int] == s@[i + j]);
            return false;
        }
        j = j + 1;
    }
    assert(s@.subrange(i as int, i + pat.len()) =~= pat@);
    true
}

/// Whether `s` begins with `pat`.
pub fn starts_with_text(s: &Vec<char>, pat: &Vec<char>) -> (r: bool)
    ensures
        r == begins_with(s@, pat@),
{
    check_match_at(s, pat, 0)
}

/// The first position at which `pat` stands in `s`.
pub fn find_text(s: &Vec<char>, pat: &Vec<char>) -> (r: Option<usize>)
    ensures
        match r {
            Some(k) => first_match(s@, pat@) == Some(k as int),
            None => first_match(s@, pat@) is None,
        },
{
    if pat.len() > s.len() {
        return None;
    }
    let last: usize = s.len() - pat.len();
    let mut i: usize = 0;
    loop
        invariant
            last == s.len() - pat.len(),
            i <= last,
            first_match(s@, pat@) == first_match_from(s@, pat@, i as int),
        decreases last - i,
    {
        if check_match_at(s, pat, i) {
            return Some(i);
        }
        if i == last {
            assert(first_match_from(s@, pat@, i + 1) is None);
            return None;
        }
        i = i + 1;
    }
}

/// Whether `pat` stands somewhere in `s`.
pub fn contains_text(s: &Vec<char>, pat: &Vec<char>) -> (r: bool)
    ensures
        r == occurs_in(pat@, s@),
{
    proof {
        lemma_occurs_iff_first_match(s@, pat@);
    }
    find_text(s, pat).is_some()
}

/// Whether the character `c` stands somewhere in `s`.
pub fn contains_char(s: &Vec<char>, c: char) -> (r: bool)
    ensures
        r == s@.contains(c),
{
    let mut i: usize = 0;
    while i < s.len()
        invariant
            i <= s.len(),
            forall|k: int| 0 <= k < i ==> s@[k] != c,
        decreases s.len() - i,
    {
        if s[i] == c {
            return true;
        }
        i = i + 1;
    }
    false
}

/// `s` without the character `c`.
pub fn strip_char(s: &Vec<char>, c: char) -> (r: Vec<char>)
    ensures
        r@ == without(s@, c),
{
    let mut r: Vec<char> = Vec::new();
    let mut i: usize = 0;
    assert(s@.subrange(0, s.len() as int) =~= s@);
    while i < s.len()
        invariant
            i <= s.len(),
            without(s@, c) == r@ + without(s@.subrange(i as int, s.len() as int), c),
        decreases s.len() - i,
    {
        let ghost rest = s@.subrange(i as int, s.len() as int);
        assert(rest.subrange(1, rest.len() as int) =~= s@.subrange(i + 1, s.len() as int));
        assert(rest[0] == s@[i as int]);
        if s[i] != c {
            r.push(s[i]);
        }
        i = i + 1;
        assert(without(s@, c) =~= r@ + without(s@.subrange(i as int, s.len() as int), c));
    }
    assert(without(s@, c) =~= r@);
    r
}

/// `s` with every occurrence of `from` replaced by `to`.
pub fn replace_text(s: &Vec<char>, from: &Vec<char>, to: &Vec<char>) -> (r: Vec<char>)
    ensures
        r@ == replaced(s@, from@, to@),
{
    let mut r: Vec<char> = Vec::new();
    let mut i: usize = 0;
    assert(s@.subrange(0, s.len() as int) =~= s@);
    if from.len() == 0 {
        extend_chars(&mut r, to);
        assert(r@ =~= to@);
        while i < s.len()
            invariant
                i <= s.len(),
                from@.len() == 0,
                interleaved(s@, to@) == r@.subrange(0, r@.len() - to@.len()) + interleaved(
                    s@.subrange(i as int, s.len() as int),
                    to@,
                ),
                r@.len() >= to@.len(),
                r@.subrange(r@.len() - to@.len(), r@.len() as int) == to@,
            decreases s.len() - i,
        {
            let ghost before = r@;
            let ghost rest = s@.subrange(i as int, s.len() as int);
            assert(rest.subrange(1, rest.len() as int) =~= s@.subrange(i + 1, s.len() as int));
            r.push(s[i]);
            extend_chars(&mut r, to);
            i = i + 1;
            assert(r@ =~= before + seq![rest[0]] + to@);
            assert(r@.subrange(0, r@.len() - to@.len()) =~= before.subrange(
                0,
                before.len() - to@.len(),
            ) + to@ + seq![rest[0]]);
            assert(r@.subrange(r@.len() - to@.len(), r@.len() as int) =~= to@);
            assert(interleaved(s@, to@) =~= r@.subrange(0, r@.len() - to@.len()) + interleaved(
                s@.subrange(i as int, s.len() as int),
                to@,
            ));
        }
        assert(interleaved(s@, to@) =~= r@);
        return r;
    }
    while i < s.len()
        invariant
            i <= s.len(),
            from@.len() > 0,
            replaced(s@, from@, to@) == r@ + replaced(
                s@.subrange(i as int, s.len() as int),
                from@,
                to@,
            ),
        decreases s.len() - i,
    {
        let ghost rest = s@.subrange(i as int, s.len() as int);
        let ghost before = r@;
        let hit = check_match_at(s, from, i);
        proof {
            if i + from@.len() <= s@.len() {
                assert(rest.subrange(0, from@.len() as int) =~= s@.subrange(
                    i as int,
                    i + from@.len(),
                ));
            }
            assert(hit == matches_at(rest, from@, 0));
        }
        if hit {
            extend_chars(&mut r, to);
            i = i + from.len();
            assert(rest.subrange(from@.len() as int, rest.len() as int) =~= s@.subrange(
                i as int,
                s.len() as int,
            ));
        } else if s.len() - i < from.len() {
            let tail = slice_chars(s, i, s.len());
            extend_chars(&mut r, &tail);
            i = s.len();
            assert(replaced(s@.subrange(i as int, s.len() as int), from@, to@) =~= Seq::<
                char,
            >::empty());
        } else {
            r.push(s[i]);
            i = i + 1;
            assert(rest.subrange(1, rest.len() as int) =~= s@.subrange(i as int, s.len() as int));
            assert(r@ =~= before + seq![rest[0]]);
        }
        assert(replaced(s@, from@, to@) =~= r@ + replaced(
            s@.subrange(i as int, s.len() as int),
            from@,
            to@,
        ));
    }
    assert(replaced(s@, from@, to@) =~= r@);
    r
}

/// The two parts of `s` around the first occurrence of `pat`.
pub fn split_once_text(s: &Vec<char>, pat: &Vec<char>) -> (r: Option<(Vec<char>, Vec<char>)>)
    ensures
        match r {
            Some((left, right)) => split_once_at(s@, pat@) == Some((left@, right@)),
            None => split_once_at(s@, pat@) is None,
        },
{
    proof {
        lemma_occurs_iff_first_match(s@, pat@);
    }
    match find_text(s, pat) {
        Some(k) => {
            let n: usize = s.len();
            let m: usize = pat.len();
            assert(k + m <= n);
            let left = slice_chars(s, 0, k);
            let right = slice_chars(s, k + m, n);
            Some((left, right))
        },
        None => None,
    }
}

/// What stands in `s` before the first occurrence of `pat`.
pub fn cut_before(s: &Vec<char>, pat: &Vec<char>) -> (r: Vec<char>)
    ensures
        r@ == before_first(s@, pat@),
{
    proof {
        lemma_occurs_iff_first_match(s@, pat@);
    }
    match find_text(s, pat) {
        Some(k) => slice_chars(s, 0, k),
        None => {
            let r = slice_chars(s, 0, s.len());
            assert(s@.subrange(0, s.len() as int) =~= s@);
            r
        },
    }
}

/// Whether `c` is white space.
pub fn check_space(c: char) -> (r: bool)
    ensures
        r == is_space(c),
{
    let n: u32 = c as u32;
    (0x09 <= n && n <= 0x0d) || n == 0x20 || n == 0x85 || n == 0xa0 || n == 0x1680 || (0x2000 <= n
        && n <= 0x200a) || n == 0x2028 || n == 0x2029 || n == 0x202f || n == 0x205f || n == 0x3000
}

/// `s` without the white space at either end.
pub fn trim_text(s: &Vec<char>) -> (r: Vec<char>)
    ensures
        r@ == trimmed(s@),
{
    let mut a: usize = 0;
    assert(s@.subrange(0, s.len() as int) =~= s@);
    while a < s.len() && check_space(s[a])
        invariant
            a <= s.len(),
            trimmed_start(s@) == trimmed_start(s@.subrange(a as int, s.len() as int)),
        decreases s.len() - a,
    {
        let ghost rest = s@.subrange(a as int, s.len() as int);
        assert(rest.subrange(1, rest.len() as int) =~= s@.subrange(a + 1, s.len() as int));
        a = a + 1;
    }
    let mut b: usize = s.len();
    while b > a && check_space(s[b - 1])
        invariant
            a <= b <= s.len(),
            trimmed_start(s@) == s@.subrange(a as int, s.len() as int),
            trimmed(s@) == trimmed_end(s@.subrange(a as int, b as int)),
        decreases b - a,
    {
        let ghost part = s@.subrange(a as int, b as int);
        assert(part.subrange(0, part.len() - 1) =~= s@.subrange(a as int, b - 1));
        b = b - 1;
    }
    slice_chars(s, a, b)
}

/// The pieces of `s` between the occurrences of the character `d`.
pub fn split_text(s: &Vec<char>, d: char) -> (r: Vec<Vec<char>>)
    ensures
        r.deep_view() == split_by(s@, d),
{
    let mut r: Vec<Vec<char>> = Vec::new();
    let mut piece: Vec<char> = Vec::new();
    let mut start: usize = 0;
    let mut i: usize = 0;
    assert(s@.subrange(0, s.len() as int) =~= s@);
    assert(r.deep_view() =~= Seq::<Seq<char>>::empty());
    while i < s.len()
        invariant
            start <= i <= s.len(),
            piece@ == s@.subrange(start as int, i as int),
            !piece@.contains(d),
            split_by(s@, d) == r.deep_view() + split_by(
                s@.subrange(start as int, s.len() as int),
                d,
            ),
        decreases s.len() - i,
    {
        if s[i] == d {
            proof {
                let rest = s@.subrange(start as int, s.len() as int);
                lemma_first_char(rest, d, i - start);
                assert(rest.subrange(0, i - start) =~= piece@);
                assert(rest.subrange(i - start + 1, rest.len() as int) =~= s@.subrange(
                    i + 1,
                    s.len() as int,
                ));
            }
            let ghost before = r.deep_view();
            r.push(piece);
            assert(r.deep_view() =~~= before + seq![s@.subrange(start as int, i as int)]);
            piece = Vec::new();
            start = i + 1;
            assert(piece@ =~= s@.subrange(start as int, i + 1));
        } else {
            let ghost before = piece@;
            piece.push(s[i]);
            assert(piece@ =~= s@.subrange(start as int, i + 1));
            assert forall|k: int| 0 <= k < piece@.len() implies piece@[k] != d by {
                if k < before.len() {
                    assert(before.contains(before[k]));
                }
            }
        }
        i = i + 1;
    }
    proof {
        let rest = s@.subrange(start as int, s.len() as int);
        lemma_no_char(rest, d);
    }
    let ghost before = r.deep_view();
    r.push(piece);
    assert(r.deep_view() =~~= before + seq![s@.subrange(start as int, s.len() as int)]);
    r
}

} // verus!
