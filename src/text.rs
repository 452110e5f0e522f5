//! Character-sequence helpers shared by the resolvers.
use vstd::prelude::*;
use vstd::string::StrSliceExecFns;

verus! {

/// Reads the characters of `s` into a vector.
pub fn chars_of(s: &str) -> (r: Vec<char>)
    ensures
        r@ == s@,
{
    let n = s.unicode_len();
    let mut r: Vec<char> = Vec::new();
    let mut i: usize = 0;
    while i < n
        invariant
            n == s@.len(),
            i <= n,
            r@ == s@.subrange(0, i as int),
        decreases n - i,
    {
        r.push(s.get_char(i));
        i = i + 1;
    }
    assert(r@ =~= s@);
    r
}

/// Relies on `FromIterator<char> for String`: the string holds the given
/// characters, in order.
#[verifier::external_body]
pub(crate) fn string_from_chars(v: &Vec<char>) -> (r: String)
    ensures
        r@ == v@,
{
    v.iter().collect()
}

/// Whether `pat` occurs in `s` starting at position `i`.
pub open spec fn occurs_at(s: Seq<char>, i: int, pat: Seq<char>) -> bool {
    0 <= i && i + pat.len() <= s.len() && s.subrange(i, i + pat.len()) == pat
}

/// Whether `pat` occurs anywhere in `s`.
pub open spec fn contains_seq(s: Seq<char>, pat: Seq<char>) -> bool {
    exists|i: int| occurs_at(s, i, pat)
}

/// `s` with every occurrence of `pat` replaced by `rep`, scanning left to
/// right without overlap.
pub open spec fn replace_all(s: Seq<char>, pat: Seq<char>, rep: Seq<char>) -> Seq<char>
    decreases s.len(),
{
    if s.len() == 0 {
        s
    } else if pat.len() > 0 && occurs_at(s, 0, pat) {
        rep + replace_all(s.skip(pat.len() as int), pat, rep)
    } else {
        seq![s[0]] + replace_all(s.skip(1), pat, rep)
    }
}

/// The part of `s` after its last character that belongs to `seps`
/// (all of `s` when none does).
pub open spec fn after_last(s: Seq<char>, seps: Seq<char>) -> Seq<char>
    decreases s.len(),
{
    if s.len() == 0 {
        s
    } else if seps.contains(s.last()) {
        Seq::empty()
    } else {
        after_last(s.drop_last(), seps).push(s.last())
    }
}

/// Whether some character of `s` belongs to `seps`.
pub open spec fn has_any(s: Seq<char>, seps: Seq<char>) -> bool {
    exists|i: int| 0 <= i < s.len() && seps.contains(#[trigger] s[i])
}

/// The part of `s` before its first line feed (all of `s` when there is none).
pub open spec fn first_line(s: Seq<char>) -> Seq<char>
    decreases s.len(),
{
    if s.len() == 0 {
        s
    } else if s[0] == '\n' {
        Seq::empty()
    } else {
        seq![s[0]] + first_line(s.skip(1))
    }
}

/// Whether `pat` occurs in `s` at position `i`.
pub fn matches_at(s: &Vec<char>, i: usize, pat: &Vec<char>) -> (r: bool)
    ensures
        r == occurs_at(s@, i as int, pat@),
{
    if pat.len() > s.len() || i > s.len() - pat.len() {
        return false;
    }
    let mut k: usize = 0;
    while k < pat.len()
        invariant
            i + pat.len() <= s.len(),
            k <= pat.len(),
            forall|j: int| 0 <= j < k ==> s@[i + j] == pat@[j],
        decreases pat.len() - k,
    {
        if s[i + k] != pat[k] {
            assert(s@.subrange(i as int, i + pat.len())[k as int] != pat@[k as int]);
            return false;
        }
        k = k + 1;
    }
    assert(s@.subrange(i as int, i + pat.len()) =~= pat@);
    true
}

/// Whether `pat` occurs anywhere in `s`.
pub fn contains(s: &Vec<char>, pat: &Vec<char>) -> (r: bool)
    ensures
        r == contains_seq(s@, pat@),
{
    if pat.len() > s.len() {
        return false;
    }
    let last = s.len() - pat.len();
    let mut i: usize = 0;
    while i <= last
        invariant
            last + pat.len() == s.len(),
            forall|j: int| 0 <= j < i ==> !occurs_at(s@, j, pat@),
        decreases last + 1 - i,
    {
        if matches_at(s, i, pat) {
            return true;
        }
        if i == last {
            return false;
        }
        i = i + 1;
    }
    false
}

/// Replaces every occurrence of a non-empty `pat` in `s` by `rep`.
pub fn replace(s: &Vec<char>, pat: &Vec<char>, rep: &Vec<char>) -> (r: Vec<char>)
    requires
        pat@.len() > 0,
    ensures
        r@ == replace_all(s@, pat@, rep@),
{
    let mut r: Vec<char> = Vec::new();
    let mut i: usize = 0;
    assert(s@.skip(0) =~= s@);
    assert(r@ + replace_all(s@, pat@, rep@) =~= replace_all(s@, pat@, rep@));
    while i < s.len()
        invariant
            pat@.len() > 0,
            i <= s.len(),
            r@ + replace_all(s@.skip(i as int), pat@, rep@) == replace_all(s@, pat@, rep@),
        decreases s.len() - i,
    {
        let ghost rest = s@.skip(i as int);
        if matches_at(s, i, pat) {
            assert(rest.subrange(0, pat@.len() as int) =~= s@.subrange(i as int, i + pat@.len()));
            assert(rest.skip(pat@.len() as int) =~= s@.skip(i + pat@.len()));
            let mut k: usize = 0;
            let ghost before = r@;
            while k < rep.len()
                invariant
                    k <= rep.len(),
                    r@ == before + rep@.subrange(0, k as int),
                decreases rep.len() - k,
            {
                r.push(rep[k]);
                k = k + 1;
            }
            assert(rep@.subrange(0, rep@.len() as int) =~= rep@);
            assert(r@ + replace_all(s@.skip(i + pat@.len()), pat@, rep@) =~= before + (rep@
                + replace_all(rest.skip(pat@.len() as int), pat@, rep@)));
            i = i + pat.len();
        } else {
            assert(!occurs_at(rest, 0, pat@)) by {
                if pat@.len() <= rest.len() {
                    assert(rest.subrange(0, pat@.len() as int) =~= s@.subrange(
                        i as int,
                        i + pat@.len(),
                    ));
                }
            }
            assert(rest.skip(1) =~= s@.skip(i + 1));
            let ghost before = r@;
            r.push(s[i]);
            assert(r@ + replace_all(s@.skip(i + 1), pat@, rep@) =~= before + (seq![rest[0]]
                + replace_all(rest.skip(1), pat@, rep@)));
            i = i + 1;
        }
    }
    assert(s@.skip(i as int) =~= Seq::<char>::empty());
    assert(r@ + Seq::<char>::empty() =~= r@);
    r
}

/// Whether `c` is one of `set`.
pub fn is_one_of(c: char, set: &Vec<char>) -> (r: bool)
    ensures
        r == set@.contains(c),
{
    let mut k: usize = 0;
    while k < set.len()
        invariant
            k <= set.len(),
            forall|j: int| 0 <= j < k ==> set@[j] != c,
        decreases set.len() - k,
    {
        if set[k] == c {
            return true;
        }
        k = k + 1;
    }
    false
}

/// The part of `s` after its last character that belongs to `seps`, and
/// whether there was such a character.
pub fn split_after_last(s: &Vec<char>, seps: &Vec<char>) -> (r: (Vec<char>, bool))
    ensures
        r.0@ == after_last(s@, seps@),
        r.1 == has_any(s@, seps@),
{
    let mut i: usize = s.len();
    assert(s@.subrange(0, i as int) =~= s@);
    assert(s@.skip(i as int) =~= Seq::<char>::empty());
    while i > 0
        invariant
            i <= s.len(),
            forall|j: int| i <= j < s.len() ==> !seps@.contains(#[trigger] s@[j]),
            after_last(s@, seps@) == after_last(s@.subrange(0, i as int), seps@) + s@.skip(
                i as int,
            ),
        decreases i,
    {
        let ghost pre = s@.subrange(0, i as int);
        assert(pre.last() == s@[i - 1]);
        assert(pre.drop_last() =~= s@.subrange(0, i - 1));
        if is_one_of(s[i - 1], seps) {
            let mut r: Vec<char> = Vec::new();
            let mut k: usize = i;
            while k < s.len()
                invariant
                    i <= k <= s.len(),
                    r@ == s@.subrange(i as int, k as int),
                decreases s.len() - k,
            {
                r.push(s[k]);
                k = k + 1;
            }
            assert(r@ =~= s@.skip(i as int));
            assert(Seq::<char>::empty() + s@.skip(i as int) =~= s@.skip(i as int));
            return (r, true);
        }
        assert(after_last(pre.drop_last(), seps@).push(pre.last()) + s@.skip(i as int)
            =~= after_last(s@.subrange(0, i - 1), seps@) + s@.skip(i - 1));
        i = i - 1;
    }
    assert(Seq::<char>::empty() + s@.skip(0) =~= s@);
    (s.clone(), false)
}

/// The characters of `s` before its first line feed.
pub fn first_line_of(s: &Vec<char>) -> (r: Vec<char>)
    ensures
        r@ == first_line(s@),
{
    let mut r: Vec<char> = Vec::new();
    let mut i: usize = 0;
    assert(s@.skip(0) =~= s@);
    while i < s.len() && s[i] != '\n'
        invariant
            i <= s.len(),
            r@ == s@.subrange(0, i as int),
            first_line(s@) == r@ + first_line(s@.skip(i as int)),
        decreases s.len() - i,
    {
        let ghost rest = s@.skip(i as int);
        assert(rest.skip(1) =~= s@.skip(i + 1));
        r.push(s[i]);
        assert(r@ + first_line(s@.skip(i + 1)) =~= s@.subrange(0, i as int) + (seq![rest[0]]
            + first_line(rest.skip(1))));
        i = i + 1;
    }
    assert(r@ + Seq::<char>::empty() =~= r@);
    r
}

/// Whether `a` and `b` hold the same characters.
pub fn same_chars(a: &Vec<char>, b: &Vec<char>) -> (r: bool)
    ensures
        r == (a@ == b@),
{
    if a.len() != b.len() {
        return false;
    }
    let r = matches_at(a, 0, b);
    assert(a@.subrange(0, b@.len() as int) =~= a@);
    r
}

/// Whether the text `a` reads the same as `b`.
pub fn same_text(a: &str, b: &str) -> (r: bool)
    ensures
        r == (a@ == b@),
{
    same_chars(&chars_of(a), &chars_of(b))
}

/// `s` without one trailing carriage return.
pub open spec fn without_cr(s: Seq<char>) -> Seq<char> {
    if s.len() > 0 && s.last() == '\r' {
        s.drop_last()
    } else {
        s
    }
}

/// Drops one trailing carriage return from `s`.
pub fn strip_cr(s: &mut Vec<char>)
    ensures
        final(s)@ == without_cr(old(s)@),
{
    if s.len() > 0 && s[s.len() - 1] == '\r' {
        s.pop();
    }
}

/// The characters of `s` from position `k` on.
pub fn tail_from(s: &Vec<char>, k: usize) -> (r: Vec<char>)
    requires
        k <= s@.len(),
    ensures
        r@ == s@.skip(k as int),
{
    let mut r: Vec<char> = Vec::new();
    let mut i: usize = k;
    while i < s.len()
        invariant
            k <= i <= s.len(),
            r@ == s@.subrange(k as int, i as int),
        decreases s.len() - i,
    {
        r.push(s[i]);
        i = i + 1;
    }
    assert(r@ =~= s@.skip(k as int));
    r
}

} // verus!
