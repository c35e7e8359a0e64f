//! Small text utilities shared by the archive reader and the sheet modules:
//! splitting a string at the last occurrence of a separator, exact string
//! comparison, and dropping empty strings from a list.

use vstd::prelude::*;
use vstd::string::StrSliceExecFns;

verus! {

/// The split of `s` at the last occurrence of `c`: the part before and the
/// part after that occurrence, the separator itself in neither. `None` when
/// `s` does not contain `c`.
pub open spec fn split_last(s: Seq<char>, c: char) -> Option<(Seq<char>, Seq<char>)>
    decreases s.len(),
{
    if s.len() == 0 {
        None
    } else if s.last() == c {
        Some((s.drop_last(), Seq::<char>::empty()))
    } else {
        match split_last(s.drop_last(), c) {
            None => None,
            Some(p) => Some((p.0, p.1.push(s.last()))),
        }
    }
}

proof fn lemma_split_last_none(s: Seq<char>, c: char)
    requires
        forall|j: int| 0 <= j < s.len() ==> s[j] != c,
    ensures
        split_last(s, c) is None,
    decreases s.len(),
{
    if s.len() > 0 {
        lemma_split_last_none(s.drop_last(), c);
    }
}

proof fn lemma_split_last_found(s: Seq<char>, c: char, k: int)
    requires
        0 <= k < s.len(),
        s[k] == c,
        forall|j: int| k < j < s.len() ==> s[j] != c,
    ensures
        split_last(s, c) == Some((s.subrange(0, k), s.subrange(k + 1, s.len() as int))),
    decreases s.len(),
{
    if k == s.len() - 1 {
        assert(s.drop_last() =~= s.subrange(0, k));
        assert(Seq::<char>::empty() =~= s.subrange(k + 1, s.len() as int));
    } else {
        lemma_split_last_found(s.drop_last(), c, k);
        assert(s.drop_last().subrange(0, k) =~= s.subrange(0, k));
        assert(s.drop_last().subrange(k + 1, s.len() - 1).push(s.last()) =~= s.subrange(
            k + 1,
            s.len() as int,
        ));
    }
}

/// Law: a successful split is a decomposition. The input is the part before,
/// the separator, then the part after, and the part after holds no further
/// separator — so the split really was at the last occurrence.
pub proof fn lemma_split_last_decomposition(s: Seq<char>, c: char)
    requires
        split_last(s, c) is Some,
    ensures
        ({
            let p = split_last(s, c)->Some_0;
            s == p.0 + seq![c] + p.1 && !p.1.contains(c)
        }),
    decreases s.len(),
{
    let p = split_last(s, c)->Some_0;
    if s.last() == c {
        assert(s =~= s.drop_last() + seq![c] + Seq::<char>::empty());
    } else {
        lemma_split_last_decomposition(s.drop_last(), c);
        let q = split_last(s.drop_last(), c)->Some_0;
        assert(s =~= s.drop_last().push(s.last()));
        assert(s =~= q.0 + seq![c] + q.1.push(s.last()));
        assert forall|j: int| 0 <= j < p.1.len() implies p.1[j] != c by {
            if j < q.1.len() {
                assert(!q.1.contains(c));
            }
        }
    }
}

/// Splits at the last occurrence of `c`, as [`split_last`] describes.
pub fn rsplit_once(s: &str, c: char) -> (r: Option<(String, String)>)
    ensures
        match r {
            Some(p) => split_last(s@, c) == Some((p.0@, p.1@)),
            None => split_last(s@, c) is None,
        },
{
    let n = s.unicode_len();
    let mut i = n;
    while i > 0
        invariant
            i <= n,
            n == s@.len(),
            forall|j: int| i <= j < n ==> s@[j] != c,
        decreases i,
    {
        if s.get_char(i - 1) == c {
            let pre = s.substring_char(0, i - 1).to_owned();
            let post = s.substring_char(i, n).to_owned();
            proof {
                lemma_split_last_found(s@, c, i - 1);
            }
            return Some((pre, post));
        }
        i = i - 1;
    }
    proof {
        lemma_split_last_none(s@, c);
    }
    None
}

/// Exact comparison of two string slices.
pub fn str_eq(a: &str, b: &str) -> (r: bool)
    ensures
        r <==> a@ == b@,
{
    let an = a.unicode_len();
    let bn = b.unicode_len();
    if an != bn {
        return false;
    }
    let mut i: usize = 0;
    while i < an
        invariant
            i <= an,
            an == a@.len(),
            an == b@.len(),
            forall|j: int| 0 <= j < i ==> a@[j] == b@[j],
        decreases an - i,
    {
        if a.get_char(i) != b.get_char(i) {
            return false;
        }
        i = i + 1;
    }
    proof {
        assert(a@ =~= b@);
    }
    true
}

/// Whether a string holds at least one character; empty strings are not
/// valid item names.
pub open spec fn is_non_empty(s: String) -> bool {
    s@.len() != 0
}

/// The subsequence of non-empty strings, in their original order.
pub open spec fn non_empty_of(v: Seq<String>) -> Seq<String> {
    v.filter(|s: String| is_non_empty(s))
}

/// Drops the empty strings from a list, keeping the order of the rest.
pub fn retain_non_empty(v: Vec<String>) -> (r: Vec<String>)
    ensures
        r@ == non_empty_of(v@),
        forall|i: int| 0 <= i < r@.len() ==> r@[i]@.len() != 0,
{
    let mut r: Vec<String> = Vec::new();
    let mut i: usize = 0;
    proof {
        reveal(Seq::filter);
        assert(v@.subrange(0, 0) =~= Seq::<String>::empty());
    }
    while i < v.len()
        invariant
            i <= v@.len(),
            r@ == v@.subrange(0, i as int).filter(|s: String| is_non_empty(s)),
        decreases v@.len() - i,
    {
        let keep = !v[i].as_str().is_empty();
        if keep {
            let s = v[i].clone();
            r.push(s);
        }
        proof {
            reveal(Seq::filter);
            assert(v@.subrange(0, i + 1).drop_last() =~= v@.subrange(0, i as int));
            assert(v@.subrange(0, i + 1).last() == v@[i as int]);
        }
        i = i + 1;
    }
    proof {
        assert(v@.subrange(0, v@.len() as int) =~= v@);
        broadcast use Seq::lemma_filter_pred;

    }
    r
}

} // verus!
