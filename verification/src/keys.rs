//! Order-insensitive comparison of key lists.

use vstd::prelude::*;
use vstd::multiset::Multiset;
use crate::text::strs;

verus! {

/// How many times `x` occurs in `s`.
pub open spec fn occurrences(s: Seq<Seq<char>>, x: Seq<char>) -> nat
    decreases s.len(),
{
    if s.len() == 0 {
        0
    } else {
        occurrences(s.drop_last(), x) + if s.last() == x { 1nat } else { 0nat }
    }
}

/// Whether two key lists hold different keys once their order is ignored.
pub open spec fn keys_differ(a: Seq<Seq<char>>, b: Seq<Seq<char>>) -> bool {
    a.to_multiset() != b.to_multiset()
}

/// The multiplicity of `x` in the multiset of `s` is the number of its occurrences.
pub proof fn lemma_occurrences_count(s: Seq<Seq<char>>, x: Seq<char>)
    ensures
        s.to_multiset().count(x) == occurrences(s, x),
    decreases s.len(),
{
    broadcast use vstd::seq_lib::group_to_multiset_ensures, vstd::multiset::group_multiset_axioms;
    if s.len() > 0 {
        lemma_occurrences_count(s.drop_last(), x);
        assert(s.drop_last().push(s.last()) =~= s);
    } else {
        assert(s.to_multiset() =~= Multiset::<Seq<char>>::empty()) by {
            assert(s.to_multiset().len() == 0);
        }
    }
}

/// Counts how often `x` occurs in `v`.
fn count_in(v: &Vec<String>, x: &String) -> (res: usize)
    ensures
        res == occurrences(strs(v@), x@),
{
    let n = v.len();
    let mut c: usize = 0;
    let mut i: usize = 0;
    while i < n
        invariant
            n == v.len(),
            i <= n,
            c <= i,
            c == occurrences(strs(v@).take(i as int), x@),
        decreases n - i,
    {
        assert(strs(v@).take(i + 1).drop_last() =~= strs(v@).take(i as int));
        if v[i] == *x {
            c = c + 1;
        }
        i = i + 1;
    }
    assert(strs(v@).take(n as int) =~= strs(v@));
    c
}

/// Whether `a` and `b` hold different keys, ignoring their order (the comparison of the two
/// lists once both are sorted).
pub fn key_lists_differ(a: &Vec<String>, b: &Vec<String>) -> (res: bool)
    ensures
        res == keys_differ(strs(a@), strs(b@)),
{
    broadcast use vstd::seq_lib::group_to_multiset_ensures, vstd::multiset::group_multiset_axioms;
    let ghost sa = strs(a@);
    let ghost sb = strs(b@);
    let na = a.len();
    let nb = b.len();
    let mut i: usize = 0;
    while i < na
        invariant
            na == a.len(),
            i <= na,
            sa == strs(a@),
            sb == strs(b@),
            forall|k: int| 0 <= k < i ==> occurrences(sa, #[trigger] sa[k]) == occurrences(sb, sa[k]),
        decreases na - i,
    {
        if count_in(a, &a[i]) != count_in(b, &a[i]) {
            proof {
                lemma_occurrences_count(sa, a@[i as int]@);
                lemma_occurrences_count(sb, a@[i as int]@);
            }
            return true;
        }
        i = i + 1;
    }
    let mut j: usize = 0;
    while j < nb
        invariant
            nb == b.len(),
            j <= nb,
            sa == strs(a@),
            sb == strs(b@),
            forall|k: int| 0 <= k < j ==> occurrences(sa, #[trigger] sb[k]) == occurrences(sb, sb[k]),
        decreases nb - j,
    {
        if count_in(a, &b[j]) != count_in(b, &b[j]) {
            proof {
                lemma_occurrences_count(sa, b@[j as int]@);
                lemma_occurrences_count(sb, b@[j as int]@);
            }
            return true;
        }
        j = j + 1;
    }
    proof {
        assert forall|x: Seq<char>| sa.to_multiset().count(x) == sb.to_multiset().count(x) by {
            lemma_occurrences_count(sa, x);
            lemma_occurrences_count(sb, x);
            if sa.contains(x) {
                let k = choose|k: int| 0 <= k < sa.len() && sa[k] == x;
                assert(occurrences(sa, sa[k]) == occurrences(sb, sa[k]));
            } else if sb.contains(x) {
                let k = choose|k: int| 0 <= k < sb.len() && sb[k] == x;
                assert(occurrences(sa, sb[k]) == occurrences(sb, sb[k]));
            }
        }
        assert(sa.to_multiset() =~= sb.to_multiset());
    }
    false
}

} // verus!
