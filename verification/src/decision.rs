use vstd::prelude::*;

use crate::region::{lemma_region_vs_is_selector, spec_region_vs, PanCJKVRegion};
use crate::selector::{is_vs, spec_is_vs};
use crate::tables::{is_han_script_lo_character, spec_is_han_script_lo};

verus! {

/// Index of the first Han-eligible scalar value of `s`, or `s.len()` when the
/// atom holds none.
pub open spec fn first_han_index(s: Seq<char>) -> int
    decreases s.len(),
{
    if s.len() == 0 {
        0
    } else if spec_is_han_script_lo(s[0]) {
        0
    } else {
        1 + first_han_index(s.skip(1))
    }
}

/// An atom counts as annotated when its first Han-eligible scalar value is
/// immediately followed by a variation selector -- any region's, since an
/// annotation selector is always placed directly after its base.
pub open spec fn cluster_annotated(s: Seq<char>) -> bool {
    let i = first_han_index(s);
    i + 1 < s.len() && spec_is_vs(s[i + 1])
}

/// The per-atom decision procedure on scalar-value sequences: find the first
/// Han-eligible scalar value; when there is none, or when it is already
/// followed by a variation selector, the atom is unchanged; otherwise the
/// bound selector `vs` is inserted immediately after the eligible base, every
/// other scalar value kept in its original order.
pub open spec fn annotated_seq(s: Seq<char>, vs: char) -> Seq<char> {
    let i = first_han_index(s);
    if i == s.len() {
        s
    } else if cluster_annotated(s) {
        s
    } else {
        s.take(i + 1) + seq![vs] + s.skip(i + 1)
    }
}

/// `first_han_index` lands within bounds, on an eligible scalar value when one
/// exists, and everything before it is ineligible.
pub proof fn lemma_first_han_index_bounds(s: Seq<char>)
    ensures
        0 <= first_han_index(s) <= s.len(),
        first_han_index(s) < s.len() ==> spec_is_han_script_lo(s[first_han_index(s)]),
        forall|j: int| 0 <= j < first_han_index(s) ==> !spec_is_han_script_lo(s[j]),
    decreases s.len(),
{
    if s.len() == 0 {
    } else if spec_is_han_script_lo(s[0]) {
    } else {
        lemma_first_han_index_bounds(s.skip(1));
        let i = first_han_index(s);
        assert(i == 1 + first_han_index(s.skip(1)));
        if i < s.len() {
            assert(s.skip(1)[i - 1] == s[i]);
        }
        assert forall|j: int| 0 <= j < i implies !spec_is_han_script_lo(s[j]) by {
            if j > 0 {
                assert(s.skip(1)[j - 1] == s[j]);
            }
        }
    }
}

/// Characterization: an index below which everything is ineligible, and which
/// is itself eligible (or the length), is the first Han-eligible index.
pub proof fn lemma_first_han_index_unique(s: Seq<char>, i: int)
    requires
        0 <= i <= s.len(),
        forall|j: int| 0 <= j < i ==> !spec_is_han_script_lo(s[j]),
        i < s.len() ==> spec_is_han_script_lo(s[i]),
    ensures
        first_han_index(s) == i,
    decreases s.len(),
{
    if s.len() == 0 {
    } else if spec_is_han_script_lo(s[0]) {
        assert(i == 0);
    } else {
        assert(i >= 1);
        assert forall|j: int| 0 <= j < i - 1 implies !spec_is_han_script_lo(s.skip(1)[j]) by {
            assert(s.skip(1)[j] == s[j + 1]);
        }
        if i - 1 < s.skip(1).len() {
            assert(s.skip(1)[i - 1] == s[i]);
        }
        lemma_first_han_index_unique(s.skip(1), i - 1);
    }
}

/// Non-Han passthrough: an atom holding no Han-eligible scalar value is left
/// exactly as it is, under any selector.
pub proof fn lemma_non_han_passthrough(s: Seq<char>, vs: char)
    requires
        forall|j: int| 0 <= j < s.len() ==> !spec_is_han_script_lo(s[j]),
    ensures
        annotated_seq(s, vs) == s,
{
    lemma_first_han_index_unique(s, s.len() as int);
}

/// An already-annotated atom is left exactly as it is, whichever region's
/// selector it carries and whichever selector is being applied.
pub proof fn lemma_annotated_cluster_unchanged(s: Seq<char>, vs: char)
    requires
        cluster_annotated(s),
    ensures
        annotated_seq(s, vs) == s,
{
}

/// One annotation pass with a genuine variation selector leaves nothing for a
/// further pass to do: the second pass returns its input unchanged.
pub proof fn lemma_annotate_stable(s: Seq<char>, vs1: char, vs2: char)
    requires
        spec_is_vs(vs1),
    ensures
        annotated_seq(annotated_seq(s, vs1), vs2) == annotated_seq(s, vs1),
{
    lemma_first_han_index_bounds(s);
    let i = first_han_index(s);
    if i == s.len() || cluster_annotated(s) {
    } else {
        let t = annotated_seq(s, vs1);
        assert(t == s.take(i + 1) + seq![vs1] + s.skip(i + 1));
        assert(t.len() == s.len() + 1);
        assert forall|j: int| 0 <= j < i implies !spec_is_han_script_lo(t[j]) by {
            assert(t[j] == s.take(i + 1)[j]);
        }
        assert(t[i] == s.take(i + 1)[i]);
        assert(spec_is_han_script_lo(t[i]));
        lemma_first_han_index_unique(t, i);
        assert(t[i + 1] == vs1);
        assert(cluster_annotated(t));
    }
}

/// Idempotence: annotating a second time with the same region changes nothing
/// more; no duplicate selector is ever inserted.
pub proof fn lemma_annotate_idempotent(s: Seq<char>, region: PanCJKVRegion)
    ensures
        annotated_seq(annotated_seq(s, spec_region_vs(region)), spec_region_vs(region))
            == annotated_seq(s, spec_region_vs(region)),
{
    lemma_region_vs_is_selector(region);
    lemma_annotate_stable(s, spec_region_vs(region), spec_region_vs(region));
}

/// Cross-region non-interference: an atom that came out of an annotation pass
/// for one region is left unchanged by a pass for any other region.
pub proof fn lemma_cross_region_non_interference(
    s: Seq<char>,
    done: PanCJKVRegion,
    applied: PanCJKVRegion,
)
    ensures
        annotated_seq(annotated_seq(s, spec_region_vs(done)), spec_region_vs(applied))
            == annotated_seq(s, spec_region_vs(done)),
{
    lemma_region_vs_is_selector(done);
    lemma_annotate_stable(s, spec_region_vs(done), spec_region_vs(applied));
}

/// Index of the first Han-eligible scalar value of `v`, or its length when
/// there is none.
fn find_first_han(v: &Vec<char>) -> (i: usize)
    ensures
        i <= v@.len(),
        i as int == first_han_index(v@),
{
    let n = v.len();
    let mut i: usize = 0;
    while i < n
        invariant
            n == v@.len(),
            i <= n,
            forall|j: int| 0 <= j < i ==> !spec_is_han_script_lo(v@[j]),
        decreases n - i,
    {
        if is_han_script_lo_character(v[i]) {
            proof {
                lemma_first_han_index_unique(v@, i as int);
            }
            return i;
        }
        i = i + 1;
    }
    proof {
        lemma_first_han_index_unique(v@, n as int);
    }
    n
}

/// Applies the decision procedure to one atom's scalar values: `None` when
/// the atom is to be yielded unchanged, otherwise the rebuilt sequence with
/// `vs` inserted immediately after the first Han-eligible scalar value.
pub fn rebuild_chars(v: &Vec<char>, vs: char) -> (res: Option<Vec<char>>)
    ensures
        res is None ==> annotated_seq(v@, vs) == v@,
        res matches Some(w) ==> w@ == annotated_seq(v@, vs) && w@ != v@,
{
    let n = v.len();
    let i = find_first_han(v);
    if i == n {
        None
    } else if i + 1 < n && is_vs(v[i + 1]) {
        proof {
            assert(cluster_annotated(v@));
        }
        None
    } else {
        let ghost t = annotated_seq(v@, vs);
        proof {
            assert(!cluster_annotated(v@));
            assert(t == v@.take(i + 1) + seq![vs] + v@.skip(i + 1));
        }
        let mut w: Vec<char> = Vec::new();
        let mut j: usize = 0;
        while j < i + 1
            invariant
                j <= i + 1,
                i < n,
                n == v@.len(),
                w@ == v@.take(j as int),
            decreases i + 1 - j,
        {
            w.push(v[j]);
            proof {
                assert(w@ =~= v@.take(j + 1));
            }
            j = j + 1;
        }
        w.push(vs);
        let mut k: usize = i + 1;
        while k < n
            invariant
                i + 1 <= k <= n,
                i < n,
                n == v@.len(),
                w@ == v@.take(i + 1) + seq![vs] + v@.subrange(i + 1, k as int),
            decreases n - k,
        {
            w.push(v[k]);
            proof {
                assert(w@ =~= v@.take(i + 1) + seq![vs] + v@.subrange(i + 1, k + 1));
            }
            k = k + 1;
        }
        proof {
            assert(v@.subrange(i + 1, n as int) =~= v@.skip(i + 1));
            assert(w@ == t);
            assert(t.len() != v@.len());
        }
        Some(w)
    }
}

} // verus!
