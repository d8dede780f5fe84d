use vstd::prelude::*;

use runestr::rune;

use crate::decision::{
    annotated_seq, lemma_first_han_index_unique, rebuild_chars,
};
use crate::region::{region_vs, spec_region_vs, PanCJKVRegion};
use crate::runes::{rune_chars, rune_cluster, rune_from_chars, rune_into_char, rune_to_chars};
use crate::tables::is_han_script_lo_character;

verus! {

/// Failure to rebuild an atom: the atom constructor refused the scalar-value
/// sequence because it is not one well-formed grapheme cluster. Never raised
/// for an atom that is yielded unchanged.
#[derive(Clone, Copy, Debug, PartialEq, Eq, Structural)]
pub enum AnnotateError {
    /// The rebuilt scalar-value sequence does not form a single cluster.
    MalformedCluster,
}

/// How one produced atom `o` relates to the consumed atom `a` under the bound
/// selector `vs`: an atom the decision procedure leaves unchanged comes back
/// as the identical atom; otherwise the rebuilt sequence goes through the
/// atom constructor, whose refusal is surfaced as `MalformedCluster`.
pub open spec fn is_annotated_outcome(a: rune, vs: char, o: Result<rune, AnnotateError>) -> bool {
    let s = rune_chars(a);
    let t = annotated_seq(s, vs);
    &&& (t == s ==> o == Ok::<rune, AnnotateError>(a))
    &&& (o is Err <==> t != s && rune_cluster(t) is None)
    &&& (o matches Ok(b) ==> (t != s ==> Some(rune_chars(b)) == rune_cluster(t)))
}

/// The per-atom decision procedure. A simple atom whose scalar value is
/// Han-eligible becomes the cluster of that value followed by `vs`; a cluster
/// atom has `vs` inserted immediately after its first Han-eligible scalar
/// value, unless that value is already followed by a variation selector or
/// the atom holds no eligible value at all, in which case the atom is yielded
/// unchanged.
pub fn annotate_rune(r: rune, vs: char) -> (res: Result<rune, AnnotateError>)
    ensures
        is_annotated_outcome(r, vs, res),
{
    let c_opt = rune_into_char(r);
    match c_opt {
        Some(ch) => {
            let ghost s = rune_chars(r);
            if is_han_script_lo_character(ch) {
                proof {
                    lemma_first_han_index_unique(s, 0);
                    assert(annotated_seq(s, vs) =~= seq![ch, vs]);
                }
                let mut w: Vec<char> = Vec::new();
                w.push(ch);
                w.push(vs);
                proof {
                    assert(w@ =~= seq![ch, vs]);
                }
                match rune_from_chars(&w) {
                    Some(out) => Ok(out),
                    None => Err(AnnotateError::MalformedCluster),
                }
            } else {
                proof {
                    lemma_first_han_index_unique(s, 1);
                }
                Ok(r)
            }
        },
        None => {
            let chars = rune_to_chars(r);
            match rebuild_chars(&chars, vs) {
                Some(w) => match rune_from_chars(&w) {
                    Some(out) => Ok(out),
                    None => Err(AnnotateError::MalformedCluster),
                },
                None => Ok(r),
            }
        },
    }
}

/// The annotating transform: wraps a source sequence of atoms and the one
/// selector resolved at construction, and hands atoms back one at a time,
/// each run through the decision procedure -- no reordering, no merging, no
/// atom dropped or duplicated.
#[derive(Debug)]
pub struct PanCJKVAnnotateIter {
    runes: Vec<rune>,
    pos: usize,
    region_vs: char,
}

impl PanCJKVAnnotateIter {
    /// The source atoms, in order.
    pub closed spec fn source(self) -> Seq<rune> {
        self.runes@
    }

    /// How many source atoms have been consumed so far.
    pub closed spec fn position(self) -> int {
        self.pos as int
    }

    /// The bound variation selector, resolved once at construction.
    pub closed spec fn selector(self) -> char {
        self.region_vs
    }

    /// The cursor never passes the end of the source.
    pub open spec fn wf(self) -> bool {
        0 <= self.position() <= self.source().len()
    }

    /// Pulls the next atom: `None` exactly when the source is exhausted,
    /// otherwise exactly one outcome for the next source atom, which is
    /// consumed.
    pub fn next(&mut self) -> (res: Option<Result<rune, AnnotateError>>)
        requires
            old(self).wf(),
        ensures
            final(self).wf(),
            final(self).source() == old(self).source(),
            final(self).selector() == old(self).selector(),
            res is None <==> old(self).position() == old(self).source().len(),
            res is None ==> final(self).position() == old(self).position(),
            res matches Some(o) ==> final(self).position() == old(self).position() + 1
                && is_annotated_outcome(
                old(self).source()[old(self).position()],
                old(self).selector(),
                o,
            ),
    {
        if self.pos < self.runes.len() {
            let r = self.runes[self.pos];
            self.pos = self.pos + 1;
            Some(annotate_rune(r, self.region_vs))
        } else {
            None
        }
    }

    /// Drains the transform: one outcome per remaining source atom, in source
    /// order -- the output has exactly as many entries as the source had
    /// atoms left, and entry `k` is the outcome for source atom `k`.
    pub fn annotate_all(&mut self) -> (out: Vec<Result<rune, AnnotateError>>)
        requires
            old(self).wf(),
        ensures
            final(self).wf(),
            final(self).source() == old(self).source(),
            final(self).selector() == old(self).selector(),
            final(self).position() == final(self).source().len(),
            out@.len() == old(self).source().len() - old(self).position(),
            forall|k: int|
                0 <= k < out@.len() ==> is_annotated_outcome(
                    old(self).source()[old(self).position() + k],
                    old(self).selector(),
                    out@[k],
                ),
    {
        let mut out: Vec<Result<rune, AnnotateError>> = Vec::new();
        while self.pos < self.runes.len()
            invariant
                self.wf(),
                self.source() == old(self).source(),
                self.selector() == old(self).selector(),
                old(self).position() <= self.position(),
                out@.len() == self.position() - old(self).position(),
                forall|k: int|
                    0 <= k < out@.len() ==> is_annotated_outcome(
                        old(self).source()[old(self).position() + k],
                        old(self).selector(),
                        out@[k],
                    ),
            decreases self.source().len() - self.position(),
        {
            let o = self.next();
            match o {
                Some(x) => {
                    out.push(x);
                },
                None => {
                    vstd::pervasive::unreached()
                },
            }
        }
        out
    }
}

/// Entry point of the transform: binds a source of atoms to a region's
/// selector, looked up once in the region table.
pub trait PanCJKVAnnotate: Sized {
    /// The atoms the source will hand to the transform, in order.
    spec fn atoms(self) -> Seq<rune>;

    /// Binds `self` to `region`'s selector and returns the annotating
    /// transform, positioned at the first atom.
    fn annotate_with_pan_cjkv_region(self, region: PanCJKVRegion) -> (it: PanCJKVAnnotateIter)
        ensures
            it.wf(),
            it.source() == self.atoms(),
            it.position() == 0,
            it.selector() == spec_region_vs(region),
    ;
}

impl PanCJKVAnnotate for Vec<rune> {
    open spec fn atoms(self) -> Seq<rune> {
        self@
    }

    fn annotate_with_pan_cjkv_region(self, region: PanCJKVRegion) -> (it: PanCJKVAnnotateIter) {
        PanCJKVAnnotateIter { runes: self, pos: 0, region_vs: region_vs(region) }
    }
}

} // verus!
