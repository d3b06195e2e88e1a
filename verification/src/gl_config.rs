//! Deterministic selection of a rendering-surface configuration.
//!
//! The native display enumerates candidate configurations; the choice
//! among them must not depend on enumeration order: transparency support
//! dominates, then the smaller multisample count wins.

use vstd::prelude::*;

verus! {

/// What the enumeration of native rendering configurations reports of one
/// candidate: whether it supports transparency, and its multisample count.
#[derive(Clone, Copy, Debug, PartialEq, Eq, Structural)]
pub struct GlConfigCandidate {
    pub supports_transparency: bool,
    pub num_samples: u8,
}

/// Strict preference between candidates: transparency support dominates;
/// among candidates with equal transparency support, fewer multisample
/// samples win, minimizing anti-aliasing overhead.
pub open spec fn spec_prefer(a: GlConfigCandidate, b: GlConfigCandidate) -> bool {
    (a.supports_transparency && !b.supports_transparency) || (a.supports_transparency
        == b.supports_transparency && a.num_samples < b.num_samples)
}

/// `i` points at the selected candidate of `s`: no candidate of `s` is
/// preferred over it, and it is the first with its exact attributes.
pub open spec fn spec_is_selected(s: Seq<GlConfigCandidate>, i: int) -> bool {
    &&& 0 <= i < s.len()
    &&& forall|j: int| 0 <= j < s.len() ==> !spec_prefer(s[j], s[i])
    &&& forall|j: int| 0 <= j < i ==> s[j] != s[i]
}

/// The preference order is transitive.
pub proof fn lemma_prefer_transitive(a: GlConfigCandidate, b: GlConfigCandidate, c: GlConfigCandidate)
    requires
        spec_prefer(a, b),
        spec_prefer(b, c),
    ensures
        spec_prefer(a, c),
{
}

/// Candidates neither of which is preferred over the other carry exactly
/// the same attributes: the preference order is total up to equality.
pub proof fn lemma_prefer_total(a: GlConfigCandidate, b: GlConfigCandidate)
    requires
        !spec_prefer(a, b),
        !spec_prefer(b, a),
    ensures
        a == b,
{
}

/// Decides whether `a` is strictly preferred over `b`.
pub fn prefer_candidate(a: GlConfigCandidate, b: GlConfigCandidate) -> (r: bool)
    ensures
        r == spec_prefer(a, b),
{
    (a.supports_transparency && !b.supports_transparency) || (a.supports_transparency
        == b.supports_transparency && a.num_samples < b.num_samples)
}

/// Selects the rendering configuration: `None` exactly when no candidate
/// was enumerated, otherwise the first candidate over which none is
/// preferred.
pub fn select_config(candidates: &Vec<GlConfigCandidate>) -> (r: Option<usize>)
    ensures
        (r is None) <==> candidates@.len() == 0,
        r matches Some(i) ==> spec_is_selected(candidates@, i as int),
{
    if candidates.len() == 0 {
        return None;
    }
    let mut best: usize = 0;
    let mut k: usize = 1;
    while k < candidates.len()
        invariant
            0 < k <= candidates@.len(),
            best < k,
            forall|j: int| 0 <= j < k ==> !spec_prefer(candidates@[j], candidates@[best as int]),
            forall|j: int| 0 <= j < best ==> candidates@[j] != candidates@[best as int],
        decreases candidates@.len() - k,
    {
        if prefer_candidate(candidates[k], candidates[best]) {
            proof {
                assert forall|j: int| 0 <= j < k implies !spec_prefer(
                    candidates@[j],
                    candidates@[k as int],
                ) by {
                    if spec_prefer(candidates@[j], candidates@[k as int]) {
                        lemma_prefer_transitive(
                            candidates@[j],
                            candidates@[k as int],
                            candidates@[best as int],
                        );
                    }
                }
            }
            best = k;
        }
        k = k + 1;
    }
    Some(best)
}

/// The selected candidate supports transparency exactly when any
/// candidate does, and among the candidates with that transparency
/// support it carries the smallest multisample count.
pub proof fn lemma_selected_attributes(s: Seq<GlConfigCandidate>, i: int)
    requires
        spec_is_selected(s, i),
    ensures
        s[i].supports_transparency == (exists|j: int|
            0 <= j < s.len() && s[j].supports_transparency),
        forall|j: int|
            0 <= j < s.len() && s[j].supports_transparency == s[i].supports_transparency
                ==> s[i].num_samples <= s[j].num_samples,
{
    if exists|j: int| 0 <= j < s.len() && s[j].supports_transparency {
        let j = choose|j: int| 0 <= j < s.len() && s[j].supports_transparency;
        assert(!spec_prefer(s[j], s[i]));
    }
}

/// Configuration selection never depends on enumeration order: two
/// enumerations offering the same candidates select a candidate with the
/// same attributes, wherever it stands in each.
pub proof fn lemma_selection_order_independent(
    s1: Seq<GlConfigCandidate>,
    s2: Seq<GlConfigCandidate>,
    i1: int,
    i2: int,
)
    requires
        forall|c: GlConfigCandidate| s1.contains(c) <==> s2.contains(c),
        spec_is_selected(s1, i1),
        spec_is_selected(s2, i2),
    ensures
        s1[i1] == s2[i2],
{
    let c1 = s1[i1];
    let c2 = s2[i2];
    assert(s1.contains(c1));
    assert(s2.contains(c2));
    assert(s2.contains(c1));
    assert(s1.contains(c2));
    let j1 = choose|j: int| 0 <= j < s2.len() && s2[j] == c1;
    assert(!spec_prefer(s2[j1], c2));
    let j2 = choose|j: int| 0 <= j < s1.len() && s1[j] == c2;
    assert(!spec_prefer(s1[j2], c1));
    lemma_prefer_total(c1, c2);
}

} // verus!
