//! Constructing the child environment.
//!
//! The child environment is a map from names to values, built from a base
//! (the parent's environment, or nothing when it is ignored) by applying the
//! explicit `KEY=VALUE` pairs on top, in order, so that a later pair wins
//! over an earlier one and over any inherited value.

use vstd::prelude::*;
use crate::parse::pairs_view;

verus! {

/// The environment map described by a sequence of pairs applied in order:
/// a later pair overrides an earlier one with the same key.
pub open spec fn env_map(pairs: Seq<(Seq<char>, Seq<char>)>) -> Map<Seq<char>, Seq<char>>
    decreases pairs.len(),
{
    if pairs.len() == 0 {
        Map::empty()
    } else {
        env_map(pairs.drop_last()).insert(pairs.last().0, pairs.last().1)
    }
}

/// The set of keys occurring in a sequence of pairs.
pub open spec fn key_set(pairs: Seq<(Seq<char>, Seq<char>)>) -> Set<Seq<char>>
    decreases pairs.len(),
{
    if pairs.len() == 0 {
        Set::empty()
    } else {
        key_set(pairs.drop_last()).insert(pairs.last().0)
    }
}

/// The environment map defines exactly the keys that occur in the pairs.
pub proof fn lemma_env_map_dom(pairs: Seq<(Seq<char>, Seq<char>)>)
    ensures
        env_map(pairs).dom() == key_set(pairs),
    decreases pairs.len(),
{
    if pairs.len() > 0 {
        lemma_env_map_dom(pairs.drop_last());
        assert(env_map(pairs).dom() =~= key_set(pairs));
    } else {
        assert(env_map(pairs).dom() =~= key_set(pairs));
    }
}

/// A key occurs in `key_set(pairs)` exactly when some pair holds it.
pub proof fn lemma_key_set_membership(pairs: Seq<(Seq<char>, Seq<char>)>, k: Seq<char>)
    ensures
        key_set(pairs).contains(k) <==> exists|i: int| 0 <= i < pairs.len() && pairs[i].0 == k,
    decreases pairs.len(),
{
    if pairs.len() > 0 {
        lemma_key_set_membership(pairs.drop_last(), k);
        if key_set(pairs).contains(k) {
            if pairs.last().0 == k {
                assert(pairs[pairs.len() - 1].0 == k);
            } else {
                let i = choose|i: int| 0 <= i < pairs.drop_last().len() && pairs.drop_last()[i].0
                    == k;
                assert(pairs[i].0 == k);
            }
        }
        if exists|i: int| 0 <= i < pairs.len() && pairs[i].0 == k {
            let i = choose|i: int| 0 <= i < pairs.len() && pairs[i].0 == k;
            if i < pairs.len() - 1 {
                assert(pairs.drop_last()[i].0 == k);
            }
        }
    }
}

/// Applying a concatenation of pair sequences equals applying the first and
/// then the second: the second sequence wins where their keys collide.
pub proof fn lemma_env_map_concat(a: Seq<(Seq<char>, Seq<char>)>, b: Seq<(Seq<char>, Seq<char>)>)
    ensures
        env_map(a + b) == env_map(a).union_prefer_right(env_map(b)),
    decreases b.len(),
{
    if b.len() == 0 {
        assert(a + b =~= a);
        assert(env_map(a).union_prefer_right(env_map(b)) =~= env_map(a));
    } else {
        lemma_env_map_concat(a, b.drop_last());
        assert((a + b).drop_last() =~= a + b.drop_last());
        assert((a + b).last() == b.last());
        assert(env_map(a).union_prefer_right(env_map(b.drop_last())).insert(
            b.last().0,
            b.last().1,
        ) =~= env_map(a).union_prefer_right(env_map(b)));
    }
}

/// Appending a pair overrides exactly its key: the last write wins.
pub proof fn lemma_env_map_last_wins(pairs: Seq<(Seq<char>, Seq<char>)>, k: Seq<char>, v: Seq<char>)
    ensures
        env_map(pairs.push((k, v))) == env_map(pairs).insert(k, v),
{
    assert(pairs.push((k, v)).drop_last() =~= pairs);
    assert(pairs.push((k, v)).last() == (k, v));
}

/// A key set only by the overlay maps to the overlay's value for it.
pub proof fn lemma_overlay_wins(
    base: Seq<(Seq<char>, Seq<char>)>,
    overlay: Seq<(Seq<char>, Seq<char>)>,
    k: Seq<char>,
)
    requires
        env_map(overlay).dom().contains(k),
    ensures
        env_map(base + overlay).dom().contains(k),
        env_map(base + overlay)[k] == env_map(overlay)[k],
{
    lemma_env_map_concat(base, overlay);
}

/// A base key that no overlay pair touches keeps its base value: nothing
/// inherited is removed unless overridden.
pub proof fn lemma_overlay_preserves_base(
    base: Seq<(Seq<char>, Seq<char>)>,
    overlay: Seq<(Seq<char>, Seq<char>)>,
    k: Seq<char>,
)
    requires
        env_map(base).dom().contains(k),
        !key_set(overlay).contains(k),
    ensures
        env_map(base + overlay).dom().contains(k),
        env_map(base + overlay)[k] == env_map(base)[k],
{
    lemma_env_map_concat(base, overlay);
    lemma_env_map_dom(overlay);
}

/// With the parent's environment ignored, the child environment is exactly
/// the overlay pairs, last write winning, and holds no key but the
/// overlay's own: nothing of the parent is inherited.
pub proof fn lemma_ignored_environment(
    parent: Seq<(Seq<char>, Seq<char>)>,
    overlay: Seq<(Seq<char>, Seq<char>)>,
)
    ensures
        env_map(spec_environment_base(true, parent) + overlay) == env_map(overlay),
        env_map(overlay).dom() == key_set(overlay),
{
    assert(spec_environment_base(true, parent) + overlay =~= overlay);
    lemma_env_map_dom(overlay);
}

/// The base of the child environment: nothing when the parent's environment
/// is ignored, otherwise the parent's environment snapshot.
pub open spec fn spec_environment_base(
    ignore_environment: bool,
    parent: Seq<(Seq<char>, Seq<char>)>,
) -> Seq<(Seq<char>, Seq<char>)> {
    if ignore_environment {
        Seq::empty()
    } else {
        parent
    }
}

/// Builds the child environment as a list of pairs: the base followed by the
/// overlay. As a map, the result is the base with the overlay applied on
/// top (overlay wins on key collisions); with the parent ignored it is
/// exactly the overlay's map, holding no inherited variable.
#[verifier::loop_isolation(false)]
pub fn build_environment(
    parent: &Vec<(String, String)>,
    ignore_environment: bool,
    variables: &Vec<(String, String)>,
) -> (r: Vec<(String, String)>)
    ensures
        pairs_view(r@) == spec_environment_base(ignore_environment, pairs_view(parent@))
            + pairs_view(variables@),
        env_map(pairs_view(r@)) == env_map(
            spec_environment_base(ignore_environment, pairs_view(parent@)),
        ).union_prefer_right(env_map(pairs_view(variables@))),
        ignore_environment ==> env_map(pairs_view(r@)) == env_map(pairs_view(variables@)),
{
    let ghost base = spec_environment_base(ignore_environment, pairs_view(parent@));
    let mut r: Vec<(String, String)> = Vec::new();
    proof {
        assert(pairs_view(r@) =~= base.take(0));
    }
    if !ignore_environment {
        let mut i: usize = 0;
        while i < parent.len()
            invariant
                i <= parent@.len(),
                pairs_view(r@) == base.take(i as int),
            decreases parent@.len() - i,
        {
            let p = &parent[i];
            r.push((p.0.clone(), p.1.clone()));
            i += 1;
            proof {
                assert(pairs_view(r@) =~= base.take(i as int));
            }
        }
    }
    proof {
        assert(base.take(base.len() as int) =~= base);
        assert(pairs_view(r@) == base);
    }
    let mut j: usize = 0;
    let ghost overlay = pairs_view(variables@);
    proof {
        assert(base + overlay.take(0) =~= base);
    }
    while j < variables.len()
        invariant
            j <= variables@.len(),
            pairs_view(r@) == base + overlay.take(j as int),
        decreases variables@.len() - j,
    {
        let ghost r_prev = r@;
        let p = &variables[j];
        let key = p.0.clone();
        let value = p.1.clone();
        proof {
            assert(key == variables@[j as int].0);
            assert(value == variables@[j as int].1);
        }
        r.push((key, value));
        j += 1;
        proof {
            assert(r@ == r_prev.push(variables@[j as int - 1]));
            assert(pairs_view(r@) =~= pairs_view(r_prev).push(overlay[j as int - 1]));
            assert(overlay.take(j as int) =~= overlay.take(j as int - 1).push(
                overlay[j as int - 1],
            ));
            assert(pairs_view(r@) =~= base + overlay.take(j as int));
        }
    }
    proof {
        assert(overlay.take(overlay.len() as int) =~= overlay);
        lemma_env_map_concat(base, overlay);
        if ignore_environment {
            assert(base + overlay =~= overlay);
        }
    }
    r
}

} // verus!
