//! Properties of the particle model that hold across calls and for every
//! population.

use vstd::prelude::*;
use crate::particle::{decayed, faded, updated, Particle, INITIAL_ALPHA};
use crate::world::{abs, culled, culled_once, cull_index, is_first_faded, is_spawned, is_spawned_and_moved, moved, MAX_POPULATION_STEP};

verus! {

/// Culling `k` particles from a population of `m` leaves `max(0, m - k)`.
pub proof fn lemma_culled_len(s: Seq<Particle>, k: nat)
    ensures
        culled(s, k).len() == if s.len() >= k { s.len() - k } else { 0 },
    decreases k,
{
    if k > 0 {
        lemma_culled_len(s, (k - 1) as nat);
        let t = culled(s, (k - 1) as nat);
        if t.len() > 0 {
            lemma_cull_index_in_range(t);
        }
    }
}

/// One cull removes an index of the population, when there is one.
pub proof fn lemma_cull_index_in_range(s: Seq<Particle>)
    requires
        s.len() > 0,
    ensures
        0 <= cull_index(s) < s.len(),
{
    if exists|i: int| is_first_faded(s, i) {
        let c = choose|i: int| is_first_faded(s, i);
        assert(is_first_faded(s, c));
    }
}

/// Where the population holds a faded particle, one cull removes the first
/// faded particle in insertion order, not the oldest.
pub proof fn lemma_cull_prefers_faded(s: Seq<Particle>, i: int)
    requires
        is_first_faded(s, i),
    ensures
        culled(s, 1) == s.remove(i),
{
    let c = choose|j: int| is_first_faded(s, j);
    assert(is_first_faded(s, c));
    if c < i {
        assert(!crate::particle::is_faded(s[c]));
    } else if c > i {
        assert(!crate::particle::is_faded(s[i]));
    }
    assert(culled(s, 0) == s);
}

/// Where no particle of a non-empty population is faded, one cull removes
/// the oldest, at index 0.
pub proof fn lemma_cull_oldest_when_none_faded(s: Seq<Particle>)
    requires
        s.len() > 0,
        forall|j: int| 0 <= j < s.len() ==> !crate::particle::is_faded(#[trigger] s[j]),
    ensures
        culled(s, 1) == s.remove(0),
{
    assert forall|c: int| !is_first_faded(s, c) by {
        if 0 <= c < s.len() {
            assert(!crate::particle::is_faded(s[c]));
        }
    }
    assert(culled(s, 0) == s);
}

/// Every particle left after culling was in the population before.
pub proof fn lemma_culled_from(s: Seq<Particle>, k: nat)
    ensures
        forall|j: int| 0 <= j < culled(s, k).len() ==> s.contains(#[trigger] culled(s, k)[j]),
    decreases k,
{
    if k > 0 {
        lemma_culled_from(s, (k - 1) as nat);
        let t = culled(s, (k - 1) as nat);
        if t.len() > 0 {
            lemma_cull_index_in_range(t);
            let c = cull_index(t);
            assert forall|j: int| 0 <= j < culled(s, k).len() implies s.contains(#[trigger] culled(s, k)[j]) by {
                assert(culled(s, k) == culled_once(t));
                if j < c {
                    assert(culled(s, k)[j] == t[j]);
                } else {
                    assert(culled(s, k)[j] == t[j + 1]);
                }
            }
        }
    }
}

/// Fading never raises a particle's alpha: after a tick it is
/// `alpha * 0.995`, rounded down.
pub proof fn lemma_alpha_fades(p: Particle)
    requires
        p.wf(),
    ensures
        updated(p).color.alpha == faded(p.color.alpha as int),
        updated(p).color.alpha <= p.color.alpha,
{
}

/// A tick scales each acceleration component by `0.7`, rounded toward zero:
/// a component above zero strictly shrinks, and one at zero stays there.
pub proof fn lemma_acceleration_decays(p: Particle)
    requires
        p.wf(),
    ensures
        updated(p).acceleration.x == decayed(p.acceleration.x as int),
        updated(p).acceleration.y == decayed(p.acceleration.y as int),
        0 <= updated(p).acceleration.x <= p.acceleration.x,
        0 <= updated(p).acceleration.y <= p.acceleration.y,
        p.acceleration.x > 0 ==> updated(p).acceleration.x < p.acceleration.x,
        p.acceleration.y > 0 ==> updated(p).acceleration.y < p.acceleration.y,
{
}

/// A tick on a freshly spawned population, whatever population change it
/// draws within `[-3, 3]`: it removes at most three particles, and each one
/// left is a spawned particle after one tick of physics, with alpha
/// `0.99 * 0.995`.
pub proof fn lemma_first_tick(s: Seq<Particle>, width: int, height: int, change: int)
    requires
        -MAX_POPULATION_STEP <= change <= MAX_POPULATION_STEP,
        forall|i: int| 0 <= i < s.len() ==> is_spawned(#[trigger] s[i], width, height),
    ensures
        moved(culled(s, abs(change))).len() == if s.len() >= abs(change) { s.len() - abs(change) } else { 0 },
        forall|i: int|
            0 <= i < moved(culled(s, abs(change))).len() ==> {
                &&& is_spawned_and_moved(#[trigger] moved(culled(s, abs(change)))[i], width, height)
                &&& moved(culled(s, abs(change)))[i].color.alpha == faded(INITIAL_ALPHA as int)
            },
{
    let k = abs(change);
    lemma_culled_len(s, k);
    lemma_culled_from(s, k);
    let t = culled(s, k);
    assert forall|i: int| 0 <= i < moved(t).len() implies {
        &&& is_spawned_and_moved(#[trigger] moved(t)[i], width, height)
        &&& moved(t)[i].color.alpha == faded(INITIAL_ALPHA as int)
    } by {
        assert(s.contains(t[i]));
        let j = choose|j: int| 0 <= j < s.len() && s[j] == t[i];
        assert(is_spawned(s[j], width, height));
        assert(moved(t)[i] == updated(t[i]));
    }
}

} // verus!
