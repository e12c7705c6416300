//! A particle system: an ordered population of particles in a rectangular
//! area, spawned, culled and moved once per tick.

use vstd::prelude::*;
use crate::particle::{is_faded, updated, Particle, Vec2, Color, FULL_CHANNEL, INITIAL_ALPHA, PARTICLE_SIZE, UNIT};
use crate::random::draw_inclusive;
use crate::laws::{lemma_cull_oldest_when_none_faded, lemma_cull_prefers_faded, lemma_culled_len};

verus! {

/// Fastest upward velocity a particle is spawned with: `-2.0`.
pub const MIN_SPAWN_VELOCITY: i64 = -2_000_000;

/// Bound, never reached, of the downward acceleration a particle is spawned
/// with: `0.15`.
pub const SPAWN_ACCELERATION_BOUND: i64 = 150_000;

/// Largest change of population drawn per tick.
pub const MAX_POPULATION_STEP: i64 = 3;

/// Population change above which a tick spawns rather than culls.
pub const SPAWN_THRESHOLD: i32 = 3;

/// The absolute value of `n`.
pub open spec fn abs(n: int) -> nat {
    if n < 0 {
        (-n) as nat
    } else {
        n as nat
    }
}

/// Whether `i` is the index of the first faded particle of `s`.
pub open spec fn is_first_faded(s: Seq<Particle>, i: int) -> bool {
    &&& 0 <= i < s.len()
    &&& is_faded(s[i])
    &&& forall|j: int| 0 <= j < i ==> !is_faded(#[trigger] s[j])
}

/// The index of the particle that one cull removes: the first faded
/// particle if there is one, otherwise the oldest, at index 0.
pub open spec fn cull_index(s: Seq<Particle>) -> int {
    if exists|i: int| is_first_faded(s, i) {
        choose|i: int| is_first_faded(s, i)
    } else {
        0
    }
}

/// The population after one cull; an empty population stays empty.
pub open spec fn culled_once(s: Seq<Particle>) -> Seq<Particle> {
    if s.len() == 0 {
        s
    } else {
        s.remove(cull_index(s))
    }
}

/// The population after `k` culls in a row.
pub open spec fn culled(s: Seq<Particle>, k: nat) -> Seq<Particle>
    decreases k,
{
    if k == 0 {
        s
    } else {
        culled_once(culled(s, (k - 1) as nat))
    }
}

/// Every particle of `s` after one tick of physics.
pub open spec fn moved(s: Seq<Particle>) -> Seq<Particle> {
    s.map_values(|p: Particle| updated(p))
}

/// Whether `p` is a particle as spawned into an area of the given size: at a
/// horizontal position within `[0, width]` on the bottom edge, moving up at a
/// speed within `(0, 2.0]`, pulled down by an acceleration within
/// `[0, 0.15)`, opaque white with alpha `0.99`.
pub open spec fn is_spawned(p: Particle, width: int, height: int) -> bool {
    &&& p.width == PARTICLE_SIZE
    &&& p.height == PARTICLE_SIZE
    &&& 0 <= p.position.x <= width
    &&& p.position.y == height
    &&& p.velocity.x == 0
    &&& MIN_SPAWN_VELOCITY <= p.velocity.y < 0
    &&& p.acceleration.x == 0
    &&& 0 <= p.acceleration.y < SPAWN_ACCELERATION_BOUND
    &&& p.color == (Color { red: FULL_CHANNEL, green: FULL_CHANNEL, blue: FULL_CHANNEL, alpha: INITIAL_ALPHA })
}

/// What a particle system holds, as the contracts see it.
pub struct WorldView {
    pub current_turn: nat,
    pub particles: Seq<Particle>,
    pub height: int,
    pub width: int,
}

/// Whether `p` is a particle as spawned into an area of the given size,
/// after one tick of physics.
pub open spec fn is_spawned_and_moved(p: Particle, width: int, height: int) -> bool {
    exists|q: Particle| is_spawned(q, width, height) && p == updated(q)
}

/// A particle system over an area of `width` by `height`, in fixed point.
pub struct World {
    pub current_turn: u64,
    pub particles: Vec<Particle>,
    pub height: i64,
    pub width: i64,
    rng: rand::rngs::ThreadRng,
}

/// Relies on Vec::shrink_to_fit: it gives back spare capacity and leaves the
/// elements as they are.
#[verifier::external_body]
fn shrink_to_fit(v: &mut Vec<Particle>)
    ensures
        final(v)@ == old(v)@,
{
    v.shrink_to_fit();
}

impl View for World {
    type V = WorldView;

    closed spec fn view(&self) -> WorldView {
        WorldView {
            current_turn: self.current_turn as nat,
            particles: self.particles@,
            height: self.height as int,
            width: self.width as int,
        }
    }
}

impl World {
    /// The states a particle system can be in: a non-negative area and
    /// well-formed particles.
    pub open spec fn wf(&self) -> bool {
        &&& 0 <= self@.width <= i64::MAX
        &&& i64::MIN <= self@.height <= i64::MAX
        &&& self@.current_turn <= u64::MAX
        &&& forall|i: int| 0 <= i < self@.particles.len() ==> (#[trigger] self@.particles[i]).wf()
    }

    /// An empty particle system over an area of `width` by `height`.
    pub fn new(width: i64, height: i64) -> (r: World)
        requires
            0 <= width,
        ensures
            r.wf(),
            r@.current_turn == 0,
            r@.particles.len() == 0,
            r@.width == width,
            r@.height == height,
    {
        World { current_turn: 0, particles: Vec::new(), height, width, rng: rand::thread_rng() }
    }

    /// Spawns `|quantity|` new particles at the end of the population, each
    /// drawn at random as `is_spawned` describes.
    pub fn add_particles(&mut self, quantity: i32)
        requires
            old(self).wf(),
            old(self)@.particles.len() + abs(quantity as int) <= usize::MAX,
        ensures
            final(self).wf(),
            final(self)@.particles.len() == old(self)@.particles.len() + abs(quantity as int),
            final(self)@.particles.subrange(0, old(self)@.particles.len() as int) == old(self)@.particles,
            forall|i: int|
                old(self)@.particles.len() <= i < final(self)@.particles.len() ==> is_spawned(
                    #[trigger] final(self)@.particles[i],
                    old(self)@.width,
                    old(self)@.height,
                ),
            final(self)@.current_turn == old(self)@.current_turn,
            final(self)@.width == old(self)@.width,
            final(self)@.height == old(self)@.height,
    {
        let count: u32 = if quantity < 0 { (-(quantity as i64)) as u32 } else { quantity as u32 };
        let ghost start = self.particles@;
        let mut k: u32 = 0;
        while k < count
            invariant
                self.wf(),
                k <= count,
                count == abs(quantity as int),
                start.len() + count <= usize::MAX,
                self.particles@.len() == start.len() + k,
                self.particles@.subrange(0, start.len() as int) == start,
                forall|i: int|
                    start.len() <= i < self.particles@.len() ==> is_spawned(
                        #[trigger] self.particles@[i],
                        self.width as int,
                        self.height as int,
                    ),
                self.current_turn == old(self)@.current_turn,
                self.width == old(self)@.width,
                self.height == old(self)@.height,
            decreases count - k,
        {
            assert(self@.particles == self.particles@);
            assert(forall|i: int| 0 <= i < self.particles@.len() ==> (#[trigger] self.particles@[i]).wf());
            let x = draw_inclusive(&mut self.rng, 0, self.width);
            let y_velocity = draw_inclusive(&mut self.rng, MIN_SPAWN_VELOCITY, -1);
            let y_acceleration = draw_inclusive(&mut self.rng, 0, SPAWN_ACCELERATION_BOUND - 1);
            let particle = Particle::new(x, self.height, y_velocity, y_acceleration);
            let ghost before = self.particles@;
            self.particles.push(particle);
            assert(forall|i: int| 0 <= i < before.len() ==> self.particles@[i] == before[i]);
            assert(self.particles@.subrange(0, start.len() as int) =~= before.subrange(0, start.len() as int));
            k = k + 1;
        }
    }

    /// Removes one particle: the first faded one if any, otherwise the
    /// oldest; an empty population stays empty.
    fn remove_one(&mut self)
        requires
            old(self).wf(),
        ensures
            final(self).wf(),
            final(self)@ == (WorldView { particles: culled_once(old(self)@.particles), ..old(self)@ }),
    {
        let ghost s = self.particles@;
        if self.particles.len() == 0 {
            return;
        }
        let mut i: usize = 0;
        while i < self.particles.len() && !self.particles[i].is_faded()
            invariant
                self.particles@ == s,
                0 <= i <= s.len(),
                forall|j: int| 0 <= j < i ==> !is_faded(#[trigger] s[j]),
            decreases s.len() - i,
        {
            i = i + 1;
        }
        let found = i < self.particles.len();
        let at: usize = if found { i } else { 0 };
        proof {
            assert(culled(s, 1) == culled_once(s)) by {
                assert(culled(s, 0) == s);
            }
            if found {
                lemma_cull_prefers_faded(s, i as int);
            } else {
                lemma_cull_oldest_when_none_faded(s);
            }
        }
        assert(forall|j: int| 0 <= j < s.len() ==> (#[trigger] s[j]).wf());
        self.particles.remove(at);
        assert(forall|j: int| 0 <= j < self.particles@.len() ==> self.particles@[j] == #[trigger] s.remove(at as int)[j]);
    }

    /// Culls `|n|` particles, one at a time: each time the first faded
    /// particle goes if there is one, otherwise the oldest. Culls beyond
    /// the population do nothing.
    pub fn remove_particles(&mut self, n: i32)
        requires
            old(self).wf(),
        ensures
            final(self).wf(),
            final(self)@ == (WorldView { particles: culled(old(self)@.particles, abs(n as int)), ..old(self)@ }),
            final(self)@.particles.len() == if old(self)@.particles.len() >= abs(n as int) {
                old(self)@.particles.len() - abs(n as int)
            } else {
                0
            },
    {
        let count: u32 = if n < 0 { (-(n as i64)) as u32 } else { n as u32 };
        let mut k: u32 = 0;
        while k < count
            invariant
                self.wf(),
                k <= count,
                count == abs(n as int),
                self@ == (WorldView { particles: culled(old(self)@.particles, k as nat), ..old(self)@ }),
            decreases count - k,
        {
            self.remove_one();
            k = k + 1;
        }
        proof {
            lemma_culled_len(old(self)@.particles, abs(n as int));
        }
    }

    /// Advances every particle by one tick of physics.
    fn move_particles(&mut self)
        requires
            old(self).wf(),
        ensures
            final(self).wf(),
            final(self)@ == (WorldView { particles: moved(old(self)@.particles), ..old(self)@ }),
    {
        let ghost s = self.particles@;
        assert(forall|j: int| 0 <= j < s.len() ==> (#[trigger] s[j]).wf());
        let mut i: usize = 0;
        while i < self.particles.len()
            invariant
                0 <= i <= s.len(),
                self.particles@.len() == s.len(),
                forall|j: int| 0 <= j < s.len() ==> (#[trigger] s[j]).wf(),
                forall|j: int| 0 <= j < i ==> self.particles@[j] == updated(#[trigger] s[j]),
                forall|j: int| i <= j < s.len() ==> self.particles@[j] == #[trigger] s[j],
                forall|j: int| 0 <= j < s.len() ==> (#[trigger] self.particles@[j]).wf(),
                self.current_turn == old(self).current_turn,
                self.width == old(self).width,
                self.height == old(self).height,
            decreases s.len() - i,
        {
            self.particles[i].update();
            i = i + 1;
        }
        assert(self.particles@ =~= moved(s));
    }

    /// One tick with a population change of `change` already drawn: spawns
    /// `change` particles if it is above `SPAWN_THRESHOLD`, otherwise culls
    /// `|change|`; then advances every particle, and counts the turn.
    pub fn advance(&mut self, change: i32)
        requires
            old(self).wf(),
            old(self)@.current_turn < u64::MAX,
            change > SPAWN_THRESHOLD ==> old(self)@.particles.len() + change <= usize::MAX,
        ensures
            final(self).wf(),
            final(self)@.current_turn == old(self)@.current_turn + 1,
            final(self)@.width == old(self)@.width,
            final(self)@.height == old(self)@.height,
            change <= SPAWN_THRESHOLD ==> final(self)@.particles == moved(culled(old(self)@.particles, abs(change as int))),
            change > SPAWN_THRESHOLD ==> final(self)@.particles.len() == old(self)@.particles.len() + change,
            change > SPAWN_THRESHOLD ==> forall|i: int|
                #![trigger final(self)@.particles[i]]
                0 <= i < old(self)@.particles.len() ==> final(self)@.particles[i] == updated(old(self)@.particles[i]),
            change > SPAWN_THRESHOLD ==> forall|i: int|
                old(self)@.particles.len() <= i < final(self)@.particles.len() ==> is_spawned_and_moved(
                    #[trigger] final(self)@.particles[i],
                    old(self)@.width,
                    old(self)@.height,
                ),
    {
        if change > SPAWN_THRESHOLD {
            self.add_particles(change);
        } else {
            self.remove_particles(change);
        }
        shrink_to_fit(&mut self.particles);
        let ghost mid = self.particles@;
        self.move_particles();
        self.current_turn = self.current_turn + 1;
        proof {
            if change > SPAWN_THRESHOLD {
                let s = old(self)@.particles;
                assert(mid.subrange(0, s.len() as int) == s);
                assert forall|i: int|
                    #![trigger self@.particles[i]]
                    0 <= i < s.len() implies self@.particles[i] == updated(s[i]) by {
                    assert(mid.subrange(0, s.len() as int)[i] == mid[i]);
                }
                assert forall|i: int|
                    s.len() <= i < self@.particles.len() implies is_spawned_and_moved(
                        #[trigger] self@.particles[i],
                        old(self)@.width,
                        old(self)@.height,
                    ) by {
                    assert(is_spawned(mid[i], old(self)@.width, old(self)@.height));
                    assert(self@.particles[i] == updated(mid[i]));
                }
            }
        }
    }

    /// One tick: draws a population change within `[-3, 3]`, spawns that
    /// many particles if it is above `SPAWN_THRESHOLD` and otherwise culls
    /// its absolute value; then advances every particle, and counts the turn.
    pub fn update(&mut self)
        requires
            old(self).wf(),
            old(self)@.current_turn < u64::MAX,
        ensures
            final(self).wf(),
            final(self)@.current_turn == old(self)@.current_turn + 1,
            final(self)@.width == old(self)@.width,
            final(self)@.height == old(self)@.height,
            exists|change: int|
                -MAX_POPULATION_STEP <= change <= MAX_POPULATION_STEP && final(self)@.particles == moved(
                    #[trigger] culled(old(self)@.particles, abs(change)),
                ),
    {
        let change = draw_inclusive(&mut self.rng, -MAX_POPULATION_STEP, MAX_POPULATION_STEP) as i32;
        self.advance(change);
    }
}

} // verus!
