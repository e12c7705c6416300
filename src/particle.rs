//! A single particle, with all of its quantities in fixed point.
//!
//! Lengths, velocities, accelerations and color channels are integers in
//! millionths: `UNIT` stands for `1.0`.

use vstd::prelude::*;

verus! {

/// The fixed-point value of `1.0`.
pub const UNIT: i64 = 1_000_000;

/// Width and height of every particle: `4.0`.
pub const PARTICLE_SIZE: i64 = 4_000_000;

/// Alpha of a particle when it is created: `0.99`.
pub const INITIAL_ALPHA: u32 = 990_000;

/// Alpha below which a particle counts as faded: `0.02`.
pub const FADED_ALPHA: u32 = 20_000;

/// Full intensity of a color channel: `1.0`.
pub const FULL_CHANNEL: u32 = 1_000_000;

/// Largest acceleration component a particle may carry: `1.0`.
pub const MAX_ACCELERATION: i64 = 1_000_000;

/// Per-tick fade factor, as a fraction over `FADE_DENOMINATOR`: `0.995`.
pub const FADE_NUMERATOR: u32 = 995;

pub const FADE_DENOMINATOR: u32 = 1000;

/// Per-tick acceleration decay factor, as a fraction over
/// `DECAY_DENOMINATOR`: `0.7`.
pub const DECAY_NUMERATOR: i64 = 7;

pub const DECAY_DENOMINATOR: i64 = 10;

/// A two-dimensional vector of fixed-point components.
#[derive(Clone, Copy, Debug, PartialEq, Eq, Structural)]
pub struct Vec2 {
    pub x: i64,
    pub y: i64,
}

/// A color with red, green, blue and alpha channels in fixed point.
#[derive(Clone, Copy, Debug, PartialEq, Eq, Structural)]
pub struct Color {
    pub red: u32,
    pub green: u32,
    pub blue: u32,
    pub alpha: u32,
}

/// A particle: a small square that moves and fades.
#[derive(Clone, Copy, Debug, PartialEq, Eq, Structural)]
pub struct Particle {
    pub width: i64,
    pub height: i64,
    pub position: Vec2,
    pub velocity: Vec2,
    pub acceleration: Vec2,
    pub color: Color,
}

/// `a + b`, held within the range of `i64`.
pub open spec fn clamped_sum(a: int, b: int) -> int {
    if a + b > i64::MAX {
        i64::MAX as int
    } else if a + b < i64::MIN {
        i64::MIN as int
    } else {
        a + b
    }
}

/// Componentwise `clamped_sum`.
pub open spec fn vec_sum(a: Vec2, b: Vec2) -> Vec2 {
    Vec2 { x: clamped_sum(a.x as int, b.x as int) as i64, y: clamped_sum(a.y as int, b.y as int) as i64 }
}

/// An acceleration component after one tick of decay: `a * 0.7`, rounded
/// toward zero.
pub open spec fn decayed(a: int) -> int {
    a * (DECAY_NUMERATOR as int) / (DECAY_DENOMINATOR as int)
}

/// An alpha after one tick of fading: `alpha * 0.995`, rounded down.
pub open spec fn faded(alpha: int) -> int {
    alpha * (FADE_NUMERATOR as int) / (FADE_DENOMINATOR as int)
}

/// Whether a particle counts as faded.
pub open spec fn is_faded(p: Particle) -> bool {
    p.color.alpha < FADED_ALPHA
}

/// A particle after one tick of physics: the velocity takes the
/// acceleration, the position takes the new velocity, the acceleration
/// decays and the alpha fades.
pub open spec fn updated(p: Particle) -> Particle {
    let velocity = vec_sum(p.velocity, p.acceleration);
    Particle {
        position: vec_sum(p.position, velocity),
        velocity,
        acceleration: Vec2 { x: decayed(p.acceleration.x as int) as i64, y: decayed(p.acceleration.y as int) as i64 },
        color: Color { alpha: faded(p.color.alpha as int) as u32, ..p.color },
        ..p
    }
}

/// `a + b`, held within the range of `i64`.
fn add_clamped(a: i64, b: i64) -> (r: i64)
    ensures
        r == clamped_sum(a as int, b as int),
{
    if b > 0 && a > i64::MAX - b {
        i64::MAX
    } else if b < 0 && a < i64::MIN - b {
        i64::MIN
    } else {
        a + b
    }
}

fn add_vec(a: Vec2, b: Vec2) -> (r: Vec2)
    ensures
        r == vec_sum(a, b),
{
    Vec2 { x: add_clamped(a.x, b.x), y: add_clamped(a.y, b.y) }
}

impl Particle {
    /// The values a particle can hold: accelerations within
    /// `[0, MAX_ACCELERATION]` and channels within `[0, FULL_CHANNEL]`.
    pub open spec fn wf(&self) -> bool {
        &&& 0 <= self.acceleration.x <= MAX_ACCELERATION
        &&& 0 <= self.acceleration.y <= MAX_ACCELERATION
        &&& self.color.red <= FULL_CHANNEL
        &&& self.color.green <= FULL_CHANNEL
        &&& self.color.blue <= FULL_CHANNEL
        &&& self.color.alpha <= FULL_CHANNEL
    }

    /// A particle at `(x, y)` that starts with vertical velocity
    /// `y_velocity` and vertical acceleration `y_acceleration`; it is opaque
    /// white with alpha `INITIAL_ALPHA`, and has no horizontal motion.
    pub fn new(x: i64, y: i64, y_velocity: i64, y_acceleration: i64) -> (r: Particle)
        requires
            0 <= y_acceleration <= MAX_ACCELERATION,
        ensures
            r.wf(),
            r.width == PARTICLE_SIZE,
            r.height == PARTICLE_SIZE,
            r.position == (Vec2 { x, y }),
            r.velocity == (Vec2 { x: 0, y: y_velocity }),
            r.acceleration == (Vec2 { x: 0, y: y_acceleration }),
            r.color == (Color { red: FULL_CHANNEL, green: FULL_CHANNEL, blue: FULL_CHANNEL, alpha: INITIAL_ALPHA }),
    {
        Particle {
            width: PARTICLE_SIZE,
            height: PARTICLE_SIZE,
            position: Vec2 { x, y },
            velocity: Vec2 { x: 0, y: y_velocity },
            acceleration: Vec2 { x: 0, y: y_acceleration },
            color: Color { red: FULL_CHANNEL, green: FULL_CHANNEL, blue: FULL_CHANNEL, alpha: INITIAL_ALPHA },
        }
    }

    /// Whether this particle counts as faded: its alpha is below
    /// `FADED_ALPHA`.
    pub fn is_faded(&self) -> (r: bool)
        ensures
            r == is_faded(*self),
    {
        self.color.alpha < FADED_ALPHA
    }

    /// Advances this particle by one tick of physics.
    pub fn update(&mut self)
        requires
            old(self).wf(),
        ensures
            *final(self) == updated(*old(self)),
            final(self).wf(),
            final(self).color.alpha <= old(self).color.alpha,
            old(self).acceleration.x > 0 ==> final(self).acceleration.x < old(self).acceleration.x,
            old(self).acceleration.y > 0 ==> final(self).acceleration.y < old(self).acceleration.y,
    {
        self.velocity = add_vec(self.velocity, self.acceleration);
        self.position = add_vec(self.position, self.velocity);
        self.acceleration = Vec2 {
            x: self.acceleration.x * DECAY_NUMERATOR / DECAY_DENOMINATOR,
            y: self.acceleration.y * DECAY_NUMERATOR / DECAY_DENOMINATOR,
        };
        self.color.alpha = self.color.alpha * FADE_NUMERATOR / FADE_DENOMINATOR;
    }
}

} // verus!
