//! The emitter: a movable point that spawns particles.
use vstd::prelude::*;

use crate::mapper::Point;
use crate::particle::{HEADING_UNITS, Particle};
use rand::rngs::ThreadRng;
use rand::Rng;

verus! {

#[verifier::external_type_specification]
#[verifier::external_body]
pub struct ExThreadRng(ThreadRng);

/// Relies on `rand::thread_rng`: a handle to the thread-local generator.
#[verifier::external_body]
fn new_rng() -> (r: ThreadRng) {
    rand::thread_rng()
}

/// Relies on `Rng::gen_range` over `0..bound`: a value drawn uniformly below
/// `bound`. It panics on an empty range, hence `bound > 0`.
#[verifier::external_body]
fn draw_below(rng: &mut ThreadRng, bound: u32) -> (r: u32)
    requires
        bound > 0,
    ensures
        r < bound,
{
    rng.gen_range(0..bound)
}

/// The point new particles start from, with the random source that gives
/// them their headings.
pub struct Emitter {
    position: Point,
    rng: ThreadRng,
}

impl Emitter {
    /// Where the emitter stands.
    pub closed spec fn at(&self) -> Point {
        self.position
    }

    pub fn new(x: i64, y: i64) -> (r: Emitter)
        ensures
            r.at() == (Point { x, y }),
    {
        Emitter { position: Point { x, y }, rng: new_rng() }
    }

    pub fn position(&self) -> (r: Point)
        ensures
            r == self.at(),
    {
        self.position
    }

    /// Moves the emitter to `(x, y)`.
    pub fn set_position(&mut self, x: i64, y: i64)
        ensures
            final(self).at() == (Point { x, y }),
    {
        self.position = Point { x, y };
    }

    /// A new live particle at the emitter's position, with a random heading,
    /// that dies `ttl` milliseconds after `now`.
    pub fn spawn(&mut self, now: u64, ttl: u64) -> (r: Particle)
        requires
            now + ttl <= u64::MAX,
        ensures
            r == Particle::spawned(old(self).at(), r.heading, now, ttl),
            r.heading < HEADING_UNITS,
            final(self).at() == old(self).at(),
    {
        let heading = draw_below(&mut self.rng, HEADING_UNITS);
        Particle::new(self.position, heading, now, ttl)
    }
}

} // verus!
