//! The per-frame driver: spawn, expire, prune, publish; and pointer tracking.
use vstd::prelude::*;

use crate::emitter::Emitter;
use crate::mapper::{MapError, Point, Rect, rescale, to_logical, valid_viewport};
use crate::particle::{HEADING_UNITS, Particle};
use crate::particle::Status;
use crate::store::{Store, Write, expired_all, lemma_prune_drops_dead, pruned};

verus! {

/// Fixed-point units in one logical unit of length.
pub const UNIT: i64 = 1000;

/// The simulation's settings. Lengths are in fixed-point units, time in
/// milliseconds.
#[derive(Clone, Copy, Debug, PartialEq, Eq, Structural)]
pub struct Config {
    /// How long a particle lives.
    pub ttl_ms: u64,
    /// How far the host's motion step moves a particle each tick.
    pub motion_step: i64,
    /// The radius the host draws the emitter with.
    pub emitter_radius: i64,
    /// The radius the host draws each particle with.
    pub particle_radius: i64,
}

impl Config {
    /// Ten seconds of life, a step of 5 units, radii of 25 and 5 units.
    pub fn standard() -> (r: Config)
        ensures
            r.ttl_ms == 10_000,
            r.motion_step == 5 * UNIT,
            r.emitter_radius == 25 * UNIT,
            r.particle_radius == 5 * UNIT,
    {
        Config {
            ttl_ms: 10_000,
            motion_step: 5 * UNIT,
            emitter_radius: 25 * UNIT,
            particle_radius: 5 * UNIT,
        }
    }
}

/// The back generation after a tick at `now` that spawned `spawned`.
pub open spec fn after_tick(back: Seq<Particle>, spawned: Particle, now: u64) -> Seq<Particle> {
    pruned(expired_all(back.push(spawned), now))
}

/// An emitter and the particles it has spawned.
pub struct Simulation {
    emitter: Emitter,
    store: Store,
    config: Config,
}

impl Simulation {
    pub closed spec fn emitter_at(&self) -> Point {
        self.emitter.at()
    }

    /// The generation that readers see.
    pub closed spec fn front(&self) -> Seq<Particle> {
        self.store.front()
    }

    /// The generation being written.
    pub closed spec fn back(&self) -> Seq<Particle> {
        self.store.back()
    }

    pub closed spec fn settings(&self) -> Config {
        self.config
    }

    /// A simulation with its emitter at `(x, y)` and no particles.
    pub fn new(x: i64, y: i64, config: Config) -> (r: Simulation)
        ensures
            r.emitter_at() == (Point { x, y }),
            r.front() == Seq::<Particle>::empty(),
            r.back() == Seq::<Particle>::empty(),
            r.settings() == config,
    {
        Simulation { emitter: Emitter::new(x, y), store: Store::new(), config }
    }

    pub fn config(&self) -> (r: Config)
        ensures
            r == self.settings(),
    {
        self.config
    }

    pub fn emitter_position(&self) -> (r: Point)
        ensures
            r == self.emitter_at(),
    {
        self.emitter.position()
    }

    /// A view of the published generation.
    pub fn read(&self) -> (r: &Vec<Particle>)
        ensures
            r@ == self.front(),
    {
        self.store.read()
    }

    /// One update: spawns a particle at the emitter, evaluates every
    /// particle's expiry at `now`, drops the dead ones and publishes the
    /// result. Returns the particle spawned.
    pub fn tick(&mut self, now: u64) -> (r: Particle)
        requires
            now + old(self).settings().ttl_ms <= u64::MAX,
        ensures
            r == Particle::spawned(old(self).emitter_at(), r.heading, now, old(self).settings().ttl_ms),
            r.heading < HEADING_UNITS,
            final(self).back() == after_tick(old(self).back(), r, now),
            final(self).front() == final(self).back(),
            final(self).emitter_at() == old(self).emitter_at(),
            final(self).settings() == old(self).settings(),
    {
        let p = self.emitter.spawn(now, self.config.ttl_ms);
        self.store.write(Write::Push(p));
        self.store.write(Write::Expire(now));
        self.store.write(Write::Prune);
        self.store.publish();
        p
    }

    /// Moves the emitter to where the pointer at `(sx, sy)` on a `vw` by `vh`
    /// viewport showing `rect` points. Particles already spawned stay as they
    /// are.
    pub fn point_emitter(&mut self, sx: i32, sy: i32, vw: i32, vh: i32, rect: Rect) -> (r: Result<
        (),
        MapError,
    >)
        ensures
            valid_viewport(vw as int, vh as int) <==> r is Ok,
            !valid_viewport(vw as int, vh as int) ==> r == Err::<(), MapError>(
                MapError::InvalidViewport,
            ),
            r is Ok ==> final(self).emitter_at().x == rescale(
                sx as int,
                vw as int,
                rect.w as int,
                rect.x as int,
            ),
            r is Ok ==> final(self).emitter_at().y == rescale(
                sy as int,
                vh as int,
                rect.h as int,
                rect.y as int,
            ),
            r is Err ==> final(self).emitter_at() == old(self).emitter_at(),
            final(self).front() == old(self).front(),
            final(self).back() == old(self).back(),
            final(self).settings() == old(self).settings(),
    {
        match to_logical(sx, sy, vw, vh, rect) {
            Ok(p) => {
                self.emitter.set_position(p.x, p.y);
                Ok(())
            },
            Err(e) => Err(e),
        }
    }

    /// The number of particles in the back generation.
    pub fn pending_len(&mut self) -> (r: usize)
        ensures
            r == old(self).back().len(),
            final(self).back() == old(self).back(),
            final(self).front() == old(self).front(),
            final(self).emitter_at() == old(self).emitter_at(),
            final(self).settings() == old(self).settings(),
    {
        self.store.back_len()
    }

    /// Moves the particle at index `i` of the back generation to `position`;
    /// readers see it there after the next tick.
    pub fn move_particle(&mut self, i: usize, position: Point)
        requires
            i < old(self).back().len(),
        ensures
            final(self).back() == old(self).back().update(
                i as int,
                old(self).back()[i as int].moved_to_spec(position),
            ),
            final(self).front() == old(self).front(),
            final(self).emitter_at() == old(self).emitter_at(),
            final(self).settings() == old(self).settings(),
    {
        self.store.move_particle(i, position)
    }
}

/// A tick keeps every particle spawned before it where it was: what survives
/// of the earlier particles is the live part of them, each with its position,
/// heading and deadline as before, and the only particle added is the one
/// spawned, if it is alive.
pub proof fn lemma_tick_keeps_earlier_particles(back: Seq<Particle>, spawned: Particle, now: u64)
    ensures
        after_tick(back, spawned, now) == pruned(expired_all(back, now)) + (if spawned.expired_at(
            now,
        ).alive() {
            seq![spawned.expired_at(now)]
        } else {
            Seq::<Particle>::empty()
        }),
        forall|i: int|
            0 <= i < pruned(expired_all(back, now)).len() ==> exists|j: int|
                0 <= j < back.len() && #[trigger] pruned(expired_all(back, now))[i].position
                    == back[j].position && pruned(expired_all(back, now))[i].heading
                    == back[j].heading && pruned(expired_all(back, now))[i].deadline
                    == back[j].deadline,
{
    broadcast use vstd::seq_lib::group_filter_ensures;
    broadcast use Seq::filter_distributes_over_add;

    let f = |q: Particle| q.alive();
    let e = expired_all(back, now);
    let tail = seq![spawned.expired_at(now)];
    assert(expired_all(back.push(spawned), now) =~= e + tail);
    assert(pruned(e + tail) == e.filter(f) + tail.filter(f));
    reveal_with_fuel(Seq::filter, 2);
    assert(tail.drop_last() =~= Seq::<Particle>::empty());
    if spawned.expired_at(now).alive() {
        assert(tail.filter(f) =~= tail);
    } else {
        assert(tail.filter(f) =~= Seq::<Particle>::empty());
    }
    assert forall|i: int| 0 <= i < pruned(e).len() implies exists|j: int|
        0 <= j < back.len() && #[trigger] pruned(e)[i].position == back[j].position
            && pruned(e)[i].heading == back[j].heading && pruned(e)[i].deadline
            == back[j].deadline by {
        assert(pruned(e).contains(pruned(e)[i]));
        e.lemma_filter_contains_rev(f, pruned(e)[i]);
        let j = choose|j: int| 0 <= j < e.len() && e[j] == pruned(e)[i];
        assert(e[j] == back[j].expired_at(now));
    }
}

/// A particle that is dead, whether it was already dead before a tick or its
/// deadline was reached at the tick's time, is not in the generation that the
/// tick publishes.
pub proof fn lemma_dead_absent_after_tick(
    back: Seq<Particle>,
    spawned: Particle,
    now: u64,
    p: Particle,
)
    requires
        p.status == Status::Dead,
    ensures
        !after_tick(back, spawned, now).contains(p),
        !after_tick(back, spawned, now).contains(p.expired_at(now)),
        forall|i: int|
            0 <= i < after_tick(back, spawned, now).len() ==> (#[trigger] after_tick(
                back,
                spawned,
                now,
            )[i]).alive(),
{
    lemma_prune_drops_dead(expired_all(back.push(spawned), now), p);
    lemma_prune_drops_dead(expired_all(back.push(spawned), now), p.expired_at(now));
}

} // verus!
