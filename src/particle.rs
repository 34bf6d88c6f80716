//! A single particle: where it is, which way it faces, and when it dies.
use vstd::prelude::*;

use crate::mapper::Point;

verus! {

/// Thousandths of a degree in a full turn: headings lie in `0..HEADING_UNITS`.
pub const HEADING_UNITS: u32 = 360_000;

/// The lifecycle state of a particle. `Dead` is terminal.
#[derive(Clone, Copy, Debug, PartialEq, Eq, Structural)]
pub enum Status {
    Alive,
    Dead,
}

impl Default for Status {
    fn default() -> (r: Status)
        ensures
            r == Status::Alive,
    {
        Status::Alive
    }
}

/// A particle. Its deadline is fixed when it is made; its status only ever
/// goes from `Alive` to `Dead`.
#[derive(Clone, Copy, Debug, PartialEq, Eq, Structural)]
pub struct Particle {
    /// Where the particle is, in logical coordinates.
    pub position: Point,
    /// The direction it faces, in thousandths of a degree.
    pub heading: u32,
    /// The time, in milliseconds, from which on it is dead.
    pub deadline: u64,
    pub status: Status,
}

impl Particle {
    /// The particle made at `position`, facing `heading`, at time `now`, that
    /// lives for `ttl` milliseconds.
    pub open spec fn spawned(position: Point, heading: u32, now: u64, ttl: u64) -> Particle {
        Particle {
            position,
            heading,
            deadline: (now + ttl) as u64,
            status: Status::Alive,
        }
    }

    /// The particle after its expiry has been evaluated at time `now`.
    pub open spec fn expired_at(self, now: u64) -> Particle {
        if now >= self.deadline {
            Particle { status: Status::Dead, ..self }
        } else {
            self
        }
    }

    pub open spec fn alive(self) -> bool {
        self.status == Status::Alive
    }

    /// Makes a live particle at `position` whose deadline is `now + ttl`.
    pub fn new(position: Point, heading: u32, now: u64, ttl: u64) -> (r: Particle)
        requires
            now + ttl <= u64::MAX,
        ensures
            r == Particle::spawned(position, heading, now, ttl),
    {
        Particle { position, heading, deadline: now + ttl, status: Status::Alive }
    }

    /// Marks the particle dead if its deadline has been reached at `now`.
    pub fn expire(&mut self, now: u64)
        ensures
            *final(self) == old(self).expired_at(now),
    {
        if now >= self.deadline {
            self.status = Status::Dead;
        }
    }

    pub fn is_alive(&self) -> (r: bool)
        ensures
            r == self.alive(),
    {
        match self.status {
            Status::Alive => true,
            Status::Dead => false,
        }
    }

    /// The same particle at `position`.
    pub open spec fn moved_to_spec(self, position: Point) -> Particle {
        Particle { position, ..self }
    }

    /// The same particle moved to `position`.
    pub fn moved_to(self, position: Point) -> (r: Particle)
        ensures
            r == self.moved_to_spec(position),
    {
        Particle { position, ..self }
    }
}

impl Default for Particle {
    /// A live particle at the origin, facing heading zero, whose deadline is
    /// the start of time, so that it is due at once.
    fn default() -> (r: Particle)
        ensures
            r == (Particle {
                position: Point { x: 0, y: 0 },
                heading: 0,
                deadline: 0,
                status: Status::Alive,
            }),
    {
        Particle { position: Point { x: 0, y: 0 }, heading: 0, deadline: 0, status: Status::Alive }
    }
}

/// A dead particle stays dead whenever its expiry is evaluated again, and
/// evaluating expiry never touches anything but the status.
pub proof fn lemma_dead_is_terminal(p: Particle, now: u64)
    requires
        p.status == Status::Dead,
    ensures
        p.expired_at(now).status == Status::Dead,
        p.expired_at(now) == p,
{
}

/// A particle made at `t0` with lifetime `ttl` is alive when evaluated at any
/// time before `t0 + ttl`, and dead at any time from `t0 + ttl` on.
pub proof fn lemma_alive_until_deadline(position: Point, heading: u32, t0: u64, ttl: u64, now: u64)
    requires
        t0 + ttl <= u64::MAX,
    ensures
        Particle::spawned(position, heading, t0, ttl).expired_at(now).alive() <==> now < t0 + ttl,
        now >= t0 + ttl ==> Particle::spawned(position, heading, t0, ttl).expired_at(now).status
            == Status::Dead,
{
}

} // verus!
