//! The double-buffered particle store: a stable front generation for readers
//! and a back generation that the update pass writes.
use vstd::prelude::*;

use crate::mapper::Point;
use crate::particle::{Particle, Status};
use dubble::DoubleBuffered;

verus! {

#[verifier::external_type_specification]
#[verifier::external_body]
#[verifier::reject_recursive_types(T)]
pub struct ExDoubleBuffered<T: Clone>(DoubleBuffered<T>);

/// What the read side of a double buffer of particles holds.
pub uninterp spec fn front_of(d: DoubleBuffered<Vec<Particle>>) -> Seq<Particle>;

/// What the write side of a double buffer of particles holds.
pub uninterp spec fn back_of(d: DoubleBuffered<Vec<Particle>>) -> Seq<Particle>;

/// Relies on `DoubleBuffered::new`: both sides start as clones of the empty
/// vector.
#[verifier::external_body]
fn buffers_new() -> (r: DoubleBuffered<Vec<Particle>>)
    ensures
        front_of(r) == Seq::<Particle>::empty(),
        back_of(r) == Seq::<Particle>::empty(),
{
    DoubleBuffered::new(Vec::new())
}

/// Relies on `DoubleBuffered::read`: a reference to the read side.
#[verifier::external_body]
fn buffers_read(d: &DoubleBuffered<Vec<Particle>>) -> (r: &Vec<Particle>)
    ensures
        r@ == front_of(*d),
{
    d.read()
}

/// Relies on `DoubleBuffered::write`: a mutable reference to the write side,
/// whose value is swapped for `v`; the read side is not touched.
#[verifier::external_body]
fn buffers_replace_back(d: &mut DoubleBuffered<Vec<Particle>>, v: Vec<Particle>) -> (r: Vec<
    Particle,
>)
    ensures
        r@ == back_of(*old(d)),
        back_of(*final(d)) == v@,
        front_of(*final(d)) == front_of(*old(d)),
{
    std::mem::replace(d.write(), v)
}

/// Relies on `DoubleBuffered::update`: the read side becomes a clone of the
/// write side, which stays as it was. `Particle` is `Copy`, so a clone holds
/// the same particles.
#[verifier::external_body]
fn buffers_update(d: &mut DoubleBuffered<Vec<Particle>>)
    ensures
        front_of(*final(d)) == back_of(*old(d)),
        back_of(*final(d)) == back_of(*old(d)),
{
    d.update()
}

/// Every particle evaluated for expiry at `now`.
pub open spec fn expired_all(s: Seq<Particle>, now: u64) -> Seq<Particle> {
    s.map_values(|p: Particle| p.expired_at(now))
}

/// The live particles of `s`, in their order.
pub open spec fn pruned(s: Seq<Particle>) -> Seq<Particle> {
    s.filter(|p: Particle| p.alive())
}

/// One change to the back generation.
#[derive(Clone, Copy, Debug, PartialEq, Eq, Structural)]
pub enum Write {
    /// Append a particle.
    Push(Particle),
    /// Evaluate every particle's expiry at the given time.
    Expire(u64),
    /// Drop the dead particles.
    Prune,
    /// Move the particle at an index, if there is one there.
    Move(usize, Point),
}

/// The back generation `back` after the write `w`.
pub open spec fn written(back: Seq<Particle>, w: Write) -> Seq<Particle> {
    match w {
        Write::Push(p) => back.push(p),
        Write::Expire(now) => expired_all(back, now),
        Write::Prune => pruned(back),
        Write::Move(i, position) => if i < back.len() {
            back.update(i as int, back[i as int].moved_to_spec(position))
        } else {
            back
        },
    }
}

/// The front and back generations after the write `w`: the front is not
/// touched.
pub open spec fn after_write(v: (Seq<Particle>, Seq<Particle>), w: Write) -> (
    Seq<Particle>,
    Seq<Particle>,
) {
    (v.0, written(v.1, w))
}

/// The front and back generations after the writes `ws`, in order.
pub open spec fn after_writes(v: (Seq<Particle>, Seq<Particle>), ws: Seq<Write>) -> (
    Seq<Particle>,
    Seq<Particle>,
)
    decreases ws.len(),
{
    if ws.len() == 0 {
        v
    } else {
        after_write(after_writes(v, ws.drop_last()), ws.last())
    }
}

/// The front and back generations after a publish.
pub open spec fn after_publish(v: (Seq<Particle>, Seq<Particle>)) -> (
    Seq<Particle>,
    Seq<Particle>,
) {
    (v.1, v.1)
}

/// Two generations of particles. Readers see the front; every write goes to
/// the back; `publish` makes the back the new front.
pub struct Store {
    buffers: DoubleBuffered<Vec<Particle>>,
}

impl Store {
    /// The generation that readers see.
    pub closed spec fn front(&self) -> Seq<Particle> {
        front_of(self.buffers)
    }

    /// The generation being written.
    pub closed spec fn back(&self) -> Seq<Particle> {
        back_of(self.buffers)
    }

    pub fn new() -> (r: Store)
        ensures
            r.front() == Seq::<Particle>::empty(),
            r.back() == Seq::<Particle>::empty(),
    {
        Store { buffers: buffers_new() }
    }

    /// A view of the front generation.
    pub fn read(&self) -> (r: &Vec<Particle>)
        ensures
            r@ == self.front(),
    {
        buffers_read(&self.buffers)
    }

    /// Makes the back generation the front one; the back keeps its particles
    /// for the next round of writes.
    pub fn publish(&mut self)
        ensures
            final(self).front() == old(self).back(),
            final(self).back() == old(self).back(),
    {
        buffers_update(&mut self.buffers)
    }

    /// Applies the write `w` to the back generation.
    pub fn write(&mut self, w: Write)
        ensures
            (final(self).front(), final(self).back()) == after_write(
                (old(self).front(), old(self).back()),
                w,
            ),
    {
        match w {
            Write::Push(p) => self.push(p),
            Write::Expire(now) => self.expire_all(now),
            Write::Prune => self.prune(),
            Write::Move(i, position) => {
                if i < self.back_len() {
                    self.move_particle(i, position);
                }
            },
        }
    }

    /// Appends `p` to the back generation.
    pub fn push(&mut self, p: Particle)
        ensures
            final(self).back() == old(self).back().push(p),
            final(self).front() == old(self).front(),
    {
        let mut v = buffers_replace_back(&mut self.buffers, Vec::new());
        v.push(p);
        let _ = buffers_replace_back(&mut self.buffers, v);
    }

    /// The number of particles in the back generation.
    pub fn back_len(&mut self) -> (r: usize)
        ensures
            r == old(self).back().len(),
            final(self).back() == old(self).back(),
            final(self).front() == old(self).front(),
    {
        let v = buffers_replace_back(&mut self.buffers, Vec::new());
        let n = v.len();
        let _ = buffers_replace_back(&mut self.buffers, v);
        n
    }

    /// Evaluates the expiry of every particle of the back generation at `now`.
    pub fn expire_all(&mut self, now: u64)
        ensures
            final(self).back() == expired_all(old(self).back(), now),
            final(self).front() == old(self).front(),
    {
        let mut v = buffers_replace_back(&mut self.buffers, Vec::new());
        let ghost s = v@;
        let n = v.len();
        let mut i: usize = 0;
        while i < n
            invariant
                n == s.len(),
                v@.len() == n,
                i <= n,
                forall|j: int| 0 <= j < i ==> v@[j] == s[j].expired_at(now),
                forall|j: int| i <= j < n ==> v@[j] == s[j],
            decreases n - i,
        {
            let mut p = v[i];
            p.expire(now);
            v.set(i, p);
            i = i + 1;
        }
        assert(v@ =~= expired_all(s, now));
        let _ = buffers_replace_back(&mut self.buffers, v);
    }

    /// Drops every dead particle from the back generation, keeping the order
    /// of the others.
    pub fn prune(&mut self)
        ensures
            final(self).back() == pruned(old(self).back()),
            final(self).front() == old(self).front(),
    {
        let v = buffers_replace_back(&mut self.buffers, Vec::new());
        let ghost s = v@;
        let mut kept: Vec<Particle> = Vec::new();
        let mut i: usize = 0;
        while i < v.len()
            invariant
                v@ == s,
                i <= s.len(),
                kept@ == pruned(s.subrange(0, i as int)),
            decreases s.len() - i,
        {
            let p = v[i];
            proof {
                let next = s.subrange(0, i + 1);
                reveal(Seq::filter);
                assert(next.drop_last() =~= s.subrange(0, i as int));
                assert(next.last() == p);
                assert(pruned(next) == if p.alive() {
                    pruned(s.subrange(0, i as int)).push(p)
                } else {
                    pruned(s.subrange(0, i as int))
                });
            }
            if p.is_alive() {
                kept.push(p);
            }
            i = i + 1;
        }
        assert(s.subrange(0, s.len() as int) =~= s);
        let _ = buffers_replace_back(&mut self.buffers, kept);
    }

    /// Moves the particle at index `i` of the back generation to `position`.
    pub fn move_particle(&mut self, i: usize, position: Point)
        requires
            i < old(self).back().len(),
        ensures
            final(self).back() == old(self).back().update(
                i as int,
                old(self).back()[i as int].moved_to_spec(position),
            ),
            final(self).front() == old(self).front(),
    {
        let mut v = buffers_replace_back(&mut self.buffers, Vec::new());
        let p = v[i].moved_to(position);
        v.set(i, p);
        let _ = buffers_replace_back(&mut self.buffers, v);
    }
}

/// What a reader sees is stable: however many writes follow a read, the
/// front generation is the one that was read, and none of the particles
/// that the writes add, drop or change shows in it until the next publish;
/// after that the front is exactly the back that the writes produced.
pub proof fn lemma_readers_see_no_writes(
    front: Seq<Particle>,
    back: Seq<Particle>,
    ws: Seq<Write>,
)
    ensures
        after_writes((front, back), ws).0 == front,
        after_publish(after_writes((front, back), ws)).0 == after_writes((front, back), ws).1,
        after_publish(after_writes((front, back), ws)).1 == after_writes((front, back), ws).1,
    decreases ws.len(),
{
    if ws.len() > 0 {
        lemma_readers_see_no_writes(front, back, ws.drop_last());
    }
}

/// A dead particle is gone from a generation once it has been pruned, and
/// every particle that pruning keeps is alive.
pub proof fn lemma_prune_drops_dead(s: Seq<Particle>, p: Particle)
    requires
        p.status == Status::Dead,
    ensures
        !pruned(s).contains(p),
        forall|i: int| 0 <= i < pruned(s).len() ==> (#[trigger] pruned(s)[i]).alive(),
{
    broadcast use vstd::seq_lib::group_filter_ensures;

    let f = |q: Particle| q.alive();
    if pruned(s).contains(p) {
        let i = choose|i: int| 0 <= i < pruned(s).len() && pruned(s)[i] == p;
        assert(f(pruned(s)[i]));
    }
}

} // verus!
