//! The particle store: the live particles and the counter that hands out
//! their identities. Particles are never removed, so the particle at index
//! `i` is the `i`-th one spawned and carries the id `i`.

use vstd::prelude::*;
use crate::particle::{Particle, ParticleKind, Position};

verus! {

/// How many particles were ever spawned; also the next id to hand out.
#[derive(Clone, Copy, Debug, PartialEq, Eq, Structural)]
pub struct ParticleCount {
    pub count: u64,
}

impl ParticleCount {
    pub fn new() -> (r: ParticleCount)
        ensures
            r.count == 0,
    {
        ParticleCount { count: 0 }
    }

    /// Returns the current counter value, then increments it.
    pub fn next_id(&mut self) -> (id: u64)
        requires
            old(self).count < u64::MAX,
        ensures
            id == old(self).count,
            final(self).count == old(self).count + 1,
    {
        let id = self.count;
        self.count = self.count + 1;
        id
    }
}

/// The world's particles, in spawn order.
pub struct ParticleStore {
    pub(crate) particles: Vec<Particle>,
    pub(crate) count: ParticleCount,
}

impl View for ParticleStore {
    type V = Seq<Particle>;

    open(crate) spec fn view(&self) -> Seq<Particle> {
        self.particles@
    }
}

impl ParticleStore {
    /// The counter mirrors the population, and each particle's id is its
    /// place in spawn order.
    pub open(crate) spec fn wf(&self) -> bool {
        &&& self.count.count == self.particles@.len()
        &&& forall|i: int| 0 <= i < self.particles@.len() ==> (#[trigger] self.particles@[i]).id == i
    }

    pub open(crate) spec fn spec_count(&self) -> nat {
        self.count.count as nat
    }

    pub fn new() -> (r: ParticleStore)
        ensures
            r.wf(),
            r@ == Seq::<Particle>::empty(),
    {
        ParticleStore { particles: Vec::new(), count: ParticleCount::new() }
    }

    /// Number of live particles; equal to the number ever spawned.
    pub fn len(&self) -> (r: usize)
        requires
            self.wf(),
        ensures
            r == self@.len(),
    {
        self.particles.len()
    }

    /// The population counter.
    pub fn particle_count(&self) -> (r: ParticleCount)
        requires
            self.wf(),
        ensures
            r.count == self@.len(),
    {
        self.count
    }

    pub fn get(&self, i: usize) -> (r: Particle)
        requires
            i < self@.len(),
        ensures
            r == self@[i as int],
    {
        self.particles[i]
    }

    /// Creates a particle that is not at rest and returns its id, the
    /// counter's value before the call.
    pub fn insert(&mut self, kind: ParticleKind, position: Position) -> (id: u64)
        requires
            old(self).wf(),
            old(self)@.len() < u64::MAX,
        ensures
            final(self).wf(),
            id == old(self)@.len(),
            final(self)@ == old(self)@.push(
                Particle { id, kind, position, rest_state: false },
            ),
    {
        let id = self.count.next_id();
        self.particles.push(Particle { id, kind, position, rest_state: false });
        id
    }

    /// Overwrites the particle at `i` with a record that keeps its id and
    /// kind.
    pub(crate) fn set(&mut self, i: usize, p: Particle)
        requires
            old(self).wf(),
            i < old(self)@.len(),
            p.id == old(self)@[i as int].id,
        ensures
            final(self).wf(),
            final(self)@ == old(self)@.update(i as int, p),
    {
        self.particles.set(i, p);
    }
}

/// Ids are distinct and strictly increase in spawn order.
pub proof fn lemma_ids_increase(s: &ParticleStore)
    requires
        s.wf(),
    ensures
        forall|i: int, j: int| 0 <= i < j < s@.len() ==> s@[i].id < s@[j].id,
        forall|i: int| 0 <= i < s@.len() ==> s@[i].id < s.spec_count(),
{
}

} // verus!
