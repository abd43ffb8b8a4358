use vstd::prelude::*;

use vstd::rwlock::{RwLock, RwLockPredicate};

use crate::movement::in_enclosure;
use crate::particle::Particle;
use crate::system::ParticleSystem;

verus! {

/// The lock invariant of the shared handle: the population is fixed at
/// construction, and every particle stays inside the enclosure (the
/// origin, where all particles start, lies inside it).
pub struct FixedPopulation {
    pub count: int,
}

impl RwLockPredicate<ParticleSystem> for FixedPopulation {
    open spec fn inv(self, v: ParticleSystem) -> bool {
        &&& v@.len() == self.count
        &&& forall|i: int| 0 <= i < v@.len() ==> in_enclosure(v@[i])
    }
}

/// One particle system under shared ownership with mutual-exclusion
/// access, referenced by all workers. Every read and every write of the
/// collection happens under the lock, always in its exclusive form, so
/// a snapshot can never observe a partially written range: each
/// particle it holds is a whole value that some complete write (or the
/// construction) put there.
pub struct SharedParticleSystem {
    lock: RwLock<ParticleSystem, FixedPopulation>,
}

impl SharedParticleSystem {
    /// The fixed number of particles behind the lock.
    pub closed spec fn count(&self) -> int {
        self.lock.pred().count
    }

    /// Wraps a freshly constructed system of `count` particles, all at
    /// the origin, behind the lock.
    pub fn new(count: usize) -> (s: SharedParticleSystem)
        ensures
            s.count() == count,
    {
        let system = ParticleSystem::new(count);
        let lock = RwLock::new(system, Ghost(FixedPopulation { count: count as int }));
        SharedParticleSystem { lock }
    }

    /// The fixed particle count, read under the lock.
    pub fn len(&self) -> (n: usize)
        ensures
            n == self.count(),
    {
        let (system, write_handle) = self.lock.acquire_write();
        let n = system.len();
        write_handle.release_write(system);
        n
    }

    /// Full point-in-time copy of the collection, taken under the lock
    /// and released before the copy is used. Which positions it holds
    /// depends on which writes were complete at acquisition time; the
    /// lock invariant is all that holds of every outcome.
    pub fn snapshot(&self) -> (r: Vec<Particle>)
        ensures
            r@.len() == self.count(),
            forall|i: int| 0 <= i < r@.len() ==> in_enclosure(r@[i]),
    {
        let (system, write_handle) = self.lock.acquire_write();
        let r = system.snapshot();
        write_handle.release_write(system);
        r
    }

    /// Copy of the contiguous sub-range `[start, start + len)` of the
    /// collection, taken under the lock.
    pub fn read_range(&self, start: usize, len: usize) -> (r: Vec<Particle>)
        requires
            start + len <= self.count(),
        ensures
            r@.len() == len,
            forall|i: int| 0 <= i < r@.len() ==> in_enclosure(r@[i]),
    {
        let (system, write_handle) = self.lock.acquire_write();
        let r = system.read_range(start, len);
        assert(forall|i: int| 0 <= i < r@.len() ==> r@[i] == system@[start + i]);
        write_handle.release_write(system);
        r
    }

    /// Replaces the contiguous sub-range starting at `start` with the
    /// given values, as one whole write under the lock. Concurrent
    /// writers may replace the range again at any later time, so
    /// nothing can be promised of the collection afterwards beyond the
    /// lock invariant, which this write preserves.
    pub fn write_range(&self, start: usize, values: &Vec<Particle>)
        requires
            start + values@.len() <= self.count(),
            forall|i: int| 0 <= i < values@.len() ==> in_enclosure(values@[i]),
    {
        let (mut system, write_handle) = self.lock.acquire_write();
        system.write_range(start, values);
        write_handle.release_write(system);
    }
}

} // verus!
