use vstd::prelude::*;

use crate::particle::Particle;

verus! {

/// An owned, fixed-size, ordered collection of particles. The length is
/// fixed at construction; the only mutation path after construction is
/// `write_range`.
pub struct ParticleSystem {
    particles: Vec<Particle>,
}

impl View for ParticleSystem {
    type V = Seq<Particle>;

    closed spec fn view(&self) -> Seq<Particle> {
        self.particles@
    }
}

impl ParticleSystem {
    /// Allocates `count` particles, all at the origin `(0, 0)`; the
    /// simulation's random movement disperses them afterward.
    pub fn new(count: usize) -> (s: ParticleSystem)
        ensures
            s@.len() == count,
            forall|i: int| 0 <= i < count ==> s@[i] == (Particle { x: 0, y: 0 }),
    {
        let mut created_particles: Vec<Particle> = Vec::new();
        let mut n: usize = 0;
        while n < count
            invariant
                n <= count,
                created_particles@.len() == n,
                forall|i: int| 0 <= i < n ==> created_particles@[i] == (Particle { x: 0, y: 0 }),
            decreases count - n,
        {
            created_particles.push(Particle { x: 0, y: 0 });
            n += 1;
        }
        ParticleSystem { particles: created_particles }
    }

    /// Number of particles in the system.
    pub fn len(&self) -> (n: usize)
        ensures
            n == self@.len(),
    {
        self.particles.len()
    }

    /// Full point-in-time copy of all particles, so a scan can run
    /// against it without further access to the system.
    pub fn snapshot(&self) -> (r: Vec<Particle>)
        ensures
            r@ == self@,
    {
        let mut r: Vec<Particle> = Vec::new();
        let mut i: usize = 0;
        while i < self.particles.len()
            invariant
                i <= self.particles@.len(),
                r@ == self.particles@.subrange(0, i as int),
            decreases self.particles@.len() - i,
        {
            r.push(self.particles[i]);
            assert(r@ =~= self.particles@.subrange(0, i + 1));
            i += 1;
        }
        assert(r@ =~= self.particles@);
        r
    }

    /// Copy of the contiguous sub-range `[start, start + len)`.
    pub fn read_range(&self, start: usize, len: usize) -> (r: Vec<Particle>)
        requires
            start + len <= self@.len(),
        ensures
            r@ == self@.subrange(start as int, start + len),
    {
        let total: usize = self.particles.len();
        let mut r: Vec<Particle> = Vec::new();
        let mut i: usize = 0;
        while i < len
            invariant
                i <= len,
                start + len <= total,
                total == self.particles@.len(),
                r@ == self.particles@.subrange(start as int, start + i),
            decreases len - i,
        {
            r.push(self.particles[start + i]);
            assert(r@ =~= self.particles@.subrange(start as int, start + i + 1));
            i += 1;
        }
        r
    }

    /// The human-readable listing of every particle's index and
    /// coordinates, grouped five per line and terminated by a separator
    /// line, as bytes; printing them is the caller's concern.
    pub fn debug_dump_bytes(&self) -> (out: Vec<u8>)
        requires
            self@.len() <= u64::MAX,
        ensures
            out@ == crate::dump::dump_bytes(self@),
    {
        crate::dump::render_dump(&self.particles)
    }

    /// Replaces the contiguous sub-range starting at `start` with the
    /// given values, in place; every index outside the range keeps its
    /// old particle, and the whole range is replaced as one value.
    pub fn write_range(&mut self, start: usize, values: &Vec<Particle>)
        requires
            start + values@.len() <= old(self)@.len(),
        ensures
            final(self)@.len() == old(self)@.len(),
            forall|i: int|
                0 <= i < old(self)@.len() ==> final(self)@[i] == (if start <= i
                    < start + values@.len() {
                    values@[i - start]
                } else {
                    old(self)@[i]
                }),
    {
        let total: usize = self.particles.len();
        let mut i: usize = 0;
        while i < values.len()
            invariant
                i <= values@.len(),
                start + values@.len() <= total,
                total == self.particles@.len(),
                self.particles@.len() == old(self)@.len(),
                forall|k: int|
                    0 <= k < self.particles@.len() ==> self.particles@[k] == (if start <= k
                        < start + i {
                        values@[k - start]
                    } else {
                        old(self)@[k]
                    }),
            decreases values@.len() - i,
        {
            self.particles[start + i] = values[i];
            i += 1;
        }
    }
}

} // verus!
