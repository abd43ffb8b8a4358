use vstd::prelude::*;

verus! {

/// Coordinate units per length unit of the enclosure's coordinate space:
/// positions are fixed-point thousandths of a length unit.
pub const COORD_SCALE: u32 = 1000;

/// Enclosure width in coordinate units (10 length units).
pub const ENCLOSURE_W: u32 = 10 * COORD_SCALE;

/// Enclosure height in coordinate units (10 length units).
pub const ENCLOSURE_H: u32 = 10 * COORD_SCALE;

/// Squared collision radius in squared coordinate units: the radius is
/// 0.1 length units, i.e. 100 coordinate units, so its square is 10_000.
/// (Comparing squared distances saves square rooting the distance.)
pub const PARTICLE_RADIUS_SQUARED: u64 = 10_000;

/// A single 2D point entity. Identity is positional (its index in the
/// collection); the coordinates are fixed-point (see `COORD_SCALE`).
#[derive(Debug, Copy, Clone, PartialEq, Eq, Structural)]
pub struct Particle {
    pub x: u32,
    pub y: u32,
}

/// Squared Euclidean distance between two particles, in squared
/// coordinate units.
pub open spec fn squared_distance(a: Particle, b: Particle) -> int {
    (a.x - b.x) * (a.x - b.x) + (a.y - b.y) * (a.y - b.y)
}

/// Two particles overlap iff their squared distance is strictly below
/// the squared collision radius.
pub open spec fn overlaps(a: Particle, b: Particle) -> bool {
    squared_distance(a, b) < PARTICLE_RADIUS_SQUARED as int
}

impl Particle {
    /// Compare the distance between two particles; they have collided iff
    /// the squared distance is strictly less than the squared radius.
    pub fn perform_collision_check(&self, other_particle: &Particle) -> (r: bool)
        ensures
            r == overlaps(*self, *other_particle),
    {
        let dist_x: u64 = if self.x >= other_particle.x {
            (self.x - other_particle.x) as u64
        } else {
            (other_particle.x - self.x) as u64
        };
        let dist_y: u64 = if self.y >= other_particle.y {
            (self.y - other_particle.y) as u64
        } else {
            (other_particle.y - self.y) as u64
        };
        proof {
            let dx = self.x - other_particle.x;
            let dy = self.y - other_particle.y;
            assert(dist_x * dist_x == dx * dx) by (nonlinear_arith)
                requires
                    dist_x == dx || dist_x == -dx,
            ;
            assert(dist_y * dist_y == dy * dy) by (nonlinear_arith)
                requires
                    dist_y == dy || dist_y == -dy,
            ;
            assert(dist_x * dist_x <= 0xffff_ffff * 0xffff_ffff) by (nonlinear_arith)
                requires
                    0 <= dist_x <= 0xffff_ffff,
            ;
            assert(dist_y * dist_y <= 0xffff_ffff * 0xffff_ffff) by (nonlinear_arith)
                requires
                    0 <= dist_y <= 0xffff_ffff,
            ;
        }
        let squared_distance: u128 = (dist_x as u128) * (dist_x as u128)
            + (dist_y as u128) * (dist_y as u128);
        squared_distance < (PARTICLE_RADIUS_SQUARED as u128)
    }
}

/// Overlap is symmetric: the squared distance does not depend on the
/// order of the two particles.
pub proof fn lemma_overlaps_symmetric(a: Particle, b: Particle)
    ensures
        overlaps(a, b) == overlaps(b, a),
{
    assert((a.x - b.x) * (a.x - b.x) == (b.x - a.x) * (b.x - a.x)) by (nonlinear_arith);
    assert((a.y - b.y) * (a.y - b.y) == (b.y - a.y) * (b.y - a.y)) by (nonlinear_arith);
}

/// A particle overlaps itself: the squared distance to itself is zero.
pub proof fn lemma_overlaps_self(a: Particle)
    ensures
        overlaps(a, a),
{
}

} // verus!
