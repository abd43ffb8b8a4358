use vstd::prelude::*;

use crate::particle::{Particle, ENCLOSURE_W, ENCLOSURE_H};

verus! {

/// Relies on rand::random: a fresh sample of the standard distribution
/// from the thread-local generator. Nothing can be promised of a random
/// value, so this carries no contract.
pub assume_specification<T>[ rand::random::<T> ]() -> (r: T)
    where
        rand::distr::StandardUniform: rand::distr::Distribution<T>,
;

/// The coordinate obtained from one raw random sample: the sample
/// reduced into `[0, limit)`.
pub open spec fn coordinate_of_sample(r: u32, limit: u32) -> int
    recommends
        limit > 0,
{
    r as int % limit as int
}

/// A particle is inside the enclosure iff each coordinate is strictly
/// below the matching enclosure dimension.
pub open spec fn in_enclosure(p: Particle) -> bool {
    p.x < ENCLOSURE_W && p.y < ENCLOSURE_H
}

/// The particle placed by one movement step from two raw random
/// samples, one per coordinate.
pub open spec fn placed_particle(rx: u32, ry: u32) -> Particle {
    Particle {
        x: coordinate_of_sample(rx, ENCLOSURE_W) as u32,
        y: coordinate_of_sample(ry, ENCLOSURE_H) as u32,
    }
}

/// One movement step for a single particle: each coordinate is an
/// independent draw reduced into the enclosure. Deterministic in the
/// two samples, so a fixed sample sequence reproduces the positions.
pub fn place_particle(rx: u32, ry: u32) -> (p: Particle)
    ensures
        p == placed_particle(rx, ry),
        in_enclosure(p),
{
    Particle { x: rx % ENCLOSURE_W, y: ry % ENCLOSURE_H }
}

/// Replaces every particle of the list with the particle placed from
/// its pair of samples, in order. This is the whole of a movement step
/// once the random source has been sampled.
pub fn move_particles_with_samples(particle_list: &mut Vec<Particle>, samples: &Vec<(u32, u32)>)
    requires
        old(particle_list)@.len() == samples@.len(),
    ensures
        final(particle_list)@.len() == old(particle_list)@.len(),
        forall|i: int|
            0 <= i < samples@.len() ==> final(particle_list)@[i] == placed_particle(
                samples@[i].0,
                samples@[i].1,
            ),
        forall|i: int| 0 <= i < final(particle_list)@.len() ==> in_enclosure(final(particle_list)@[i]),
{
    let mut i: usize = 0;
    while i < particle_list.len()
        invariant
            i <= particle_list@.len(),
            particle_list@.len() == samples@.len(),
            forall|k: int|
                0 <= k < i ==> particle_list@[k] == placed_particle(samples@[k].0, samples@[k].1),
        decreases particle_list@.len() - i,
    {
        let (rx, ry): (u32, u32) = samples[i];
        particle_list[i] = place_particle(rx, ry);
        i += 1;
    }
}

/// Move all particles by a random amount inside the enclosure: every
/// particle's coordinates are resampled independently. The samples are
/// random, so beyond the enclosure bounds and the unchanged length
/// nothing is promised of the outcome.
pub fn random_move_particles(particle_list: &mut Vec<Particle>)
    ensures
        final(particle_list)@.len() == old(particle_list)@.len(),
        forall|i: int| 0 <= i < final(particle_list)@.len() ==> in_enclosure(final(particle_list)@[i]),
{
    let mut samples: Vec<(u32, u32)> = Vec::new();
    let mut i: usize = 0;
    let total: usize = particle_list.len();
    while i < total
        invariant
            i <= total,
            samples@.len() == i,
        decreases total - i,
    {
        let rx: u32 = rand::random::<u32>();
        let ry: u32 = rand::random::<u32>();
        samples.push((rx, ry));
        i += 1;
    }
    move_particles_with_samples(particle_list, &samples);
}

} // verus!
