use vstd::prelude::*;

use crate::particle::{overlaps, Particle};

verus! {

/// Number of overlapping pairs `(i, j')` with `j <= j' < s.len()`, for a
/// fixed first index `i`.
pub open spec fn row_count(s: Seq<Particle>, i: int, j: int) -> nat
    decreases s.len() - j,
{
    if 0 <= j && j < s.len() {
        (if overlaps(s[i], s[j]) {
            1nat
        } else {
            0nat
        }) + row_count(s, i, j + 1)
    } else {
        0
    }
}

/// Number of overlapping unordered pairs `(i', j)` with
/// `i <= i' < j < s.len()`.
pub open spec fn pair_count_from(s: Seq<Particle>, i: int) -> nat
    decreases s.len() - i,
{
    if 0 <= i && i < s.len() {
        row_count(s, i, i + 1) + pair_count_from(s, i + 1)
    } else {
        0
    }
}

/// Total number of unordered index pairs `(i, j)` with `i < j` whose
/// particles overlap in the given snapshot.
pub open spec fn collision_count(s: Seq<Particle>) -> nat {
    pair_count_from(s, 0)
}

proof fn lemma_row_count_bound(s: Seq<Particle>, i: int, j: int)
    requires
        0 <= j,
    ensures
        row_count(s, i, j) <= s.len() - j || row_count(s, i, j) == 0,
        row_count(s, i, j) <= s.len(),
    decreases s.len() - j,
{
    if j < s.len() {
        lemma_row_count_bound(s, i, j + 1);
    }
}

proof fn lemma_pair_count_bound(s: Seq<Particle>, i: int)
    requires
        0 <= i,
    ensures
        pair_count_from(s, i) <= (s.len() - i) * s.len() || pair_count_from(s, i) == 0,
    decreases s.len() - i,
{
    if i < s.len() {
        lemma_pair_count_bound(s, i + 1);
        lemma_row_count_bound(s, i, i + 1);
        assert((s.len() - i) * s.len() == (s.len() - (i + 1)) * s.len() + s.len())
            by (nonlinear_arith);
    }
}

/// Scan all unordered index pairs `(i, j)` with `i < j` over the
/// snapshot and count the pairs that overlap. Brute force, no early
/// exit and no deduplication: the same physical pair found overlapping
/// in two snapshots counts twice across the two scans.
pub fn count_collisions(particles: &Vec<Particle>) -> (count: u64)
    requires
        particles@.len() < 0x1_0000_0000,
    ensures
        count == collision_count(particles@),
        count <= particles@.len() * particles@.len(),
{
    let ghost s = particles@;
    proof {
        lemma_pair_count_bound(s, 0);
        assert(s.len() * s.len() < 0x1_0000_0000_0000_0000) by (nonlinear_arith)
            requires
                s.len() < 0x1_0000_0000,
        ;
    }
    let mut collision_count: u64 = 0;
    let total: usize = particles.len();
    let mut i: usize = 0;
    while i < total
        invariant
            i <= total,
            total == s.len(),
            s == particles@,
            collision_count + pair_count_from(s, i as int) == pair_count_from(s, 0),
            pair_count_from(s, 0) < 0x1_0000_0000_0000_0000,
        decreases total - i,
    {
        let mut j: usize = i + 1;
        while j < total
            invariant
                i < j <= total,
                i < total,
                total == s.len(),
                s == particles@,
                collision_count + row_count(s, i as int, j as int) + pair_count_from(
                    s,
                    i + 1,
                ) == pair_count_from(s, 0),
                pair_count_from(s, 0) < 0x1_0000_0000_0000_0000,
            decreases total - j,
        {
            if particles[i].perform_collision_check(&particles[j]) {
                collision_count += 1;
            }
            j += 1;
        }
        i += 1;
    }
    collision_count
}

} // verus!
