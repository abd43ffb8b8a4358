use vstd::prelude::*;

use vstd::arithmetic::div_mod::lemma_fundamental_div_mod;

verus! {

/// Chunk size used to split `particle_count` indices over
/// `mover_count` mover workers: plain integer division.
pub open spec fn spec_chunk_size(particle_count: int, mover_count: int) -> int
    recommends
        mover_count > 0,
{
    particle_count / mover_count
}

/// Start index of worker `i`'s chunk.
pub open spec fn spec_chunk_start(i: int, particle_count: int, mover_count: int) -> int {
    i * spec_chunk_size(particle_count, mover_count)
}

/// Length of worker `i`'s chunk: the chunk size, clamped so that the
/// chunk never reaches past index `particle_count - 1`. The clamp
/// bound is `particle_count - 1`, not `particle_count`, so the last
/// valid index is left out of any clamped chunk: this mirrors the
/// simulation's observed partitioning exactly and is deliberately not
/// rounded up to cover the tail.
pub open spec fn spec_chunk_len(i: int, particle_count: int, mover_count: int) -> int {
    let chunk_size = spec_chunk_size(particle_count, mover_count);
    let start = spec_chunk_start(i, particle_count, mover_count);
    if start + chunk_size > particle_count - 1 {
        particle_count - 1 - start
    } else {
        chunk_size
    }
}

proof fn lemma_chunk_start_in_range(i: int, particle_count: int, mover_count: int)
    requires
        0 < mover_count,
        0 < particle_count,
        0 <= i < mover_count,
    ensures
        0 <= spec_chunk_start(i, particle_count, mover_count) <= particle_count - 1,
        spec_chunk_start(i, particle_count, mover_count) + spec_chunk_size(
            particle_count,
            mover_count,
        ) <= particle_count,
{
    let q = spec_chunk_size(particle_count, mover_count);
    lemma_fundamental_div_mod(particle_count, mover_count);
    assert(q >= 0) by (nonlinear_arith)
        requires
            particle_count == mover_count * q + particle_count % mover_count,
            0 <= particle_count % mover_count,
            0 < mover_count,
            0 < particle_count,
    ;
    assert(i * q >= 0) by (nonlinear_arith)
        requires
            i >= 0,
            q >= 0,
    ;
    assert(i * q + q <= mover_count * q) by (nonlinear_arith)
        requires
            i <= mover_count - 1,
            q >= 0,
    ;
    assert(mover_count * q <= particle_count) by (nonlinear_arith)
        requires
            particle_count == mover_count * q + particle_count % mover_count,
            0 <= particle_count % mover_count,
    ;
    if q >= 1 {
        assert(i * q <= particle_count - 1);
    } else {
        assert(i * q == 0) by (nonlinear_arith)
            requires
                q == 0,
        ;
    }
}

/// The partition of `[0, particle_count)` into `mover_count` chunks
/// of `(start, len)` pairs, one per mover worker, under the clamp rule
/// of `spec_chunk_len`. Every chunk lies inside the index range; a
/// zero `particle_count` is excluded because the clamp bound
/// `particle_count - 1` would have no meaning there.
pub fn partition_chunks(particle_count: usize, mover_count: usize) -> (chunks: Vec<(usize, usize)>)
    requires
        0 < mover_count,
        0 < particle_count,
    ensures
        chunks@.len() == mover_count,
        forall|k: int|
            0 <= k < mover_count ==> chunks@[k].0 == spec_chunk_start(
                k,
                particle_count as int,
                mover_count as int,
            ),
        forall|k: int|
            0 <= k < mover_count ==> chunks@[k].1 == spec_chunk_len(
                k,
                particle_count as int,
                mover_count as int,
            ),
        forall|k: int|
            0 <= k < mover_count ==> chunks@[k].0 + chunks@[k].1 <= particle_count - 1,
{
    let chunk_size: usize = particle_count / mover_count;
    let mut chunks: Vec<(usize, usize)> = Vec::new();
    let mut i: usize = 0;
    while i < mover_count
        invariant
            i <= mover_count,
            0 < mover_count,
            0 < particle_count,
            chunk_size == spec_chunk_size(particle_count as int, mover_count as int),
            chunks@.len() == i,
            forall|k: int|
                0 <= k < i ==> chunks@[k].0 == spec_chunk_start(
                    k,
                    particle_count as int,
                    mover_count as int,
                ),
            forall|k: int|
                0 <= k < i ==> chunks@[k].1 == spec_chunk_len(
                    k,
                    particle_count as int,
                    mover_count as int,
                ),
            forall|k: int|
                0 <= k < i ==> chunks@[k].0 + chunks@[k].1 <= particle_count - 1,
        decreases mover_count - i,
    {
        proof {
            lemma_chunk_start_in_range(i as int, particle_count as int, mover_count as int);
        }
        let chunk_idx: usize = i * chunk_size;
        let mut chunk_len: usize = chunk_size;
        if chunk_idx + chunk_len > particle_count - 1 {
            chunk_len = particle_count - chunk_idx - 1;
        }
        chunks.push((chunk_idx, chunk_len));
        i += 1;
    }
    chunks
}

/// The worker whose chunk holds particle index `idx`.
pub open spec fn owning_worker(idx: int, particle_count: int, mover_count: int) -> int {
    idx / spec_chunk_size(particle_count, mover_count)
}

/// The partition covers as much of the index range as exact division
/// allows: every index below both `particle_count - 1` and
/// `mover_count * chunk_size` lies inside the chunk of its owning
/// worker. (Index `particle_count - 1` itself is owed to no worker:
/// see the clamp rule of `spec_chunk_len`.)
pub proof fn lemma_chunks_cover(particle_count: int, mover_count: int, idx: int)
    requires
        0 < mover_count,
        0 < particle_count,
        0 <= idx < particle_count - 1,
        idx < mover_count * spec_chunk_size(particle_count, mover_count),
    ensures
        0 <= owning_worker(idx, particle_count, mover_count) < mover_count,
        spec_chunk_start(owning_worker(idx, particle_count, mover_count), particle_count,
            mover_count) <= idx < spec_chunk_start(
            owning_worker(idx, particle_count, mover_count),
            particle_count,
            mover_count,
        ) + spec_chunk_len(owning_worker(idx, particle_count, mover_count), particle_count,
            mover_count),
{
    let q = spec_chunk_size(particle_count, mover_count);
    assert(q >= 1) by (nonlinear_arith)
        requires
            0 < mover_count,
            0 <= idx,
            idx < mover_count * q,
    ;
    let k = owning_worker(idx, particle_count, mover_count);
    lemma_fundamental_div_mod(idx, q);
    assert(k >= 0) by (nonlinear_arith)
        requires
            idx == q * k + idx % q,
            0 <= idx % q < q,
            q >= 1,
            idx >= 0,
    ;
    assert(k * q <= idx < k * q + q) by (nonlinear_arith)
        requires
            idx == q * k + idx % q,
            0 <= idx % q < q,
    ;
    assert(k < mover_count) by (nonlinear_arith)
        requires
            k * q <= idx,
            idx < mover_count * q,
            q >= 1,
            k >= 0,
    ;
}

/// The chunks of the partition are pairwise disjoint index ranges: a
/// particle index inside one worker's chunk lies inside no other
/// worker's chunk.
pub proof fn lemma_chunks_disjoint(
    particle_count: int,
    mover_count: int,
    k1: int,
    k2: int,
    idx: int,
)
    requires
        0 < mover_count,
        0 < particle_count,
        0 <= k1 < mover_count,
        0 <= k2 < mover_count,
        k1 != k2,
        spec_chunk_start(k1, particle_count, mover_count) <= idx < spec_chunk_start(
            k1,
            particle_count,
            mover_count,
        ) + spec_chunk_len(k1, particle_count, mover_count),
    ensures
        !(spec_chunk_start(k2, particle_count, mover_count) <= idx < spec_chunk_start(
            k2,
            particle_count,
            mover_count,
        ) + spec_chunk_len(k2, particle_count, mover_count)),
{
    let q = spec_chunk_size(particle_count, mover_count);
    lemma_chunk_start_in_range(k1, particle_count, mover_count);
    lemma_chunk_start_in_range(k2, particle_count, mover_count);
    assert(spec_chunk_len(k1, particle_count, mover_count) <= q);
    assert(spec_chunk_len(k2, particle_count, mover_count) <= q);
    if k1 < k2 {
        assert(k1 * q + q <= k2 * q) by (nonlinear_arith)
            requires
                k1 < k2,
                q >= 0,
        ;
    } else {
        assert(k2 * q + q <= k1 * q) by (nonlinear_arith)
            requires
                k2 < k1,
                q >= 0,
        ;
    }
}

} // verus!
