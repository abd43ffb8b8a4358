use vstd::prelude::*;

use crate::particle::Particle;

verus! {

/// Decimal digit bytes of `n`, most significant first, no sign and no
/// leading zeros (a single `'0'` for zero).
pub open spec fn decimal_digits(n: nat) -> Seq<u8>
    decreases n,
{
    if n < 10 {
        seq![(48 + n) as u8]
    } else {
        decimal_digits(n / 10) + seq![(48 + n % 10) as u8]
    }
}

/// The bytes of `" : x "`, between a particle's index and its first
/// coordinate.
pub open spec fn x_label() -> Seq<u8> {
    seq![32u8, 58u8, 32u8, 120u8, 32u8]
}

/// The bytes of `" y "`, between the two coordinates.
pub open spec fn y_label() -> Seq<u8> {
    seq![32u8, 121u8, 32u8]
}

/// What ends the listing entry of index `i`: a line break after every
/// fifth entry (indices 4, 9, 14, ...), the separator `" |"` everywhere
/// else. The break falls after index 4, not after index 5: lines hold
/// entries 0-4, 5-9, ..., so no line ever carries a sixth entry.
pub open spec fn entry_end(i: nat) -> Seq<u8> {
    if i % 5 == 4 {
        seq![10u8]
    } else {
        seq![32u8, 124u8]
    }
}

/// The listing entry of particle `p` at index `i`: the index, both
/// coordinates in decimal, and the entry's ending.
pub open spec fn entry_bytes(i: nat, p: Particle) -> Seq<u8> {
    decimal_digits(i) + x_label() + decimal_digits(p.x as nat) + y_label() + decimal_digits(
        p.y as nat,
    ) + entry_end(i)
}

/// The listing entries of the first `n` particles, in index order.
pub open spec fn entries_up_to(s: Seq<Particle>, n: nat) -> Seq<u8>
    decreases n,
{
    if n == 0 {
        Seq::empty()
    } else {
        entries_up_to(s, (n - 1) as nat) + entry_bytes((n - 1) as nat, s[n - 1])
    }
}

/// The separator line that terminates the listing.
pub open spec fn trailer() -> Seq<u8> {
    seq![10u8, 45u8, 45u8, 45u8, 45u8, 10u8]
}

/// The full human-readable listing of a particle sequence: one entry
/// per particle, grouped five per line, terminated by a separator line.
pub open spec fn dump_bytes(s: Seq<Particle>) -> Seq<u8> {
    entries_up_to(s, s.len()) + trailer()
}

/// Appends the decimal digits of `n` to `out`.
fn push_decimal(out: &mut Vec<u8>, n: u64)
    ensures
        final(out)@ == old(out)@ + decimal_digits(n as nat),
    decreases n,
{
    if n < 10 {
        out.push(48 + (n as u8));
        assert(out@ =~= old(out)@ + decimal_digits(n as nat));
    } else {
        push_decimal(out, n / 10);
        out.push(48 + ((n % 10) as u8));
        assert(out@ =~= old(out)@ + decimal_digits(n as nat));
    }
}

/// Appends the bytes of `" : x "` to `out`.
fn push_x_label(out: &mut Vec<u8>)
    ensures
        final(out)@ == old(out)@ + x_label(),
{
    out.push(32);
    out.push(58);
    out.push(32);
    out.push(120);
    out.push(32);
    assert(out@ =~= old(out)@ + x_label());
}

/// Appends the bytes of `" y "` to `out`.
fn push_y_label(out: &mut Vec<u8>)
    ensures
        final(out)@ == old(out)@ + y_label(),
{
    out.push(32);
    out.push(121);
    out.push(32);
    assert(out@ =~= old(out)@ + y_label());
}

/// Appends what ends the listing entry of index `i` to `out`.
fn push_entry_end(out: &mut Vec<u8>, i: usize)
    ensures
        final(out)@ == old(out)@ + entry_end(i as nat),
{
    if i % 5 == 4 {
        out.push(10);
    } else {
        out.push(32);
        out.push(124);
    }
    assert(out@ =~= old(out)@ + entry_end(i as nat));
}

/// Appends the terminating separator line to `out`.
fn push_trailer(out: &mut Vec<u8>)
    ensures
        final(out)@ == old(out)@ + trailer(),
{
    out.push(10);
    out.push(45);
    out.push(45);
    out.push(45);
    out.push(45);
    out.push(10);
    assert(out@ =~= old(out)@ + trailer());
}

/// Renders the listing of every particle's index and coordinates,
/// exactly as `dump_bytes` states it.
pub fn render_dump(particles: &Vec<Particle>) -> (out: Vec<u8>)
    requires
        particles@.len() <= u64::MAX,
    ensures
        out@ == dump_bytes(particles@),
{
    let mut out: Vec<u8> = Vec::new();
    let total: usize = particles.len();
    let mut i: usize = 0;
    while i < total
        invariant
            i <= total,
            total == particles@.len(),
            total <= u64::MAX,
            out@ == entries_up_to(particles@, i as nat),
        decreases total - i,
    {
        let p = particles[i];
        push_decimal(&mut out, i as u64);
        push_x_label(&mut out);
        push_decimal(&mut out, p.x as u64);
        push_y_label(&mut out);
        push_decimal(&mut out, p.y as u64);
        push_entry_end(&mut out, i);
        assert(out@ =~= entries_up_to(particles@, (i + 1) as nat));
        i += 1;
    }
    push_trailer(&mut out);
    assert(out@ =~= dump_bytes(particles@));
    out
}

} // verus!
