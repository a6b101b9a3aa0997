//! Reading bit fields and little-endian integers out of trace bytes.

use vstd::prelude::*;

verus! {

/// The field of `width` bits that starts `skip` bits below the most
/// significant bit of `b`. Fields of a byte are laid out from the top bit down.
pub open spec fn spec_bit_field(b: u8, skip: u8, width: u8) -> u8
    recommends
        1 <= width,
        skip + width <= 8,
{
    (b >> ((8 - skip - width) as u8)) & (0xffu8 >> ((8 - width) as u8))
}

/// Extracts a bit field that lies wholly inside one byte.
#[verifier::when_used_as_spec(spec_bit_field)]
pub fn bit_field(b: u8, skip: u8, width: u8) -> (r: u8)
    requires
        1 <= width,
        skip + width <= 8,
    ensures
        r == spec_bit_field(b, skip, width),
{
    (b >> (8 - skip - width)) & (0xffu8 >> (8 - width))
}

/// The number that `bytes` spell when read as a little-endian integer.
pub open spec fn le_value(bytes: Seq<u8>) -> nat
    decreases bytes.len(),
{
    if bytes.len() == 0 {
        0
    } else {
        bytes[0] as nat + 256 * le_value(bytes.drop_first())
    }
}

/// The number of values that `n` bytes can spell: 256 to the power `n`.
pub open spec fn radix(n: nat) -> nat
    decreases n,
{
    if n == 0 {
        1
    } else {
        256 * radix((n - 1) as nat)
    }
}

/// A little-endian number of `n` bytes is below `radix(n)`.
pub proof fn lemma_le_value_bound(bytes: Seq<u8>)
    ensures
        le_value(bytes) < radix(bytes.len()),
    decreases bytes.len(),
{
    if bytes.len() > 0 {
        lemma_le_value_bound(bytes.drop_first());
    }
}

/// Eight bytes spell exactly the range of a `u64`.
pub proof fn lemma_radix_values()
    ensures
        radix(0) == 1,
        radix(2) == 0x1_0000,
        radix(4) == 0x1_0000_0000,
        radix(6) == 0x1_0000_0000_0000,
        radix(8) == 0x1_0000_0000_0000_0000,
{
    reveal_with_fuel(radix, 9);
}

/// `radix` grows with the number of bytes.
pub proof fn lemma_radix_step(k: nat, n: nat)
    requires
        k < n,
    ensures
        256 * radix(k) <= radix(n),
    decreases n,
{
    if k + 1 < n {
        lemma_radix_step(k, (n - 1) as nat);
    }
}

/// Reads the first `n` bytes of `bytes` as a little-endian integer, or
/// nothing when fewer than `n` bytes are there.
pub fn read_le(bytes: &[u8], n: usize) -> (r: Option<u64>)
    requires
        n <= 8,
    ensures
        r is Some <==> n <= bytes@.len(),
        r matches Some(v) ==> v == le_value(bytes@.take(n as int)),
{
    if bytes.len() < n {
        return None;
    }
    let mut acc: u64 = 0;
    let mut i: usize = n;
    proof {
        lemma_radix_values();
    }
    while i > 0
        invariant
            i <= n <= 8,
            n <= bytes@.len(),
            acc == le_value(bytes@.subrange(i as int, n as int)),
            acc < radix((n - i) as nat),
            radix(8) == 0x1_0000_0000_0000_0000,
        decreases i,
    {
        i = i - 1;
        proof {
            let hi = bytes@.subrange(i + 1, n as int);
            let all = bytes@.subrange(i as int, n as int);
            assert(all.drop_first() =~= hi);
            assert(all[0] == bytes@[i as int]);
            lemma_radix_step((n - i - 1) as nat, 8);
        }
        acc = acc * 256 + bytes[i] as u64;
    }
    assert(bytes@.subrange(0, n as int) =~= bytes@.take(n as int));
    Some(acc)
}

} // verus!
