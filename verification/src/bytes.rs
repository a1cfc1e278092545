//! Whole numbers as little-endian bytes.

use vstd::prelude::*;

verus! {

/// The number that `bytes` spell, least significant byte first.
pub open spec fn le_value(bytes: Seq<u8>) -> nat
    decreases bytes.len(),
{
    if bytes.len() == 0 {
        0
    } else {
        bytes[0] as nat + 256 * le_value(bytes.drop_first())
    }
}

/// The `n` low bytes of `v`, least significant byte first.
pub open spec fn le_bytes(v: nat, n: nat) -> Seq<u8>
    decreases n,
{
    if n == 0 {
        Seq::empty()
    } else {
        seq![(v % 256) as u8] + le_bytes(v / 256, (n - 1) as nat)
    }
}

/// The count of numbers that `n` bytes can spell.
pub open spec fn radix_power(n: nat) -> nat
    decreases n,
{
    if n == 0 {
        1
    } else {
        256 * radix_power((n - 1) as nat)
    }
}

/// The number below `radix_power(width)` that stands for `v` in two's
/// complement.
pub open spec fn twos_complement(v: int, width: nat) -> nat {
    if v < 0 {
        (v + radix_power(width)) as nat
    } else {
        v as nat
    }
}

/// The number for which `u` stands in two's complement of `width` bytes.
pub open spec fn from_twos_complement(u: nat, width: nat) -> int {
    if 2 * u >= radix_power(width) {
        u - radix_power(width)
    } else {
        u as int
    }
}

/// The counts for the widths in use.
pub proof fn lemma_radix_powers()
    ensures
        radix_power(0) == 1,
        radix_power(1) == 0x100,
        radix_power(2) == 0x1_0000,
        radix_power(3) == 0x100_0000,
        radix_power(4) == 0x1_0000_0000,
        radix_power(5) == 0x100_0000_0000,
        radix_power(6) == 0x1_0000_0000_0000,
        radix_power(7) == 0x100_0000_0000_0000,
        radix_power(8) == 0x1_0000_0000_0000_0000,
{
    reveal_with_fuel(radix_power, 9);
}

/// `n` bytes spell a number below `radix_power(n)`.
pub proof fn lemma_le_value_bound(bytes: Seq<u8>)
    ensures
        le_value(bytes) < radix_power(bytes.len()),
    decreases bytes.len(),
{
    if bytes.len() > 0 {
        lemma_le_value_bound(bytes.drop_first());
    }
}

/// `le_bytes(v, n)` has `n` bytes.
pub proof fn lemma_le_bytes_len(v: nat, n: nat)
    ensures
        le_bytes(v, n).len() == n,
    decreases n,
{
    if n > 0 {
        lemma_le_bytes_len(v / 256, (n - 1) as nat);
    }
}

/// Bytes are the bytes of the number they spell.
pub proof fn lemma_bytes_of_value(bytes: Seq<u8>)
    ensures
        le_bytes(le_value(bytes), bytes.len()) == bytes,
    decreases bytes.len(),
{
    if bytes.len() > 0 {
        let rest = bytes.drop_first();
        lemma_bytes_of_value(rest);
        let v = le_value(bytes);
        assert(v % 256 == bytes[0] && v / 256 == le_value(rest));
        assert(le_bytes(v, bytes.len()) =~= bytes);
    } else {
        assert(le_bytes(le_value(bytes), bytes.len()) =~= bytes);
    }
}

/// A number that fits in `n` bytes is the number its `n` bytes spell.
pub proof fn lemma_value_of_bytes(v: nat, n: nat)
    requires
        v < radix_power(n),
    ensures
        le_value(le_bytes(v, n)) == v,
    decreases n,
{
    if n > 0 {
        let rest = le_bytes(v / 256, (n - 1) as nat);
        lemma_value_of_bytes(v / 256, (n - 1) as nat);
        assert(le_bytes(v, n).drop_first() =~= rest);
    }
}

/// Two's complement loses nothing of a number in the range of `width` bytes.
pub proof fn lemma_twos_complement_inverse(v: int, width: nat)
    requires
        -radix_power(width) <= 2 * v < radix_power(width),
    ensures
        twos_complement(v, width) < radix_power(width),
        from_twos_complement(twos_complement(v, width), width) == v,
{
}

/// Every number below `radix_power(width)` stands for one number in two's
/// complement, which lies in the range of `width` bytes.
pub proof fn lemma_from_twos_complement_inverse(u: nat, width: nat)
    requires
        u < radix_power(width),
    ensures
        -radix_power(width) <= 2 * from_twos_complement(u, width) < radix_power(width),
        twos_complement(from_twos_complement(u, width), width) == u,
{
}

/// The number that the `width` bytes of `bytes` from index `at` on spell.
pub fn read_unsigned(bytes: &[u8], at: usize, width: usize) -> (v: u64)
    requires
        at + width <= bytes.len(),
        width <= 8,
    ensures
        v == le_value(bytes@.subrange(at as int, at + width)),
{
    let mut v: u64 = 0;
    let mut i: usize = width;
    while i > 0
        invariant
            at + width <= bytes.len(),
            width <= 8,
            i <= width,
            v == le_value(bytes@.subrange(at + i, at + width)),
        decreases i,
    {
        i = i - 1;
        proof {
            let tail = bytes@.subrange(at + i + 1, at + width);
            let whole = bytes@.subrange(at + i, at + width);
            assert(whole.drop_first() =~= tail);
            lemma_le_value_bound(whole);
            lemma_radix_powers();
        }
        v = v * 256 + bytes[at + i] as u64;
    }
    v
}

/// Appends the `width` low bytes of `v` to `out`.
pub fn push_unsigned(out: &mut Vec<u8>, v: u64, width: usize)
    ensures
        final(out)@ == old(out)@ + le_bytes(v as nat, width as nat),
{
    let mut rest: u64 = v;
    let mut i: usize = 0;
    while i < width
        invariant
            i <= width,
            out@ + le_bytes(rest as nat, (width - i) as nat) == old(out)@ + le_bytes(
                v as nat,
                width as nat,
            ),
        decreases width - i,
    {
        let ghost before = out@;
        out.push((rest % 256) as u8);
        proof {
            let tail = le_bytes((rest / 256) as nat, (width - i - 1) as nat);
            assert(out@ + tail =~= before + le_bytes(rest as nat, (width - i) as nat));
        }
        rest = rest / 256;
        i = i + 1;
    }
    assert(out@ + le_bytes(rest as nat, 0) =~= out@);
}

/// The signed number for which the eight bytes from index `at` on stand.
pub fn read_i64(bytes: &[u8], at: usize) -> (v: i64)
    requires
        at + 8 <= bytes.len(),
    ensures
        v == from_twos_complement(le_value(bytes@.subrange(at as int, at + 8)), 8),
{
    let u: u64 = read_unsigned(bytes, at, 8);
    proof {
        lemma_radix_powers();
    }
    if u >= 0x8000_0000_0000_0000 {
        (u - 0x8000_0000_0000_0000) as i64 + i64::MIN
    } else {
        u as i64
    }
}

/// The signed number for which the four bytes from index `at` on stand.
pub fn read_i32(bytes: &[u8], at: usize) -> (v: i32)
    requires
        at + 4 <= bytes.len(),
    ensures
        v == from_twos_complement(le_value(bytes@.subrange(at as int, at + 4)), 4),
{
    let u: u64 = read_unsigned(bytes, at, 4);
    proof {
        lemma_radix_powers();
        lemma_le_value_bound(bytes@.subrange(at as int, at + 4));
    }
    if u >= 0x8000_0000 {
        (u as i64 - 0x1_0000_0000) as i32
    } else {
        u as i32
    }
}

/// The number that the two bytes from index `at` on spell.
pub fn read_u16(bytes: &[u8], at: usize) -> (v: u16)
    requires
        at + 2 <= bytes.len(),
    ensures
        v == le_value(bytes@.subrange(at as int, at + 2)),
{
    let u: u64 = read_unsigned(bytes, at, 2);
    proof {
        lemma_radix_powers();
        lemma_le_value_bound(bytes@.subrange(at as int, at + 2));
    }
    u as u16
}

/// Appends the eight bytes that stand for `v`.
pub fn push_i64(out: &mut Vec<u8>, v: i64)
    ensures
        final(out)@ == old(out)@ + le_bytes(twos_complement(v as int, 8), 8),
{
    proof {
        lemma_radix_powers();
    }
    let u: u64 = if v < 0 {
        (v - i64::MIN) as u64 + 0x8000_0000_0000_0000
    } else {
        v as u64
    };
    push_unsigned(out, u, 8);
}

/// Appends the four bytes that stand for `v`.
pub fn push_i32(out: &mut Vec<u8>, v: i32)
    ensures
        final(out)@ == old(out)@ + le_bytes(twos_complement(v as int, 4), 4),
{
    proof {
        lemma_radix_powers();
    }
    let u: u64 = if v < 0 {
        (v as i64 + 0x1_0000_0000) as u64
    } else {
        v as u64
    };
    push_unsigned(out, u, 4);
}

/// Appends the two bytes of `v`.
pub fn push_u16(out: &mut Vec<u8>, v: u16)
    ensures
        final(out)@ == old(out)@ + le_bytes(v as nat, 2),
{
    push_unsigned(out, v as u64, 2);
}

} // verus!
