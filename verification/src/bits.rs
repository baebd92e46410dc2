//! MSB-first bit-field extraction shared by the audio header decoders.

use vstd::prelude::*;

verus! {

/// The bit at absolute bit position `pos` of `s`, counting from the
/// most-significant bit of byte 0. Positions past the end read as `0`.
pub open spec fn bit_at(s: Seq<u8>, pos: int) -> u8 {
    if 0 <= pos < s.len() * 8 {
        ((s[pos / 8] >> ((7 - pos % 8) as u8)) & 1u8) as u8
    } else {
        0u8
    }
}

/// The `n`-bit unsigned value whose most-significant bit sits at bit
/// position `pos` of `s` (MSB-first), bits past the end reading as `0`.
pub open spec fn bits_at(s: Seq<u8>, pos: int, n: nat) -> nat
    decreases n,
{
    if n == 0 {
        0
    } else {
        bits_at(s, pos, (n - 1) as nat) * 2 + bit_at(s, pos + n - 1) as nat
    }
}

/// `2^n`.
pub open spec fn pow2(n: nat) -> nat
    decreases n,
{
    if n == 0 {
        1
    } else {
        2 * pow2((n - 1) as nat)
    }
}

/// An `n`-bit field is below `2^n`.
pub proof fn lemma_bits_at_bound(s: Seq<u8>, pos: int, n: nat)
    ensures
        bits_at(s, pos, n) < pow2(n),
    decreases n,
{
    if n > 0 {
        lemma_bits_at_bound(s, pos, (n - 1) as nat);
        assert(bit_at(s, pos + n - 1) <= 1) by {
            let b = s[(pos + n - 1) / 8];
            let k = (7 - (pos + n - 1) % 8) as u8;
            assert((b >> k) & 1u8 <= 1u8) by (bit_vector);
        }
    }
}

proof fn lemma_bit_step(b: u8, k: u8)
    ensures
        ((b >> k) & 1u8) <= 1,
{
    assert(((b >> k) & 1u8) <= 1u8) by (bit_vector);
}

/// Read `n` bits MSB-first starting at bit position `pos` of `data`;
/// bits past the end of `data` read as zero.
pub fn read_bits(data: &[u8], pos: usize, n: usize) -> (r: u32)
    requires
        n <= 32,
        pos + n <= usize::MAX,
    ensures
        r as nat == bits_at(data@, pos as int, n as nat),
{
    let mut out: u32 = 0;
    let mut i: usize = 0;
    while i < n
        invariant
            i <= n,
            n <= 32,
            pos + n <= usize::MAX,
            out as nat == bits_at(data@, pos as int, i as nat),
        decreases n - i,
    {
        let p = pos + i;
        let byte_idx = p / 8;
        let bit: u8 = if byte_idx < data.len() {
            let sh: u8 = (7 - p % 8) as u8;
            proof { lemma_bit_step(data[byte_idx as int], sh); }
            (data[byte_idx] >> sh) & 1u8
        } else {
            0u8
        };
        proof {
            lemma_bits_at_bound(data@, pos as int, i as nat);
            lemma_pow2_le(i as nat, 31);
            lemma_pow2_31();
            assert(bit == bit_at(data@, pos + i));
        }
        out = out * 2 + bit as u32;
        i = i + 1;
    }
    out
}

/// `2^31` as a literal.
pub proof fn lemma_pow2_31()
    ensures
        pow2(31) == 0x8000_0000,
{
    reveal_with_fuel(pow2, 32);
}

/// `2^a <= 2^b` when `a <= b`.
pub proof fn lemma_pow2_le(a: nat, b: nat)
    requires
        a <= b,
    ensures
        pow2(a) <= pow2(b),
    decreases b,
{
    if a < b {
        lemma_pow2_le(a, (b - 1) as nat);
    }
}

/// Bit `j` (MSB first) of byte `k` is that byte shifted right by `7 - j`,
/// masked to one bit.
pub proof fn lemma_byte_bits(s: Seq<u8>, k: int)
    requires
        0 <= k < s.len(),
    ensures
        forall|j: int| 0 <= j < 8 ==> #[trigger] bit_at(s, 8 * k + j) == (s[k] >> ((7 - j) as u8)) & 1u8,
{
    assert forall|j: int| 0 <= j < 8 implies #[trigger] bit_at(s, 8 * k + j) == (s[k] >> ((7 - j) as u8))
        & 1u8 by {
        assert((8 * k + j) / 8 == k && (8 * k + j) % 8 == j) by (nonlinear_arith)
            requires
                0 <= j < 8,
        ;
    }
}

} // verus!
