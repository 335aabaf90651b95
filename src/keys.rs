//! Key indices used on the LED link, and the packed-bit form of a key-state map.

use vstd::prelude::*;

verus! {

// Wire index of a key: its position in the 5 x 14 key matrix, row by row.
pub const KEY_ESCAPE: u8 = 0;
pub const KEY_N1: u8 = 1;
pub const KEY_N2: u8 = 2;
pub const KEY_N3: u8 = 3;
pub const KEY_N4: u8 = 4;
pub const KEY_N0: u8 = 10;
pub const KEY_MINUS: u8 = 11;
pub const KEY_EQUAL: u8 = 12;
pub const KEY_A: u8 = 29;
pub const KEY_B: u8 = 47;

/// State of key `i`; keys past the end read as released.
pub open spec fn key_bit(state: Seq<bool>, i: int) -> bool {
    0 <= i < state.len() && state[i]
}

/// The `n` bits of keys `base`, `base + 1`, ... as a number, key `base` in
/// the least significant bit.
pub open spec fn bits_value(state: Seq<bool>, base: int, n: nat) -> nat
    decreases n,
{
    if n == 0 {
        0
    } else {
        (if key_bit(state, base) {
            1nat
        } else {
            0nat
        }) + 2 * bits_value(state, base + 1, (n - 1) as nat)
    }
}

/// Number of bytes that hold `n` key bits.
pub open spec fn packed_len(n: nat) -> nat {
    (n + 7) / 8
}

/// One bit per key, in key order: key `i` is bit `i % 8` of byte `i / 8`,
/// and the bits past the last key are zero.
pub open spec fn packed_bits(state: Seq<bool>) -> Seq<u8> {
    Seq::new(packed_len(state.len()), |k: int| bits_value(state, 8 * k, 8) as u8)
}

pub open spec fn pow_two(n: nat) -> nat
    decreases n,
{
    if n == 0 {
        1
    } else {
        2 * pow_two((n - 1) as nat)
    }
}

proof fn lemma_bits_value_bound(state: Seq<bool>, base: int, n: nat)
    ensures
        bits_value(state, base, n) < pow_two(n),
    decreases n,
{
    if n > 0 {
        lemma_bits_value_bound(state, base + 1, (n - 1) as nat);
    }
}

/// Packs a key-state map into bytes, one bit per key.
pub fn to_packed_bits(state: &[bool]) -> (r: Vec<u8>)
    ensures
        r@ == packed_bits(state@),
        r@.len() == packed_len(state@.len()),
{
    let n = state.len();
    let nbytes: usize = n / 8 + if n % 8 == 0 {
        0
    } else {
        1
    };
    assert(nbytes == packed_len(n as nat));
    let mut r: Vec<u8> = Vec::with_capacity(nbytes);
    let mut k: usize = 0;
    while k < nbytes
        invariant
            n == state@.len(),
            nbytes == packed_len(n as nat),
            k <= nbytes,
            r@.len() == k,
            forall|j: int| 0 <= j < k ==> r@[j] == bits_value(state@, 8 * j, 8) as u8,
        decreases nbytes - k,
    {
        assert(8 * k <= n) by (nonlinear_arith)
            requires
                k < nbytes,
                nbytes == (n + 7) / 8,
        ;
        let base: usize = 8 * k;
        let mut acc: u8 = 0;
        let mut j: usize = 8;
        while j > 0
            invariant
                n == state@.len(),
                base <= n,
                j <= 8,
                acc as nat == bits_value(state@, base + j, (8 - j) as nat),
            decreases j,
        {
            j = j - 1;
            let bit = j < n - base && state[base + j];
            assert(bit == key_bit(state@, base + j));
            proof {
                lemma_bits_value_bound(state@, base + j + 1, (8 - j - 1) as nat);
                reveal_with_fuel(pow_two, 8);
                assert(pow_two(7) == 128);
                lemma_pow_two_mono((8 - j - 1) as nat, 7);
            }
            acc = acc * 2 + if bit {
                1
            } else {
                0
            };
        }
        r.push(acc);
        k = k + 1;
    }
    assert(r@ =~= packed_bits(state@));
    r
}

proof fn lemma_pow_two_mono(a: nat, b: nat)
    requires
        a <= b,
    ensures
        pow_two(a) <= pow_two(b),
    decreases b,
{
    if a < b {
        lemma_pow_two_mono(a, (b - 1) as nat);
    }
}

} // verus!
