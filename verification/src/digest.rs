//! The layout of a digest: two 64-bit lanes written out as sixteen bytes.
//!
//! Lane 0 fills bytes 0 to 7 and lane 1 bytes 8 to 15, each with its least
//! significant byte first, on every machine. On a little-endian machine this
//! is the pair of lanes as it lies in memory.

use vstd::arithmetic::div_mod::lemma_div_denominator;
use vstd::prelude::*;

verus! {

/// The `n` lowest digits of `x` in base 256, least significant first.
pub open spec fn le_digits(x: nat, n: nat) -> Seq<u8>
    decreases n,
{
    if n == 0 {
        Seq::empty()
    } else {
        seq![(x % 256) as u8] + le_digits(x / 256, (n - 1) as nat)
    }
}

/// The number that `digits` write in base 256, least significant first.
pub open spec fn le_value(digits: Seq<u8>) -> nat
    decreases digits.len(),
{
    if digits.len() == 0 {
        0
    } else {
        digits[0] as nat + 256 * le_value(digits.drop_first())
    }
}

/// 256 to the power `n`.
pub open spec fn pow256(n: nat) -> nat
    decreases n,
{
    if n == 0 {
        1
    } else {
        256 * pow256((n - 1) as nat)
    }
}

/// The eight bytes of a lane, least significant first.
pub open spec fn le_bytes(lane: u64) -> Seq<u8> {
    le_digits(lane as nat, 8)
}

/// The sixteen bytes of a digest: those of lane 0, then those of lane 1.
pub open spec fn digest_bytes(lanes: (u64, u64)) -> Seq<u8> {
    le_bytes(lanes.0) + le_bytes(lanes.1)
}

/// The two numbers that the halves of a digest write.
pub open spec fn digest_lanes(digest: Seq<u8>) -> (nat, nat) {
    (le_value(digest.subrange(0, 8)), le_value(digest.subrange(8, 16)))
}

/// `le_digits(x, n)` has `n` digits.
pub proof fn lemma_le_digits_len(x: nat, n: nat)
    ensures
        le_digits(x, n).len() == n,
    decreases n,
{
    if n > 0 {
        lemma_le_digits_len(x / 256, (n - 1) as nat);
    }
}

/// Digit `i` of `x` is `x` divided by 256 to the `i`, modulo 256.
pub proof fn lemma_le_digit(x: nat, n: nat, i: nat)
    requires
        i < n,
    ensures
        le_digits(x, n).len() == n,
        le_digits(x, n)[i as int] == (x / pow256(i)) % 256,
    decreases n,
{
    lemma_le_digits_len(x / 256, (n - 1) as nat);
    if i > 0 {
        let below = (i - 1) as nat;
        lemma_le_digit(x / 256, (n - 1) as nat, below);
        lemma_pow256_positive(below);
        lemma_div_denominator(x as int, 256, pow256(below) as int);
    } else {
        assert(pow256(0) == 1);
    }
}

/// 256 to any power is positive.
pub proof fn lemma_pow256_positive(n: nat)
    ensures
        pow256(n) > 0,
    decreases n,
{
    if n > 0 {
        lemma_pow256_positive((n - 1) as nat);
    }
}

/// Reading back the `n` digits of a number below 256 to the `n` gives the
/// number.
pub proof fn lemma_le_value_of_digits(x: nat, n: nat)
    requires
        x < pow256(n),
    ensures
        le_value(le_digits(x, n)) == x,
    decreases n,
{
    if n > 0 {
        let rest = le_digits(x / 256, (n - 1) as nat);
        lemma_le_value_of_digits(x / 256, (n - 1) as nat);
        lemma_le_digits_len(x / 256, (n - 1) as nat);
        assert(le_digits(x, n).drop_first() =~= rest);
    }
}

/// A digest has sixteen bytes.
pub proof fn lemma_digest_len(lanes: (u64, u64))
    ensures
        digest_bytes(lanes).len() == 16,
{
    lemma_le_digits_len(lanes.0 as nat, 8);
    lemma_le_digits_len(lanes.1 as nat, 8);
}

/// Where the lanes lie in a digest: byte `i` of the first eight is digit `i`
/// of lane 0, byte `8 + i` of the last eight is digit `i` of lane 1.
pub proof fn lemma_digest_byte(lanes: (u64, u64), i: nat)
    requires
        i < 8,
    ensures
        digest_bytes(lanes)[i as int] == (lanes.0 as nat / pow256(i)) % 256,
        digest_bytes(lanes)[8 + i as int] == (lanes.1 as nat / pow256(i)) % 256,
{
    lemma_le_digit(lanes.0 as nat, 8, i);
    lemma_le_digit(lanes.1 as nat, 8, i);
}

/// The layout loses nothing: the halves of a digest read back as the lanes
/// that it was made of.
pub proof fn lemma_digest_lanes(lanes: (u64, u64))
    ensures
        digest_lanes(digest_bytes(lanes)) == (lanes.0 as nat, lanes.1 as nat),
{
    let digest = digest_bytes(lanes);
    lemma_le_digits_len(lanes.0 as nat, 8);
    lemma_le_digits_len(lanes.1 as nat, 8);
    assert(digest.subrange(0, 8) =~= le_bytes(lanes.0));
    assert(digest.subrange(8, 16) =~= le_bytes(lanes.1));
    assert(pow256(8) == 0x1_0000_0000_0000_0000) by {
        reveal_with_fuel(pow256, 9);
    }
    lemma_le_value_of_digits(lanes.0 as nat, 8);
    lemma_le_value_of_digits(lanes.1 as nat, 8);
}

/// Two pairs of lanes with the same digest are the same pair.
pub proof fn lemma_digest_injective(a: (u64, u64), b: (u64, u64))
    requires
        digest_bytes(a) == digest_bytes(b),
    ensures
        a == b,
{
    lemma_digest_lanes(a);
    lemma_digest_lanes(b);
}

/// The eight bytes of a lane, least significant first.
fn lane_bytes(lane: u64) -> (bytes: [u8; 8])
    ensures
        bytes@ == le_bytes(lane),
{
    let bytes: [u8; 8] = [
        #[verifier::truncate] (lane as u8),
        #[verifier::truncate] ((lane >> 8) as u8),
        #[verifier::truncate] ((lane >> 16) as u8),
        #[verifier::truncate] ((lane >> 24) as u8),
        #[verifier::truncate] ((lane >> 32) as u8),
        #[verifier::truncate] ((lane >> 40) as u8),
        #[verifier::truncate] ((lane >> 48) as u8),
        #[verifier::truncate] ((lane >> 56) as u8),
    ];
    proof {
        assert(lane as u8 == lane % 256) by (bit_vector);
        assert((lane >> 8) as u8 == lane / 256 % 256) by (bit_vector);
        assert((lane >> 16) as u8 == lane / 256 / 256 % 256) by (bit_vector);
        assert((lane >> 24) as u8 == lane / 256 / 256 / 256 % 256) by (bit_vector);
        assert((lane >> 32) as u8 == lane / 256 / 256 / 256 / 256 % 256) by (bit_vector);
        assert((lane >> 40) as u8 == lane / 256 / 256 / 256 / 256 / 256 % 256) by (bit_vector);
        assert((lane >> 48) as u8 == lane / 256 / 256 / 256 / 256 / 256 / 256 % 256)
            by (bit_vector);
        assert((lane >> 56) as u8 == lane / 256 / 256 / 256 / 256 / 256 / 256 / 256 % 256)
            by (bit_vector);
        reveal_with_fuel(le_digits, 9);
        assert(bytes@ =~= le_bytes(lane));
    }
    bytes
}

/// Writes two lanes out as a digest.
pub fn pack_lanes(lane0: u64, lane1: u64) -> (digest: [u8; 16])
    ensures
        digest@ == digest_bytes((lane0, lane1)),
{
    let lo: [u8; 8] = lane_bytes(lane0);
    let hi: [u8; 8] = lane_bytes(lane1);
    let digest: [u8; 16] = [
        lo[0], lo[1], lo[2], lo[3], lo[4], lo[5], lo[6], lo[7],
        hi[0], hi[1], hi[2], hi[3], hi[4], hi[5], hi[6], hi[7],
    ];
    assert(digest@ =~= lo@ + hi@);
    digest
}

} // verus!
