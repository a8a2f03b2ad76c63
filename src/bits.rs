//! Bits and bytes: a bit is a `u8` holding 0 or 1, and bytes are sent most
//! significant bit first.

use vstd::prelude::*;
use vstd::utf8::decode_utf8;
use vstd::utf8::valid_utf8;

verus! {

/// The value a stored bit stands for: only `1` counts as a set bit.
pub open spec fn bit_value(b: u8) -> nat {
    if b == 1 {
        1
    } else {
        0
    }
}

/// The number formed by the `n` bits of `bits` from index `start` on,
/// most significant first.
pub open spec fn group_value(bits: Seq<u8>, start: int, n: nat) -> nat
    decreases n,
{
    if n == 0 {
        0
    } else {
        2 * group_value(bits, start, (n - 1) as nat) + bit_value(bits[start + n - 1])
    }
}

/// Bit `i` of byte `b`, counted from the most significant bit (`i == 0`).
pub open spec fn bit_at(b: u8, i: int) -> u8 {
    ((b as int / vstd::arithmetic::power2::pow2((7 - i) as nat) as int) % 2) as u8
}

/// The eight bits of a byte, most significant first.
pub open spec fn bits_of_byte(b: u8) -> Seq<u8> {
    Seq::new(8, |i: int| bit_at(b, i))
}

/// The bits of a byte string: eight per byte, each byte most significant first.
pub open spec fn bits_of_bytes(bytes: Seq<u8>) -> Seq<u8> {
    Seq::new(8 * bytes.len(), |i: int| bit_at(bytes[i / 8], i % 8))
}

/// The bytes formed by the complete groups of eight bits; a trailing partial
/// group forms no byte.
pub open spec fn bytes_of_bits(bits: Seq<u8>) -> Seq<u8> {
    Seq::new(bits.len() / 8, |k: int| group_value(bits, 8 * k, 8) as u8)
}

proof fn lemma_group_value_bound(bits: Seq<u8>, start: int, n: nat)
    ensures
        group_value(bits, start, n) < vstd::arithmetic::power2::pow2(n),
    decreases n,
{
    if n > 0 {
        lemma_group_value_bound(bits, start, (n - 1) as nat);
        vstd::arithmetic::power2::lemma_pow2_unfold(n);
    } else {
        vstd::arithmetic::power2::lemma2_to64();
    }
}

/// The first `n` bits of `b` read as a number are `b / 2^(8 - n)`.
proof fn lemma_group_value_of_byte(bits: Seq<u8>, start: int, b: u8, n: nat)
    requires
        n <= 8,
        0 <= start,
        start + n <= bits.len(),
        forall|i: int| 0 <= i < n ==> #[trigger] bits[start + i] == bit_at(b, i),
    ensures
        group_value(bits, start, n) == b as int / vstd::arithmetic::power2::pow2(
            (8 - n) as nat,
        ) as int,
    decreases n,
{
    vstd::arithmetic::power2::lemma2_to64();
    if n > 0 {
        let m = (n - 1) as nat;
        lemma_group_value_of_byte(bits, start, b, m);
        let p = vstd::arithmetic::power2::pow2((8 - n) as nat) as int;
        let q = vstd::arithmetic::power2::pow2((8 - m) as nat) as int;
        vstd::arithmetic::power2::lemma_pow2_unfold((8 - m) as nat);
        assert(q == 2 * p);
        assert(p > 0);
        let y = b as int / p;
        assert(bits[start + m] == bit_at(b, m as int));
        assert(b as int / q == y / 2) by {
            vstd::arithmetic::div_mod::lemma_div_denominator(b as int, p, 2);
        }
        assert(2 * (y / 2) + y % 2 == y) by {
            vstd::arithmetic::div_mod::lemma_fundamental_div_mod(y, 2);
        }
        assert(bit_value(bit_at(b, m as int)) == y % 2);
        assert(group_value(bits, start, n) == 2 * (y / 2) + y % 2);
    } else {
        assert(b as int / 256 == 0);
    }
}

/// A byte's bits read back as a number give the byte.
pub proof fn lemma_byte_value(b: u8)
    ensures
        group_value(bits_of_byte(b), 0, 8) == b,
{
    lemma_group_value_of_byte(bits_of_byte(b), 0, b, 8);
    vstd::arithmetic::power2::lemma2_to64();
}

/// Turning a byte into bits and the bits back into bytes gives that one byte.
pub proof fn lemma_byte_round_trip(b: u8)
    ensures
        bytes_of_bits(bits_of_byte(b)) == seq![b],
{
    lemma_byte_value(b);
    assert(bytes_of_bits(bits_of_byte(b)) =~= seq![b]);
}

/// Turning bytes into bits and the bits back into bytes gives the same bytes.
pub proof fn lemma_bytes_round_trip(bytes: Seq<u8>)
    ensures
        bytes_of_bits(bits_of_bytes(bytes)) == bytes,
{
    let bits = bits_of_bytes(bytes);
    assert(bits.len() / 8 == bytes.len()) by {
        vstd::arithmetic::div_mod::lemma_div_multiples_vanish(bytes.len() as int, 8);
    }
    vstd::arithmetic::power2::lemma2_to64();
    assert forall|k: int| 0 <= k < bytes.len() implies #[trigger] bytes_of_bits(bits)[k]
        == bytes[k] by {
        assert forall|i: int| 0 <= i < 8 implies #[trigger] bits[8 * k + i] == bit_at(
            bytes[k],
            i,
        ) by {
            assert((8 * k + i) / 8 == k);
            assert((8 * k + i) % 8 == i);
        }
        assert(8 * k + 8 <= bits.len()) by (nonlinear_arith)
            requires
                k < bytes.len(),
                bits.len() == 8 * bytes.len(),
        ;
        lemma_group_value_of_byte(bits, 8 * k, bytes[k], 8);
        assert(vstd::arithmetic::power2::pow2(0) == 1);
        assert(group_value(bits, 8 * k, 8) == bytes[k] as int / vstd::arithmetic::power2::pow2(
            0,
        ) as int);
        assert(bytes[k] as int / 1 == bytes[k]);
        assert(group_value(bits, 8 * k, 8) == bytes[k]);
        assert(bytes_of_bits(bits)[k] == group_value(bits, 8 * k, 8) as u8);
    }
    assert(bytes_of_bits(bits) =~= bytes);
}

/// The eight bits of `byte`, most significant first.
pub fn byte_to_bits(byte: u8) -> (bits: Vec<u8>)
    ensures
        bits@ == bits_of_byte(byte),
{
    let mut bits: Vec<u8> = Vec::new();
    let mut i: usize = 0;
    while i < 8
        invariant
            i <= 8,
            bits@ == bits_of_byte(byte).subrange(0, i as int),
        decreases 8 - i,
    {
        let shift: u8 = 7 - i as u8;
        let bit: u8 = (byte >> shift) & 1;
        proof {
            vstd::arithmetic::power2::lemma2_to64();
            assert(bit == bit_at(byte, i as int)) by {
                assert(byte >> shift == (byte as nat / vstd::arithmetic::power2::pow2(shift as nat)))
                    by {
                    vstd::bits::lemma_u8_shr_is_div(byte, shift);
                }
                assert((byte >> shift) & 1 == (byte >> shift) % 2) by (bit_vector);
            }
        }
        bits.push(bit);
        i = i + 1;
        assert(bits@ =~= bits_of_byte(byte).subrange(0, i as int));
    }
    assert(bits@ =~= bits_of_byte(byte));
    bits
}

/// The bytes formed by each complete group of eight bits, most significant
/// bit first; a trailing partial group is left out.
pub fn bits_to_bytes(bits: &Vec<u8>) -> (bytes: Vec<u8>)
    ensures
        bytes@ == bytes_of_bits(bits@),
{
    let mut bytes: Vec<u8> = Vec::new();
    let n: usize = bits.len() / 8;
    let mut k: usize = 0;
    while k < n
        invariant
            n == bits@.len() / 8,
            bits@.len() <= usize::MAX,
            k <= n,
            bytes@ == bytes_of_bits(bits@).subrange(0, k as int),
        decreases n - k,
    {
        let mut byte: u8 = 0;
        let mut j: usize = 0;
        while j < 8
            invariant
                n == bits@.len() / 8,
                bits@.len() <= usize::MAX,
                k < n,
                j <= 8,
                byte as nat == group_value(bits@, 8 * k, j as nat),
            decreases 8 - j,
        {
            proof {
                lemma_group_value_bound(bits@, 8 * k, (j + 1) as nat);
                vstd::arithmetic::power2::lemma2_to64();
                if j + 1 < 8 {
                    vstd::arithmetic::power2::lemma_pow2_strictly_increases((j + 1) as nat, 8);
                }
                assert(8 * k + j < bits@.len()) by (nonlinear_arith)
                    requires
                        k < n,
                        j < 8,
                        n == bits@.len() / 8,
                ;
            }
            let bit: u8 = if bits[8 * k + j] == 1 {
                1
            } else {
                0
            };
            byte = byte * 2 + bit;
            j = j + 1;
        }
        bytes.push(byte);
        k = k + 1;
        assert(bytes@ =~= bytes_of_bits(bits@).subrange(0, k as int));
    }
    assert(bytes@ =~= bytes_of_bits(bits@));
    bytes
}

/// Relies on `String::from_utf8`: it succeeds exactly on valid UTF-8 and
/// the string then holds the characters the bytes encode.
#[verifier::external_body]
fn string_from_utf8(bytes: Vec<u8>) -> (r: Option<String>)
    ensures
        r.is_some() == valid_utf8(bytes@),
        r matches Some(s) ==> s@ == decode_utf8(bytes@),
{
    String::from_utf8(bytes).ok()
}

/// The text that the bytes formed by `bits` encode, or `None` where those
/// bytes are not valid UTF-8.
pub fn bits_to_string(bits: &Vec<u8>) -> (r: Option<String>)
    ensures
        r.is_some() == valid_utf8(bytes_of_bits(bits@)),
        r matches Some(s) ==> s@ == decode_utf8(bytes_of_bits(bits@)),
{
    let bytes: Vec<u8> = bits_to_bytes(bits);
    string_from_utf8(bytes)
}

} // verus!
