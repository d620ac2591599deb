//! Checksum of a raw byte string.

use vstd::prelude::*;

verus! {

/// Sum of the bytes of `s`, as a mathematical integer.
pub open spec fn byte_sum(s: Seq<u8>) -> int
    decreases s.len(),
{
    if s.len() == 0 {
        0
    } else {
        byte_sum(s.drop_last()) + s.last()
    }
}

/// The byte that brings a byte string whose bytes sum to `sum` up to `0xfc`,
/// modulo 256.
pub open spec fn checksum_for_sum(sum: int) -> u8 {
    ((0xfc - sum) % 256) as u8
}

/// Appending one byte adds it to the sum.
pub proof fn lemma_byte_sum_push(s: Seq<u8>, b: u8)
    ensures
        byte_sum(s.push(b)) == byte_sum(s) + b,
{
    assert(s.push(b).drop_last() =~= s);
}

/// The checksum of the bytes of `rvec`: `0xfc` minus their sum, with
/// wraparound at 256.
pub fn checksum(rvec: Vec<u8>) -> (sum: u8)
    ensures
        sum == checksum_for_sum(byte_sum(rvec@)),
{
    let mut acc: u8 = 0;
    let mut i: usize = 0;
    while i < rvec.len()
        invariant
            i <= rvec.len(),
            acc as int == byte_sum(rvec@.take(i as int)) % 256,
        decreases rvec.len() - i,
    {
        proof {
            lemma_byte_sum_push(rvec@.take(i as int), rvec@[i as int]);
            assert(rvec@.take(i as int).push(rvec@[i as int]) =~= rvec@.take(i as int + 1));
        }
        acc = acc.wrapping_add(rvec[i]);
        i += 1;
    }
    proof {
        assert(rvec@.take(i as int) =~= rvec@);
    }
    0xfcu8.wrapping_sub(acc)
}

} // verus!
