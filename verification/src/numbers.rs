//! Numbers that pass between signed and unsigned fields of the same width.

use vstd::prelude::*;

verus! {

/// The signed number whose bits are those of `n`.
pub open spec fn signed(n: u64) -> int {
    if n <= i64::MAX {
        n as int
    } else {
        n - 0x1_0000_0000_0000_0000
    }
}

/// The unsigned number whose bits are those of `n`.
pub open spec fn unsigned(n: i64) -> int {
    if n >= 0 {
        n as int
    } else {
        n + 0x1_0000_0000_0000_0000
    }
}

/// Reads the bits of an unsigned number as a signed one.
pub fn to_signed(n: u64) -> (result: i64)
    ensures
        result == signed(n),
{
    assert(n <= 0x7fff_ffff_ffff_ffff ==> n as i64 == n) by (bit_vector);
    assert(n > 0x7fff_ffff_ffff_ffff ==> n as i64 == n - 0x1_0000_0000_0000_0000) by (bit_vector);
    #[verifier::truncate]
    (n as i64)
}

/// Reads the bits of a signed number as an unsigned one.
pub fn to_unsigned(n: i64) -> (result: u64)
    ensures
        result == unsigned(n),
{
    assert(n >= 0 ==> n as u64 == n) by (bit_vector);
    assert(n < 0 ==> n as u64 == n + 0x1_0000_0000_0000_0000) by (bit_vector);
    #[verifier::truncate]
    (n as u64)
}

/// The bits of a number give the number back.
pub proof fn bits_give_the_number_back(n: u64, m: i64)
    ensures
        unsigned(signed(n) as i64) == n,
        signed(unsigned(m) as u64) == m,
{
}

/// A number read in the other way differs by a multiple of two to the power of
/// 64. One that both ways can express stays as it is.
pub proof fn signs_change_by_whole_turns(n: u64, m: i64, n_read: i64, m_read: u64)
    requires
        call_ensures(to_signed, (n,), n_read),
        call_ensures(to_unsigned, (m,), m_read),
    ensures
        (n - n_read) % 0x1_0000_0000_0000_0000 == 0,
        n <= i64::MAX <==> n_read == n,
        (m_read - m) % 0x1_0000_0000_0000_0000 == 0,
        m >= 0 <==> m_read == m,
{
}

} // verus!
