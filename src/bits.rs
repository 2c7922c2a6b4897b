//! Facts about raw bit sets, shared by the flag set types.

use vstd::prelude::*;

verus! {

pub(crate) proof fn lemma_u64_zero_within(m: u64)
    by (bit_vector)
    ensures
        0u64 & !m == 0,
{
}

pub(crate) proof fn lemma_u64_mask_within(m: u64)
    by (bit_vector)
    ensures
        m & !m == 0,
{
}

pub(crate) proof fn lemma_u64_and_mask_within(b: u64, m: u64)
    by (bit_vector)
    ensures
        (b & m) & !m == 0,
{
}

pub(crate) proof fn lemma_u64_and_within(a: u64, b: u64, m: u64)
    by (bit_vector)
    requires
        a & !m == 0,
    ensures
        (a & b) & !m == 0,
{
}

pub(crate) proof fn lemma_u64_or_within(a: u64, b: u64, m: u64)
    by (bit_vector)
    requires
        a & !m == 0,
        b & !m == 0,
    ensures
        (a | b) & !m == 0,
{
}

pub(crate) proof fn lemma_u64_xor_within(a: u64, b: u64, m: u64)
    by (bit_vector)
    requires
        a & !m == 0,
        b & !m == 0,
    ensures
        (a ^ b) & !m == 0,
{
}

pub(crate) proof fn lemma_i64_zero_within(m: i64)
    by (bit_vector)
    ensures
        0i64 & !m == 0,
{
}

pub(crate) proof fn lemma_i64_mask_within(m: i64)
    by (bit_vector)
    ensures
        m & !m == 0,
{
}

pub(crate) proof fn lemma_i64_and_mask_within(b: i64, m: i64)
    by (bit_vector)
    ensures
        (b & m) & !m == 0,
{
}

pub(crate) proof fn lemma_i64_and_within(a: i64, b: i64, m: i64)
    by (bit_vector)
    requires
        a & !m == 0,
    ensures
        (a & b) & !m == 0,
{
}

pub(crate) proof fn lemma_i64_or_within(a: i64, b: i64, m: i64)
    by (bit_vector)
    requires
        a & !m == 0,
        b & !m == 0,
    ensures
        (a | b) & !m == 0,
{
}

pub(crate) proof fn lemma_i64_xor_within(a: i64, b: i64, m: i64)
    by (bit_vector)
    requires
        a & !m == 0,
        b & !m == 0,
    ensures
        (a ^ b) & !m == 0,
{
}

} // verus!
