//! Small entry points over arrays of four bytes.
use vstd::prelude::*;

use crate::bulk::Bulk;
use crate::into_bulk::IntoBulk;
use crate::util::{slice_swap, swapped};

verus! {

/// Turns the array into a bulk and collects it back.
pub fn asm_bulk(a: [u8; 4]) -> (r: [u8; 4])
    ensures
        r == a,
{
    let b = a.into_bulk();
    let r: [u8; 4] = b.collect_array();
    assert(r@ =~= a@);
    r
}

/// Swaps the first two items through a bulk and collects it back.
pub fn asm_swap(a: [u8; 4]) -> (r: [u8; 4])
    ensures
        r@ == swapped(a@, 0, 1),
{
    let mut bulk = a.into_bulk();
    bulk.swap_inplace(0, 1);
    bulk.collect_array()
}

/// Swaps the first two items of the array directly.
pub fn asm_bench_swap(a: [u8; 4]) -> (r: [u8; 4])
    ensures
        r@ == swapped(a@, 0, 1),
{
    let mut a = a;
    slice_swap(&mut a, 0, 1);
    a
}

} // verus!
