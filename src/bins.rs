use vstd::prelude::*;
use vstd::arithmetic::div_mod::{lemma_fundamental_div_mod, lemma_div_multiples_vanish};

verus! {

/// The bin that holds energy `e`, for a table whose lowest bin starts at
/// `min` and whose bins are `bin` wide.
pub open spec fn index_of(min: int, bin: int, e: int) -> int {
    (e - min) / bin
}

/// The lowest energy of bin `i`.
pub open spec fn energy_of(min: int, bin: int, i: int) -> int {
    min + bin * i
}

/// Mapping the start of a bin back to an index gives that bin.
pub proof fn lemma_index_round_trip(min: int, bin: int, i: int)
    requires
        bin > 0,
    ensures
        index_of(min, bin, energy_of(min, bin, i)) == i,
{
    assert(energy_of(min, bin, i) - min == bin * i);
    lemma_div_multiples_vanish(i, bin);
}

/// An energy inside a table of `len` bins maps to a valid index, and lies
/// inside the bin of that index.
pub proof fn lemma_index_in_range(min: int, bin: int, len: int, e: int)
    requires
        bin > 0,
        min <= e < min + bin * len,
    ensures
        0 <= index_of(min, bin, e) < len,
        energy_of(min, bin, index_of(min, bin, e)) <= e,
        e < energy_of(min, bin, index_of(min, bin, e)) + bin,
{
    let x = e - min;
    let q = x / bin;
    lemma_fundamental_div_mod(x, bin);
    assert(0 <= x % bin < bin);
    assert(0 <= q < len) by (nonlinear_arith)
        requires
            x == bin * q + x % bin,
            0 <= x % bin < bin,
            0 <= x < bin * len,
            bin > 0,
    ;
}

} // verus!
