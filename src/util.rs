use vstd::arithmetic::div_mod::{
    lemma_add_mod_noop, lemma_mod_add_multiples_vanish, lemma_mod_bound, lemma_small_mod,
};
use vstd::prelude::*;

verus! {

/// The index after `current_value` in a list of `size` entries, wrapping from
/// the last entry to the first. An empty list leaves the index as it is.
pub open spec fn next_index(current_value: int, size: int) -> int {
    if size == 0 {
        current_value
    } else {
        (current_value + 1) % size
    }
}

/// The index before `current_value` in a list of `size` entries, wrapping from
/// the first entry to the last. An empty list leaves the index as it is.
pub open spec fn previous_index(current_value: int, size: int) -> int {
    if size == 0 {
        current_value
    } else {
        (current_value + size - 1) % size
    }
}

/// Moves a highlight one entry down a list of `size` entries, wrapping around.
pub fn index_add(current_value: usize, size: usize) -> (r: usize)
    requires
        size > 0 ==> current_value < usize::MAX,
    ensures
        r == next_index(current_value as int, size as int),
        size > 0 ==> r < size,
        size == 0 ==> r == current_value,
{
    if size == 0 {
        current_value
    } else {
        (current_value + 1) % size
    }
}

/// Moves a highlight one entry up a list of `size` entries, wrapping around.
pub fn index_subtract(current_value: usize, size: usize) -> (r: usize)
    requires
        size > 0 ==> current_value < size || current_value + size - 1 <= usize::MAX,
    ensures
        r == previous_index(current_value as int, size as int),
        size > 0 ==> r < size,
        size == 0 ==> r == current_value,
{
    if size == 0 {
        current_value
    } else {
        let c = current_value % size;
        proof {
            lemma_mod_bound(current_value as int, size as int);
            lemma_small_mod((size - 1) as nat, size as nat);
            lemma_add_mod_noop(current_value as int, size - 1, size as int);
        }
        if c == 0 {
            size - 1
        } else {
            proof {
                lemma_mod_add_multiples_vanish(c - 1, size as int);
                lemma_small_mod((c - 1) as nat, size as nat);
                assert(c + (size - 1) == size + (c - 1));
            }
            c - 1
        }
    }
}

} // verus!
