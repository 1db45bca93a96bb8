//! Grid geometry: wrap-around coordinate arithmetic on one axis of a
//! fixed-size toroidal grid.

use vstd::prelude::*;
use vstd::arithmetic::div_mod::{lemma_mod_add_multiples_vanish, lemma_mod_self_0, lemma_small_mod};

verus! {

/// The mathematical meaning of one wrap-around step: the coordinate moved by
/// `delta` and reduced modulo the axis length (Euclidean, so never negative
/// for a positive axis length).
pub open spec fn wrap_spec(coordinate: int, axis_length: int, delta: int) -> int {
    (coordinate + delta) % axis_length
}

/// Moves an in-range coordinate by `delta` (one of -1, 0, +1) on an axis of
/// `axis_length` cells, wrapping at both edges: leaving 0 to the left lands
/// on `axis_length - 1`, leaving `axis_length - 1` to the right lands on 0.
pub fn wrap(coordinate: i32, axis_length: i32, delta: i32) -> (r: i32)
    requires
        0 < axis_length,
        0 <= coordinate < axis_length,
        -1 <= delta <= 1,
    ensures
        r == wrap_spec(coordinate as int, axis_length as int, delta as int),
        0 <= r < axis_length,
{
    let n = axis_length;
    if delta == 1 {
        if coordinate == n - 1 {
            proof { lemma_mod_self_0(n as int); }
            0
        } else {
            proof { lemma_small_mod((coordinate + 1) as nat, n as nat); }
            coordinate + 1
        }
    } else if delta == -1 {
        if coordinate == 0 {
            proof {
                lemma_mod_add_multiples_vanish(-1, n as int);
                lemma_small_mod((n - 1) as nat, n as nat);
            }
            n - 1
        } else {
            proof { lemma_small_mod((coordinate - 1) as nat, n as nat); }
            coordinate - 1
        }
    } else {
        proof { lemma_small_mod(coordinate as nat, n as nat); }
        coordinate
    }
}

} // verus!
