use vstd::prelude::*;

use crate::layout::{Dims, HALO};

verus! {

/// Number of cells that the stencil reads around an interior cell: the cell
/// itself and three neighbours on each side along each of the three axes.
pub const TAPS: usize = 19;

/// One term of the seven-point-per-axis central difference: the neighbour at
/// offset `(dx, dy, dz)` enters with integer weight `weight`.
#[derive(Clone, Copy, Debug, PartialEq, Eq, Structural)]
pub struct Tap {
    pub dx: i64,
    pub dy: i64,
    pub dz: i64,
    pub weight: i64,
}

/// The terms of the stencil, in a fixed order: the centre, then along x,
/// y and z in turn the shifts +1, -1, +2, -2, +3, -3. The one-dimensional
/// weights are {2, -27, 270, -490, 270, -27, 2}; the centre carries the
/// weight of all three axes, -1470.
pub open spec fn tap_spec(n: int) -> Tap {
    if n == 0 {
        tap_of(0, 0, 0, -1470)
    } else if n == 1 {
        tap_of(1, 0, 0, 270)
    } else if n == 2 {
        tap_of(-1, 0, 0, 270)
    } else if n == 3 {
        tap_of(2, 0, 0, -27)
    } else if n == 4 {
        tap_of(-2, 0, 0, -27)
    } else if n == 5 {
        tap_of(3, 0, 0, 2)
    } else if n == 6 {
        tap_of(-3, 0, 0, 2)
    } else if n == 7 {
        tap_of(0, 1, 0, 270)
    } else if n == 8 {
        tap_of(0, -1, 0, 270)
    } else if n == 9 {
        tap_of(0, 2, 0, -27)
    } else if n == 10 {
        tap_of(0, -2, 0, -27)
    } else if n == 11 {
        tap_of(0, 3, 0, 2)
    } else if n == 12 {
        tap_of(0, -3, 0, 2)
    } else if n == 13 {
        tap_of(0, 0, 1, 270)
    } else if n == 14 {
        tap_of(0, 0, -1, 270)
    } else if n == 15 {
        tap_of(0, 0, 2, -27)
    } else if n == 16 {
        tap_of(0, 0, -2, -27)
    } else if n == 17 {
        tap_of(0, 0, 3, 2)
    } else {
        tap_of(0, 0, -3, 2)
    }
}

/// A term with the given offsets and weight.
pub open spec fn tap_of(dx: int, dy: int, dz: int, weight: int) -> Tap {
    Tap { dx: dx as i64, dy: dy as i64, dz: dz as i64, weight: weight as i64 }
}

/// Term `n` of the stencil.
pub fn tap(n: usize) -> (t: Tap)
    requires
        n < TAPS,
    ensures
        t == tap_spec(n as int),
{
    if n == 0 {
        Tap { dx: 0, dy: 0, dz: 0, weight: -1470 }
    } else if n == 1 {
        Tap { dx: 1, dy: 0, dz: 0, weight: 270 }
    } else if n == 2 {
        Tap { dx: -1, dy: 0, dz: 0, weight: 270 }
    } else if n == 3 {
        Tap { dx: 2, dy: 0, dz: 0, weight: -27 }
    } else if n == 4 {
        Tap { dx: -2, dy: 0, dz: 0, weight: -27 }
    } else if n == 5 {
        Tap { dx: 3, dy: 0, dz: 0, weight: 2 }
    } else if n == 6 {
        Tap { dx: -3, dy: 0, dz: 0, weight: 2 }
    } else if n == 7 {
        Tap { dx: 0, dy: 1, dz: 0, weight: 270 }
    } else if n == 8 {
        Tap { dx: 0, dy: -1, dz: 0, weight: 270 }
    } else if n == 9 {
        Tap { dx: 0, dy: 2, dz: 0, weight: -27 }
    } else if n == 10 {
        Tap { dx: 0, dy: -2, dz: 0, weight: -27 }
    } else if n == 11 {
        Tap { dx: 0, dy: 3, dz: 0, weight: 2 }
    } else if n == 12 {
        Tap { dx: 0, dy: -3, dz: 0, weight: 2 }
    } else if n == 13 {
        Tap { dx: 0, dy: 0, dz: 1, weight: 270 }
    } else if n == 14 {
        Tap { dx: 0, dy: 0, dz: -1, weight: 270 }
    } else if n == 15 {
        Tap { dx: 0, dy: 0, dz: 2, weight: -27 }
    } else if n == 16 {
        Tap { dx: 0, dy: 0, dz: -2, weight: -27 }
    } else if n == 17 {
        Tap { dx: 0, dy: 0, dz: 3, weight: 2 }
    } else {
        Tap { dx: 0, dy: 0, dz: -3, weight: 2 }
    }
}

/// Every offset of the stencil stays within the halo's reach.
pub proof fn lemma_tap_reach(n: int)
    requires
        0 <= n < TAPS,
    ensures
        -3 <= tap_spec(n).dx <= 3,
        -3 <= tap_spec(n).dy <= 3,
        -3 <= tap_spec(n).dz <= 3,
{
}

/// Flat position of the cell that term `n` reads around interior cell `(i, j, k)`.
pub open spec fn neighbour_spec(d: Dims, i: int, j: int, k: int, n: int) -> int {
    d.storage_spec(
        i + HALO + tap_spec(n).dx,
        j + HALO + tap_spec(n).dy,
        k + HALO + tap_spec(n).dz,
    )
}

/// Storage coordinate `c` moved by `by` cells along its axis.
fn shifted(c: usize, by: i64) -> (r: usize)
    requires
        -3 <= by <= 3,
        3 <= c,
        c + 3 <= usize::MAX,
    ensures
        r == c + by,
{
    if by >= 0 {
        c + by as usize
    } else {
        c - (-by) as usize
    }
}

/// Flat position in a padded array of the cell that term `n` of the stencil
/// reads around interior cell `(i, j, k)`. The halo makes every such cell exist.
pub fn neighbour(d: &Dims, i: usize, j: usize, k: usize, n: usize) -> (r: usize)
    requires
        d.wf(),
        i < d.nx,
        j < d.ny,
        k < d.nz,
        n < TAPS,
    ensures
        r == neighbour_spec(*d, i as int, j as int, k as int, n as int),
        r < d.padded_cells(),
{
    let t = tap(n);
    proof {
        lemma_tap_reach(n as int);
        d.lemma_extents_fit();
    }
    let x = shifted(i + HALO, t.dx);
    let y = shifted(j + HALO, t.dy);
    let z = shifted(k + HALO, t.dz);
    d.storage_index(x, y, z)
}

/// Sum of the first `n` weighted terms of the stencil at interior cell
/// `(i, j, k)` of the field `f`, stored padded.
pub open spec fn partial_stencil(d: Dims, f: Seq<int>, i: int, j: int, k: int, n: nat) -> int
    decreases n,
{
    if n == 0 {
        0
    } else {
        partial_stencil(d, f, i, j, k, (n - 1) as nat) + tap_spec(n - 1).weight * f[
        neighbour_spec(d, i, j, k, n - 1)]
    }
}

/// The raw central difference L(i, j, k) of field `f`, before the division
/// by 360 dn² m.
pub open spec fn stencil_at(d: Dims, f: Seq<int>, i: int, j: int, k: int) -> int {
    partial_stencil(d, f, i, j, k, TAPS as nat)
}

/// Sum of the first `n` weights.
pub open spec fn weight_total(n: nat) -> int
    decreases n,
{
    if n == 0 {
        0
    } else {
        weight_total((n - 1) as nat) + tap_spec(n - 1).weight
    }
}

proof fn lemma_partial_constant(d: Dims, f: Seq<int>, c: int, i: int, j: int, k: int, n: nat)
    requires
        n <= TAPS,
        forall|m: int| 0 <= m < f.len() ==> f[m] == c,
        d.wf(),
        0 <= i < d.nx,
        0 <= j < d.ny,
        0 <= k < d.nz,
        f.len() == d.padded_cells(),
    ensures
        partial_stencil(d, f, i, j, k, n) == c * weight_total(n),
    decreases n,
{
    if n > 0 {
        lemma_partial_constant(d, f, c, i, j, k, (n - 1) as nat);
        lemma_neighbour_in_bounds(d, i, j, k, n - 1);
        assert(c * weight_total((n - 1) as nat) + tap_spec(n - 1).weight * c == c * (weight_total(
            (n - 1) as nat) + tap_spec(n - 1).weight)) by (nonlinear_arith);
    }
}

/// Every cell that the stencil reads around an interior cell lies in the padded array.
pub proof fn lemma_neighbour_in_bounds(d: Dims, i: int, j: int, k: int, n: int)
    requires
        d.wf(),
        0 <= i < d.nx,
        0 <= j < d.ny,
        0 <= k < d.nz,
        0 <= n < TAPS,
    ensures
        0 <= neighbour_spec(d, i, j, k, n) < d.padded_cells(),
{
    lemma_tap_reach(n);
    crate::layout::lemma_flat_bounds(
        d.px(),
        d.py(),
        d.pz(),
        i + HALO + tap_spec(n).dx,
        j + HALO + tap_spec(n).dy,
        k + HALO + tap_spec(n).dz,
    );
}

/// The weights of the stencil add up to zero: applied to a constant field,
/// the central difference vanishes at every interior cell.
pub proof fn lemma_stencil_constant_field(d: Dims, f: Seq<int>, c: int, i: int, j: int, k: int)
    requires
        d.wf(),
        f.len() == d.padded_cells(),
        forall|m: int| 0 <= m < f.len() ==> f[m] == c,
        0 <= i < d.nx,
        0 <= j < d.ny,
        0 <= k < d.nz,
    ensures
        stencil_at(d, f, i, j, k) == 0,
{
    assert(weight_total(TAPS as nat) == 0) by {
        reveal_with_fuel(weight_total, 20);
    }
    lemma_partial_constant(d, f, c, i, j, k, TAPS as nat);
}

} // verus!
