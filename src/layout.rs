use vstd::prelude::*;

verus! {

/// Depth of the boundary shell on every face of a padded array: three cells,
/// as the seven-point stencil reaches three cells along each axis.
pub const HALO: usize = 3;

/// Interior extents of the grid. Every array of the solver is stored padded,
/// with `HALO` extra cells on both faces of every axis, in row-major order
/// (the last axis varies fastest).
#[derive(Clone, Copy, Debug, PartialEq, Eq, Structural)]
pub struct Dims {
    pub nx: usize,
    pub ny: usize,
    pub nz: usize,
}

/// Padded extent of an axis whose interior extent is `n`.
pub open spec fn padded_extent(n: int) -> int {
    n + 2 * HALO
}

/// Row-major flat position of storage cell `(x, y, z)` in an array of shape `(_, py, pz)`.
pub open spec fn flat(py: int, pz: int, x: int, y: int, z: int) -> int {
    (x * py + y) * pz + z
}

pub proof fn lemma_flat_bounds(px: int, py: int, pz: int, x: int, y: int, z: int)
    requires
        0 <= x < px,
        0 <= y < py,
        0 <= z < pz,
    ensures
        0 <= flat(py, pz, x, y, z) < px * py * pz,
{
    assert(0 <= x * py + y < px * py) by (nonlinear_arith)
        requires
            0 <= x < px,
            0 <= y < py,
    ;
    let a = x * py + y;
    assert(0 <= a * pz + z < (px * py) * pz) by (nonlinear_arith)
        requires
            0 <= a < px * py,
            0 <= z < pz,
    ;
}

/// Distinct storage cells have distinct flat positions.
pub proof fn lemma_flat_injective(
    py: int,
    pz: int,
    x1: int,
    y1: int,
    z1: int,
    x2: int,
    y2: int,
    z2: int,
)
    requires
        0 <= y1 < py,
        0 <= z1 < pz,
        0 <= y2 < py,
        0 <= z2 < pz,
        flat(py, pz, x1, y1, z1) == flat(py, pz, x2, y2, z2),
    ensures
        x1 == x2 && y1 == y2 && z1 == z2,
{
    let f = flat(py, pz, x1, y1, z1);
    vstd::arithmetic::div_mod::lemma_fundamental_div_mod_converse(f, pz, x1 * py + y1, z1);
    vstd::arithmetic::div_mod::lemma_fundamental_div_mod_converse(f, pz, x2 * py + y2, z2);
    let g = x1 * py + y1;
    vstd::arithmetic::div_mod::lemma_fundamental_div_mod_converse(g, py, x1, y1);
    vstd::arithmetic::div_mod::lemma_fundamental_div_mod_converse(g, py, x2, y2);
}

impl Dims {
    pub open spec fn px(self) -> int {
        padded_extent(self.nx as int)
    }

    pub open spec fn py(self) -> int {
        padded_extent(self.ny as int)
    }

    pub open spec fn pz(self) -> int {
        padded_extent(self.nz as int)
    }

    /// Number of cells of a padded array.
    pub open spec fn padded_cells(self) -> int {
        self.px() * self.py() * self.pz()
    }

    /// Number of interior cells.
    pub open spec fn interior_cells(self) -> int {
        self.nx * self.ny * self.nz
    }

    /// Every extent is positive and a padded array can be addressed by `usize`.
    pub open spec fn wf(self) -> bool {
        &&& self.nx > 0
        &&& self.ny > 0
        &&& self.nz > 0
        &&& self.padded_cells() <= usize::MAX
    }

    /// Flat position of storage cell `(x, y, z)`.
    pub open spec fn storage_spec(self, x: int, y: int, z: int) -> int {
        flat(self.py(), self.pz(), x, y, z)
    }

    /// Whether storage cell `(x, y, z)` lies in the interior rather than in the halo.
    pub open spec fn interior_spec(self, x: int, y: int, z: int) -> bool {
        &&& HALO <= x < HALO + self.nx
        &&& HALO <= y < HALO + self.ny
        &&& HALO <= z < HALO + self.nz
    }

    /// Grid of the given interior extents; `None` where an extent is zero or
    /// the padded array would not be addressable.
    pub fn new(nx: usize, ny: usize, nz: usize) -> (r: Option<Dims>)
        ensures
            r matches Some(d) ==> d == (Dims { nx, ny, nz }) && d.wf(),
            r is None <==> !(Dims { nx, ny, nz }).wf(),
    {
        if nx == 0 || ny == 0 || nz == 0 {
            return None;
        }
        if nx > usize::MAX - 2 * HALO || ny > usize::MAX - 2 * HALO || nz > usize::MAX - 2 * HALO {
            proof {
                let d = Dims { nx, ny, nz };
                assert(d.px() >= 1 && d.py() >= 1 && d.pz() >= 1);
                assert(d.padded_cells() >= d.px() && d.padded_cells() >= d.py()
                    && d.padded_cells() >= d.pz()) by (nonlinear_arith)
                    requires
                        d.px() >= 1,
                        d.py() >= 1,
                        d.pz() >= 1,
                        d.padded_cells() == d.px() * d.py() * d.pz(),
                ;
            }
            return None;
        }
        let px = nx + 2 * HALO;
        let py = ny + 2 * HALO;
        let pz = nz + 2 * HALO;
        match px.checked_mul(py) {
            None => {
                proof {
                    assert(px * py * pz >= px * py) by (nonlinear_arith)
                        requires
                            pz >= 1,
                            px >= 0,
                            py >= 0,
                    ;
                }
                None
            },
            Some(pxy) => match pxy.checked_mul(pz) {
                None => None,
                Some(_) => Some(Dims { nx, ny, nz }),
            },
        }
    }

    /// Interior extents of a padded array of the given shape; `None` where an
    /// axis has no cell left once the halo is taken off both faces, or the
    /// array would not be addressable.
    pub fn from_padded(px: usize, py: usize, pz: usize) -> (r: Option<Dims>)
        ensures
            r matches Some(d) ==> d.wf() && d.px() == px && d.py() == py && d.pz() == pz,
            r is None <==> !(px > 2 * HALO && py > 2 * HALO && pz > 2 * HALO
                && px * py * pz <= usize::MAX),
    {
        if px <= 2 * HALO || py <= 2 * HALO || pz <= 2 * HALO {
            return None;
        }
        let r = Dims::new(px - 2 * HALO, py - 2 * HALO, pz - 2 * HALO);
        r
    }

    /// Shape of a padded array of this grid.
    pub fn padded_shape(&self) -> (r: (usize, usize, usize))
        requires
            self.wf(),
        ensures
            r.0 == self.px(),
            r.1 == self.py(),
            r.2 == self.pz(),
    {
        proof { self.lemma_extents_fit(); }
        (self.nx + 2 * HALO, self.ny + 2 * HALO, self.nz + 2 * HALO)
    }

    /// Number of cells of a padded array of this grid.
    pub fn padded_len(&self) -> (r: usize)
        requires
            self.wf(),
        ensures
            r == self.padded_cells(),
    {
        let (px, py, pz) = self.padded_shape();
        proof {
            assert(px * py <= px * py * pz) by (nonlinear_arith)
                requires
                    pz >= 1,
                    px >= 0,
                    py >= 0,
            ;
        }
        px * py * pz
    }

    /// Number of interior cells.
    pub fn interior_len(&self) -> (r: usize)
        requires
            self.wf(),
        ensures
            r == self.interior_cells(),
    {
        proof {
            assert(self.nx * self.ny <= self.px() * self.py()) by (nonlinear_arith)
                requires
                    self.nx <= self.px(),
                    self.ny <= self.py(),
                    self.nx >= 0,
                    self.ny >= 0,
            ;
            assert(self.nx * self.ny * self.nz <= self.px() * self.py() * self.pz())
                by (nonlinear_arith)
                requires
                    self.nx * self.ny <= self.px() * self.py(),
                    self.nz <= self.pz(),
                    self.nx * self.ny >= 0,
                    self.nz >= 0,
            ;
            assert(self.nx * self.ny <= self.nx * self.ny * self.nz) by (nonlinear_arith)
                requires
                    self.nx * self.ny >= 0,
                    self.nz >= 1,
            ;
        }
        self.nx * self.ny * self.nz
    }

    pub proof fn lemma_extents_fit(self)
        requires
            self.wf(),
        ensures
            self.px() <= self.padded_cells(),
            self.py() <= self.padded_cells(),
            self.pz() <= self.padded_cells(),
            self.py() * self.pz() <= self.padded_cells(),
    {
        let (px, py, pz) = (self.px(), self.py(), self.pz());
        assert(px <= px * py * pz && py <= px * py * pz && pz <= px * py * pz
            && py * pz <= px * py * pz) by (nonlinear_arith)
            requires
                px >= 1,
                py >= 1,
                pz >= 1,
        ;
    }

    /// Flat position of storage cell `(x, y, z)` of a padded array.
    pub fn storage_index(&self, x: usize, y: usize, z: usize) -> (r: usize)
        requires
            self.wf(),
            x < self.px(),
            y < self.py(),
            z < self.pz(),
        ensures
            r == self.storage_spec(x as int, y as int, z as int),
            r < self.padded_cells(),
    {
        proof {
            self.lemma_extents_fit();
            lemma_flat_bounds(self.px(), self.py(), self.pz(), x as int, y as int, z as int);
            assert(0 <= x * self.py() + y <= (x * self.py() + y) * self.pz()) by (nonlinear_arith)
                requires
                    x >= 0,
                    y >= 0,
                    self.py() >= 1,
                    self.pz() >= 1,
            ;
            assert(x * self.py() <= x * self.py() + y);
        }
        let (_, py, pz) = self.padded_shape();
        (x * py + y) * pz + z
    }

    /// Flat position in a padded array of interior cell `(i, j, k)`, which is
    /// stored at `(i + HALO, j + HALO, k + HALO)`.
    pub fn interior_index(&self, i: usize, j: usize, k: usize) -> (r: usize)
        requires
            self.wf(),
            i < self.nx,
            j < self.ny,
            k < self.nz,
        ensures
            r == self.storage_spec(i + HALO, j + HALO, k + HALO),
            self.interior_spec(i + HALO, j + HALO, k + HALO),
            r < self.padded_cells(),
    {
        proof { self.lemma_extents_fit(); }
        self.storage_index(i + HALO, j + HALO, k + HALO)
    }

    /// The interior and the halo do not overlap: the flat position of an
    /// interior cell is never that of a halo cell, so writing the interior
    /// leaves the halo as it was.
    pub proof fn lemma_interior_apart_from_halo(self, i: int, j: int, k: int, x: int, y: int, z: int)
        requires
            self.wf(),
            0 <= i < self.nx,
            0 <= j < self.ny,
            0 <= k < self.nz,
            0 <= x < self.px(),
            0 <= y < self.py(),
            0 <= z < self.pz(),
            !self.interior_spec(x, y, z),
        ensures
            self.storage_spec(i + HALO, j + HALO, k + HALO) != self.storage_spec(x, y, z),
    {
        if self.storage_spec(i + HALO, j + HALO, k + HALO) == self.storage_spec(x, y, z) {
            lemma_flat_injective(self.py(), self.pz(), i + HALO, j + HALO, k + HALO, x, y, z);
        }
    }

    /// Whether storage cell `(x, y, z)` lies in the interior.
    pub fn is_interior(&self, x: usize, y: usize, z: usize) -> (r: bool)
        requires
            self.wf(),
        ensures
            r == self.interior_spec(x as int, y as int, z as int),
    {
        proof { self.lemma_extents_fit(); }
        HALO <= x && x < HALO + self.nx && HALO <= y && y < HALO + self.ny && HALO <= z && z
            < HALO + self.nz
    }
}

} // verus!
