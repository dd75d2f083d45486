use vstd::prelude::*;
use vstd::arithmetic::div_mod::{
    lemma_fundamental_div_mod_converse_div, lemma_fundamental_div_mod_converse_mod,
};

verus! {

/// Cell counts of the standard run geometry, one per axis.
pub const STANDARD_NX: usize = 20;

pub const STANDARD_NY: usize = 20;

pub const STANDARD_NZ: usize = 20;

/// Number of timesteps of the standard run.
pub const STANDARD_STEPS: usize = 100;

/// Immutable lattice geometry: the cell counts along the three axes.
///
/// Cells are addressed by a linear offset in which the x coordinate varies
/// fastest, then y, then z.
#[derive(Clone, Copy, PartialEq, Eq, Structural, Debug)]
pub struct Grid {
    pub nx: usize,
    pub ny: usize,
    pub nz: usize,
}

/// Edge-replicating boundary policy: an out-of-range coordinate is moved to
/// the nearest valid coordinate (`0` below, `extent - 1` above). It is a
/// clamp, not a periodic wraparound.
pub open spec fn spec_clamp(c: int, extent: int) -> int {
    if c < 0 {
        0
    } else if c >= extent {
        extent - 1
    } else {
        c
    }
}

/// Executable form of the boundary policy on a signed coordinate, as used
/// when a stencil steps off the lattice.
pub fn clamp_coord(c: isize, extent: usize) -> (r: usize)
    requires
        1 <= extent <= isize::MAX,
    ensures
        r == spec_clamp(c as int, extent as int),
{
    if c < 0 {
        0
    } else if c >= extent as isize {
        extent - 1
    } else {
        c as usize
    }
}

impl Grid {
    /// A usable geometry: at least one cell on every axis, and a total cell
    /// count that fits in `usize`.
    pub open spec fn wf(self) -> bool {
        &&& 1 <= self.nx
        &&& 1 <= self.ny
        &&& 1 <= self.nz
        &&& self.nx * self.ny * self.nz <= usize::MAX as int
    }

    /// Total number of cells, `nx * ny * nz`.
    pub open spec fn spec_cell_count(self) -> int {
        self.nx * self.ny * self.nz
    }

    pub open spec fn valid_coord(self, x: int, y: int, z: int) -> bool {
        &&& 0 <= x < self.nx
        &&& 0 <= y < self.ny
        &&& 0 <= z < self.nz
    }

    /// Linear offset of cell (x, y, z); x varies fastest.
    pub open spec fn spec_index(self, x: int, y: int, z: int) -> int {
        x + self.nx * (y + self.ny * z)
    }

    /// x coordinate of the cell at linear offset `i`.
    pub open spec fn spec_x_of(self, i: int) -> int {
        i % (self.nx as int)
    }

    /// y coordinate of the cell at linear offset `i`.
    pub open spec fn spec_y_of(self, i: int) -> int {
        (i / (self.nx as int)) % (self.ny as int)
    }

    /// z coordinate of the cell at linear offset `i`.
    pub open spec fn spec_z_of(self, i: int) -> int {
        (i / (self.nx as int)) / (self.ny as int)
    }

    /// Builds a geometry, rejecting one with an empty axis or with more
    /// cells than `usize` can address.
    pub fn new(nx: usize, ny: usize, nz: usize) -> (r: Option<Grid>)
        ensures
            r is Some <==> (1 <= nx && 1 <= ny && 1 <= nz && nx * ny * nz <= usize::MAX as int),
            r matches Some(g) ==> g == (Grid { nx, ny, nz }) && g.wf(),
    {
        if nx == 0 || ny == 0 || nz == 0 {
            return None;
        }
        match nx.checked_mul(ny) {
            None => {
                proof {
                    assert(nx * ny <= nx * ny * nz) by (nonlinear_arith)
                        requires
                            1 <= nz,
                            0 <= nx * ny,
                    ;
                }
                None
            },
            Some(a) => {
                match a.checked_mul(nz) {
                    None => None,
                    Some(_) => Some(Grid { nx, ny, nz }),
                }
            },
        }
    }

    /// The linear offset of every valid coordinate lies below the cell count.
    pub proof fn lemma_index_in_range(self, x: int, y: int, z: int)
        requires
            self.wf(),
            self.valid_coord(x, y, z),
        ensures
            0 <= self.spec_index(x, y, z) < self.spec_cell_count(),
    {
        assert(0 <= x + self.nx * (y + self.ny * z) < self.nx * self.ny * self.nz)
            by (nonlinear_arith)
            requires
                0 <= x < self.nx,
                0 <= y < self.ny,
                0 <= z < self.nz,
        ;
    }

    /// The boundary clamp replicates the edge: at the lower corner cell,
    /// every axis's negative neighbour coordinate resolves back to the
    /// corner itself, so each lower stencil sample is the centre cell — no
    /// wraparound to the far edge.
    pub proof fn lemma_corner_stencil_replicates_self(self)
        requires
            self.wf(),
        ensures
            spec_clamp(-1, self.nx as int) == 0,
            self.spec_index(spec_clamp(-1, self.nx as int), 0, 0) == self.spec_index(0, 0, 0),
            self.spec_index(0, spec_clamp(-1, self.ny as int), 0) == self.spec_index(0, 0, 0),
            self.spec_index(0, 0, spec_clamp(-1, self.nz as int)) == self.spec_index(0, 0, 0),
    {
    }

    /// Indexing is injective: the inverse coordinate functions recover the
    /// coordinates from the linear offset.
    pub proof fn lemma_index_roundtrip(self, x: int, y: int, z: int)
        requires
            self.wf(),
            self.valid_coord(x, y, z),
        ensures
            self.spec_x_of(self.spec_index(x, y, z)) == x,
            self.spec_y_of(self.spec_index(x, y, z)) == y,
            self.spec_z_of(self.spec_index(x, y, z)) == z,
    {
        let i = self.spec_index(x, y, z);
        let q = y + self.ny * z;
        assert(i == q * (self.nx as int) + x) by (nonlinear_arith)
            requires
                i == x + self.nx * q,
        ;
        assert(0 <= q && 0 <= q * (self.nx as int)) by (nonlinear_arith)
            requires
                q == y + self.ny * z,
                0 <= y,
                0 <= z,
                1 <= self.ny,
                1 <= self.nx,
        ;
        lemma_fundamental_div_mod_converse_mod(i, self.nx as int, q, x);
        lemma_fundamental_div_mod_converse_div(i, self.nx as int, q, x);
        assert(q == z * (self.ny as int) + y) by (nonlinear_arith)
            requires
                q == y + self.ny * z,
        ;
        lemma_fundamental_div_mod_converse_mod(q, self.ny as int, z, y);
        lemma_fundamental_div_mod_converse_div(q, self.ny as int, z, y);
    }

    /// Indexing is surjective: every offset below the cell count is the
    /// offset of a valid coordinate, namely the inverse functions' value.
    pub proof fn lemma_offset_roundtrip(self, i: int)
        requires
            self.wf(),
            0 <= i < self.spec_cell_count(),
        ensures
            self.valid_coord(self.spec_x_of(i), self.spec_y_of(i), self.spec_z_of(i)),
            self.spec_index(self.spec_x_of(i), self.spec_y_of(i), self.spec_z_of(i)) == i,
    {
        let nxi = self.nx as int;
        let nyi = self.ny as int;
        let x = i % nxi;
        let q = i / nxi;
        let y = q % nyi;
        let z = q / nyi;
        vstd::arithmetic::div_mod::lemma_fundamental_div_mod(i, nxi);
        vstd::arithmetic::div_mod::lemma_mod_division_less_than_divisor(i, nxi);
        vstd::arithmetic::div_mod::lemma_div_pos_is_pos(i, nxi);
        assert(i < nxi * (self.ny * self.nz)) by (nonlinear_arith)
            requires
                nxi == self.nx,
                i < self.nx * self.ny * self.nz,
        ;
        vstd::arithmetic::div_mod::lemma_multiply_divide_lt(i, nxi, self.ny * self.nz);
        vstd::arithmetic::div_mod::lemma_fundamental_div_mod(q, nyi);
        vstd::arithmetic::div_mod::lemma_mod_division_less_than_divisor(q, nyi);
        vstd::arithmetic::div_mod::lemma_div_pos_is_pos(q, nyi);
        vstd::arithmetic::div_mod::lemma_multiply_divide_lt(q, nyi, self.nz as int);
        assert(self.spec_index(x, y, z) == x + self.nx * (y + self.ny * z));
        assert(x + self.nx * (y + self.ny * z) == i) by (nonlinear_arith)
            requires
                i == nxi * q + x,
                q == nyi * z + y,
                nxi == self.nx,
                nyi == self.ny,
        ;
    }

    /// Total number of cells.
    pub fn cell_count(&self) -> (n: usize)
        requires
            self.wf(),
        ensures
            n == self.spec_cell_count(),
    {
        proof {
            assert(self.nx * self.ny <= self.nx * self.ny * self.nz) by (nonlinear_arith)
                requires
                    1 <= self.nz,
                    0 <= self.nx * self.ny,
            ;
        }
        self.nx * self.ny * self.nz
    }

    /// Linear offset of a valid cell coordinate; x varies fastest.
    pub fn index(&self, x: usize, y: usize, z: usize) -> (i: usize)
        requires
            self.wf(),
            self.valid_coord(x as int, y as int, z as int),
        ensures
            i == self.spec_index(x as int, y as int, z as int),
            i < self.spec_cell_count(),
    {
        proof {
            self.lemma_index_in_range(x as int, y as int, z as int);
            assert(0 <= self.ny * z
                && self.ny * z <= y + self.ny * z
                && y + self.ny * z <= self.nx * (y + self.ny * z)
                && self.nx * (y + self.ny * z) <= self.spec_index(x as int, y as int, z as int))
                by (nonlinear_arith)
                requires
                    0 <= x < self.nx,
                    0 <= y < self.ny,
                    0 <= z < self.nz,
            ;
        }
        x + self.nx * (y + self.ny * z)
    }

    /// Coordinates of the cell at a linear offset: the inverse of `index`.
    pub fn coords_of(&self, i: usize) -> (c: (usize, usize, usize))
        requires
            self.wf(),
            i < self.spec_cell_count(),
        ensures
            c.0 == self.spec_x_of(i as int),
            c.1 == self.spec_y_of(i as int),
            c.2 == self.spec_z_of(i as int),
            self.valid_coord(c.0 as int, c.1 as int, c.2 as int),
            self.spec_index(c.0 as int, c.1 as int, c.2 as int) == i,
    {
        proof {
            self.lemma_offset_roundtrip(i as int);
        }
        let x = i % self.nx;
        let q = i / self.nx;
        let y = q % self.ny;
        let z = q / self.ny;
        (x, y, z)
    }
}

impl Default for Grid {
    /// The standard run geometry.
    fn default() -> (g: Grid)
        ensures
            g == (Grid { nx: STANDARD_NX, ny: STANDARD_NY, nz: STANDARD_NZ }),
            g.wf(),
    {
        let g = Grid { nx: STANDARD_NX, ny: STANDARD_NY, nz: STANDARD_NZ };
        proof {
            assert(g.nx * g.ny * g.nz <= usize::MAX as int) by (nonlinear_arith)
                requires
                    g.nx == 20,
                    g.ny == 20,
                    g.nz == 20,
            ;
        }
        g
    }
}

} // verus!
