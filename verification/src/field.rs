use vstd::prelude::*;

use crate::grid::{spec_clamp, Grid};

verus! {

/// Selects one of the four density arrays of a field state.
#[derive(Clone, Copy, PartialEq, Eq, Structural, Debug)]
pub enum Species {
    Photon,
    Axion,
    Neutrino,
    Energy,
}

/// The four density values of a single cell.
#[derive(Clone, Copy, Debug)]
pub struct CellState<T> {
    pub photon: T,
    pub axion: T,
    pub neutrino: T,
    pub energy: T,
}

/// The seven samples the six-point stencil reads from one density array:
/// the cell itself and its edge-clamped axis neighbours.
#[derive(Clone, Copy, Debug)]
pub struct StencilValues<T> {
    pub center: T,
    pub x_lo: T,
    pub x_hi: T,
    pub y_lo: T,
    pub y_hi: T,
    pub z_lo: T,
    pub z_hi: T,
}

/// Simulation state: four equal-length density arrays over one lattice,
/// addressed through the lattice's linear indexing.
pub struct Field<T> {
    pub grid: Grid,
    pub photon_density: Vec<T>,
    pub axion_density: Vec<T>,
    pub neutrino_density: Vec<T>,
    pub energy_density: Vec<T>,
}

impl<T: Copy> Field<T> {
    /// Shape invariant: every density array has exactly one entry per cell.
    pub open spec fn wf(self) -> bool {
        &&& self.grid.wf()
        &&& self.photon_density@.len() == self.grid.spec_cell_count()
        &&& self.axion_density@.len() == self.grid.spec_cell_count()
        &&& self.neutrino_density@.len() == self.grid.spec_cell_count()
        &&& self.energy_density@.len() == self.grid.spec_cell_count()
    }

    /// The density array selected by `s`.
    pub open spec fn spec_density(self, s: Species) -> Seq<T> {
        match s {
            Species::Photon => self.photon_density@,
            Species::Axion => self.axion_density@,
            Species::Neutrino => self.neutrino_density@,
            Species::Energy => self.energy_density@,
        }
    }

    /// Builds the initial state: each density is uniform over the lattice
    /// at its given starting value.
    pub fn new(grid: Grid, photon_init: T, axion_init: T, neutrino_init: T, energy_init: T) -> (f:
        Field<T>)
        requires
            grid.wf(),
        ensures
            f.wf(),
            f.grid == grid,
            forall|i: int|
                0 <= i < grid.spec_cell_count() ==> f.photon_density@[i] == photon_init,
            forall|i: int| 0 <= i < grid.spec_cell_count() ==> f.axion_density@[i] == axion_init,
            forall|i: int|
                0 <= i < grid.spec_cell_count() ==> f.neutrino_density@[i] == neutrino_init,
            forall|i: int| 0 <= i < grid.spec_cell_count() ==> f.energy_density@[i] == energy_init,
    {
        let n = grid.cell_count();
        Field {
            grid,
            photon_density: uniform(photon_init, n),
            axion_density: uniform(axion_init, n),
            neutrino_density: uniform(neutrino_init, n),
            energy_density: uniform(energy_init, n),
        }
    }

    /// The value the selected density holds at linear offset `i`.
    pub fn density_at(&self, s: Species, i: usize) -> (v: T)
        requires
            self.wf(),
            i < self.grid.spec_cell_count(),
        ensures
            v == self.spec_density(s)[i as int],
    {
        match s {
            Species::Photon => self.photon_density[i],
            Species::Axion => self.axion_density[i],
            Species::Neutrino => self.neutrino_density[i],
            Species::Energy => self.energy_density[i],
        }
    }

    /// All four densities of the cell at linear offset `i`.
    pub fn cell(&self, i: usize) -> (c: CellState<T>)
        requires
            self.wf(),
            i < self.grid.spec_cell_count(),
        ensures
            c.photon == self.photon_density@[i as int],
            c.axion == self.axion_density@[i as int],
            c.neutrino == self.neutrino_density@[i as int],
            c.energy == self.energy_density@[i as int],
    {
        CellState {
            photon: self.photon_density[i],
            axion: self.axion_density[i],
            neutrino: self.neutrino_density[i],
            energy: self.energy_density[i],
        }
    }

    /// Reads the six-point stencil of the selected density at cell
    /// (x, y, z). Each neighbour coordinate is resolved through the
    /// edge-replicating clamp independently per axis, so at a boundary the
    /// cell stands in for its missing neighbour.
    pub fn stencil_values(&self, s: Species, x: usize, y: usize, z: usize) -> (r: StencilValues<
        T,
    >)
        requires
            self.wf(),
            self.grid.valid_coord(x as int, y as int, z as int),
        ensures
            r.center == self.spec_density(s)[self.grid.spec_index(x as int, y as int, z as int)],
            r.x_lo == self.spec_density(s)[self.grid.spec_index(
                spec_clamp(x as int - 1, self.grid.nx as int),
                y as int,
                z as int,
            )],
            r.x_hi == self.spec_density(s)[self.grid.spec_index(
                spec_clamp(x as int + 1, self.grid.nx as int),
                y as int,
                z as int,
            )],
            r.y_lo == self.spec_density(s)[self.grid.spec_index(
                x as int,
                spec_clamp(y as int - 1, self.grid.ny as int),
                z as int,
            )],
            r.y_hi == self.spec_density(s)[self.grid.spec_index(
                x as int,
                spec_clamp(y as int + 1, self.grid.ny as int),
                z as int,
            )],
            r.z_lo == self.spec_density(s)[self.grid.spec_index(
                x as int,
                y as int,
                spec_clamp(z as int - 1, self.grid.nz as int),
            )],
            r.z_hi == self.spec_density(s)[self.grid.spec_index(
                x as int,
                y as int,
                spec_clamp(z as int + 1, self.grid.nz as int),
            )],
    {
        let xm = coord_down(x, self.grid.nx);
        let xp = coord_up(x, self.grid.nx);
        let ym = coord_down(y, self.grid.ny);
        let yp = coord_up(y, self.grid.ny);
        let zm = coord_down(z, self.grid.nz);
        let zp = coord_up(z, self.grid.nz);
        StencilValues {
            center: self.density_at(s, self.grid.index(x, y, z)),
            x_lo: self.density_at(s, self.grid.index(xm, y, z)),
            x_hi: self.density_at(s, self.grid.index(xp, y, z)),
            y_lo: self.density_at(s, self.grid.index(x, ym, z)),
            y_hi: self.density_at(s, self.grid.index(x, yp, z)),
            z_lo: self.density_at(s, self.grid.index(x, y, zm)),
            z_hi: self.density_at(s, self.grid.index(x, y, zp)),
        }
    }
}

/// Accumulates the next state of a step cell by cell, in linear-offset
/// order, while the current state stays frozen. Turning the buffer into a
/// `Field` requires one pushed cell state per lattice cell, so a full step
/// always produces a whole snapshot and never a partially updated state.
pub struct StepBuffer<T> {
    pub grid: Grid,
    pub photon_density: Vec<T>,
    pub axion_density: Vec<T>,
    pub neutrino_density: Vec<T>,
    pub energy_density: Vec<T>,
}

impl<T: Copy> StepBuffer<T> {
    /// The four arrays grow in lockstep and never beyond the cell count.
    pub open spec fn wf(self) -> bool {
        &&& self.grid.wf()
        &&& self.photon_density@.len() <= self.grid.spec_cell_count()
        &&& self.axion_density@.len() == self.photon_density@.len()
        &&& self.neutrino_density@.len() == self.photon_density@.len()
        &&& self.energy_density@.len() == self.photon_density@.len()
    }

    /// Number of cells pushed so far, which is the linear offset the next
    /// pushed cell state will occupy.
    pub open spec fn spec_len(self) -> int {
        self.photon_density@.len() as int
    }

    /// One cell state has been pushed for every lattice cell.
    pub open spec fn complete(self) -> bool {
        self.wf() && self.spec_len() == self.grid.spec_cell_count()
    }

    /// An empty buffer for the next state over `grid`.
    pub fn new(grid: Grid) -> (b: StepBuffer<T>)
        requires
            grid.wf(),
        ensures
            b.wf(),
            b.grid == grid,
            b.spec_len() == 0,
    {
        StepBuffer {
            grid,
            photon_density: Vec::new(),
            axion_density: Vec::new(),
            neutrino_density: Vec::new(),
            energy_density: Vec::new(),
        }
    }

    /// Appends the next cell's four densities at the next linear offset.
    pub fn push_cell(&mut self, c: CellState<T>)
        requires
            old(self).wf(),
            old(self).spec_len() < old(self).grid.spec_cell_count(),
        ensures
            final(self).wf(),
            final(self).grid == old(self).grid,
            final(self).spec_len() == old(self).spec_len() + 1,
            final(self).photon_density@ == old(self).photon_density@.push(c.photon),
            final(self).axion_density@ == old(self).axion_density@.push(c.axion),
            final(self).neutrino_density@ == old(self).neutrino_density@.push(c.neutrino),
            final(self).energy_density@ == old(self).energy_density@.push(c.energy),
    {
        self.photon_density.push(c.photon);
        self.axion_density.push(c.axion);
        self.neutrino_density.push(c.neutrino);
        self.energy_density.push(c.energy);
    }

    /// Seals a complete buffer as the field state of the next timestep.
    pub fn into_field(self) -> (f: Field<T>)
        requires
            self.complete(),
        ensures
            f.wf(),
            f.grid == self.grid,
            f.photon_density@ == self.photon_density@,
            f.axion_density@ == self.axion_density@,
            f.neutrino_density@ == self.neutrino_density@,
            f.energy_density@ == self.energy_density@,
    {
        Field {
            grid: self.grid,
            photon_density: self.photon_density,
            axion_density: self.axion_density,
            neutrino_density: self.neutrino_density,
            energy_density: self.energy_density,
        }
    }
}

/// Coordinate one step towards the lower edge, clamped at `0`.
fn coord_down(c: usize, extent: usize) -> (r: usize)
    requires
        c < extent,
    ensures
        r == spec_clamp(c as int - 1, extent as int),
{
    if c == 0 {
        0
    } else {
        c - 1
    }
}

/// Coordinate one step towards the upper edge, clamped at `extent - 1`.
fn coord_up(c: usize, extent: usize) -> (r: usize)
    requires
        c < extent,
    ensures
        r == spec_clamp(c as int + 1, extent as int),
{
    if c + 1 == extent {
        c
    } else {
        c + 1
    }
}

/// A vector holding `n` copies of `value`.
fn uniform<T: Copy>(value: T, n: usize) -> (v: Vec<T>)
    ensures
        v@.len() == n,
        forall|i: int| 0 <= i < n ==> v@[i] == value,
{
    let mut v: Vec<T> = Vec::new();
    let mut k: usize = 0;
    while k < n
        invariant
            k <= n,
            v@.len() == k,
            forall|i: int| 0 <= i < k ==> v@[i] == value,
        decreases n - k,
    {
        v.push(value);
        k = k + 1;
    }
    v
}

} // verus!
