use vstd::prelude::*;

use crate::field::Field;
use crate::grid::Grid;

verus! {

/// The photon and axion densities of one adjacent site pair along the x
/// axis: the lower site (x, y, z) and the upper site (x + 1, y, z). The
/// braiding pass mixes exactly these four values; neutrino and energy
/// densities take no part in it.
#[derive(Clone, Copy, Debug)]
pub struct PairState<T> {
    pub photon_lo: T,
    pub axion_lo: T,
    pub photon_hi: T,
    pub axion_hi: T,
}

impl<T: Copy> Field<T> {
    /// Reads the photon and axion densities of the braiding pair whose
    /// lower site is (x, y, z). The values are whatever the field holds at
    /// the moment of the read, so a pass that works through a line in
    /// increasing x order sees at the shared site the value the previous
    /// pair wrote.
    pub fn braid_pair(&self, x: usize, y: usize, z: usize) -> (p: PairState<T>)
        requires
            self.wf(),
            self.grid.valid_coord(x as int, y as int, z as int),
            x + 1 < self.grid.nx,
        ensures
            p.photon_lo == self.photon_density@[self.grid.spec_index(x as int, y as int, z as int)],
            p.axion_lo == self.axion_density@[self.grid.spec_index(x as int, y as int, z as int)],
            p.photon_hi == self.photon_density@[self.grid.spec_index(
                x as int + 1,
                y as int,
                z as int,
            )],
            p.axion_hi == self.axion_density@[self.grid.spec_index(x as int + 1, y as int, z as int)],
    {
        let i = self.grid.index(x, y, z);
        let j = self.grid.index(x + 1, y, z);
        PairState {
            photon_lo: self.photon_density[i],
            axion_lo: self.axion_density[i],
            photon_hi: self.photon_density[j],
            axion_hi: self.axion_density[j],
        }
    }

    /// Writes the four mixed values of one braiding pair back in place.
    /// Only the photon and axion entries of the two pair sites change;
    /// every other entry, and the whole neutrino and energy arrays, stay
    /// as they were.
    pub fn set_braid_pair(&mut self, x: usize, y: usize, z: usize, p: PairState<T>)
        requires
            old(self).wf(),
            old(self).grid.valid_coord(x as int, y as int, z as int),
            x + 1 < old(self).grid.nx,
        ensures
            final(self).wf(),
            final(self).grid == old(self).grid,
            final(self).photon_density@ == old(self).photon_density@.update(
                old(self).grid.spec_index(x as int, y as int, z as int),
                p.photon_lo,
            ).update(old(self).grid.spec_index(x as int + 1, y as int, z as int), p.photon_hi),
            final(self).axion_density@ == old(self).axion_density@.update(
                old(self).grid.spec_index(x as int, y as int, z as int),
                p.axion_lo,
            ).update(old(self).grid.spec_index(x as int + 1, y as int, z as int), p.axion_hi),
            final(self).neutrino_density@ == old(self).neutrino_density@,
            final(self).energy_density@ == old(self).energy_density@,
    {
        let i = self.grid.index(x, y, z);
        let j = self.grid.index(x + 1, y, z);
        self.photon_density.set(i, p.photon_lo);
        self.photon_density.set(j, p.photon_hi);
        self.axion_density.set(i, p.axion_lo);
        self.axion_density.set(j, p.axion_hi);
    }
}

/// Sequential dependency of the braiding pass along an x line.
///
/// Consecutive pairs overlap: the upper site of the pair at x is the very
/// cell that is the lower site of the pair at x + 1 (their linear offsets
/// differ by one within the same line). Hence, after the pair at x writes
/// `hi` to its upper site, the pair at x + 1 reads `hi` at its lower site —
/// the value just written, not the pre-pass one — while its own upper site
/// still holds the untouched pre-pass value. The pairs of a line are
/// therefore not independent: each feeds the next, left to right.
pub proof fn lemma_braid_sequential_dependency<T>(
    g: Grid,
    s: Seq<T>,
    lo: T,
    hi: T,
    x: int,
    y: int,
    z: int,
)
    requires
        g.wf(),
        g.valid_coord(x, y, z),
        x + 2 < g.nx,
        s.len() == g.spec_cell_count(),
    ensures
        g.spec_index(x + 1, y, z) == g.spec_index(x, y, z) + 1,
        g.spec_index(x + 2, y, z) == g.spec_index(x, y, z) + 2,
        s.update(g.spec_index(x, y, z), lo).update(g.spec_index(x + 1, y, z), hi)[g.spec_index(
            x + 1,
            y,
            z,
        )] == hi,
        s.update(g.spec_index(x, y, z), lo).update(g.spec_index(x + 1, y, z), hi)[g.spec_index(
            x + 2,
            y,
            z,
        )] == s[g.spec_index(x + 2, y, z)],
{
    g.lemma_index_in_range(x, y, z);
    g.lemma_index_in_range(x + 1, y, z);
    g.lemma_index_in_range(x + 2, y, z);
}

} // verus!
