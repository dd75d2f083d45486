use color_algebra::braid::PairState;
use color_algebra::field::{CellState, Field, Species, StepBuffer};
use color_algebra::grid::Grid;

/// A 4-site line (4x1x1) with distinct photon and axion values per site.
fn line_field(photon: [f64; 4], axion: [f64; 4]) -> Field<f64> {
    let g = Grid::new(4, 1, 1).unwrap();
    let mut buf: StepBuffer<f64> = StepBuffer::new(g);
    for x in 0..4 {
        buf.push_cell(CellState {
            photon: photon[x],
            axion: axion[x],
            neutrino: 50.0 + x as f64,
            energy: 90.0 + x as f64,
        });
    }
    buf.into_field()
}

const Q: f64 = 1.001;

fn mix(p: &PairState<f64>, qm: f64, qp: f64) -> PairState<f64> {
    PairState {
        photon_lo: 0.5 * (p.photon_lo * qm + p.axion_hi),
        axion_lo: 0.5 * (p.axion_lo * qp + p.photon_hi),
        photon_hi: 0.5 * (p.photon_hi * qm + p.axion_lo),
        axion_hi: 0.5 * (p.axion_hi * qp + p.photon_lo),
    }
}

#[test]
fn braid_pair_reads_both_sites() {
    let f = line_field([10.0, 20.0, 30.0, 40.0], [1.0, 2.0, 3.0, 4.0]);
    let p = f.braid_pair(0, 0, 0);
    assert_eq!(p.photon_lo, 10.0);
    assert_eq!(p.axion_lo, 1.0);
    assert_eq!(p.photon_hi, 20.0);
    assert_eq!(p.axion_hi, 2.0);
    let p = f.braid_pair(2, 0, 0);
    assert_eq!(p.photon_lo, 30.0);
    assert_eq!(p.axion_lo, 3.0);
    assert_eq!(p.photon_hi, 40.0);
    assert_eq!(p.axion_hi, 4.0);
}

#[test]
fn set_braid_pair_touches_only_its_two_sites() {
    let mut f = line_field([10.0, 20.0, 30.0, 40.0], [1.0, 2.0, 3.0, 4.0]);
    f.set_braid_pair(
        1,
        0,
        0,
        PairState { photon_lo: -1.0, axion_lo: -2.0, photon_hi: -3.0, axion_hi: -4.0 },
    );
    assert_eq!(f.density_at(Species::Photon, 0), 10.0);
    assert_eq!(f.density_at(Species::Photon, 1), -1.0);
    assert_eq!(f.density_at(Species::Photon, 2), -3.0);
    assert_eq!(f.density_at(Species::Photon, 3), 40.0);
    assert_eq!(f.density_at(Species::Axion, 0), 1.0);
    assert_eq!(f.density_at(Species::Axion, 1), -2.0);
    assert_eq!(f.density_at(Species::Axion, 2), -4.0);
    assert_eq!(f.density_at(Species::Axion, 3), 4.0);
    // Neutrino and energy densities take no part in braiding.
    for i in 0..4 {
        assert_eq!(f.density_at(Species::Neutrino, i), 50.0 + i as f64);
        assert_eq!(f.density_at(Species::Energy, i), 90.0 + i as f64);
    }
}

#[test]
fn braiding_pass_matches_left_to_right_recurrence() {
    let photon = [10.0, 20.0, 30.0, 40.0];
    let axion = [1.0, 2.0, 3.0, 4.0];
    let qm = Q.powf(-0.5);
    let qp = Q.powf(0.5);

    // One braiding pass through the library, pairs in increasing x order.
    let mut f = line_field(photon, axion);
    for x in 0..3 {
        let p = f.braid_pair(x, 0, 0);
        f.set_braid_pair(x, 0, 0, mix(&p, qm, qp));
    }

    // Manual recurrence on plain arrays: each pair reads the values left
    // by the previous pair's write at the shared site.
    let mut ph = photon;
    let mut ax = axion;
    for x in 0..3 {
        let (ph_i, ax_i, ph_j, ax_j) = (ph[x], ax[x], ph[x + 1], ax[x + 1]);
        ph[x] = 0.5 * (ph_i * qm + ax_j);
        ax[x] = 0.5 * (ax_i * qp + ph_j);
        ph[x + 1] = 0.5 * (ph_j * qm + ax_i);
        ax[x + 1] = 0.5 * (ax_j * qp + ph_i);
    }
    for x in 0..4 {
        assert_eq!(f.density_at(Species::Photon, x), ph[x]);
        assert_eq!(f.density_at(Species::Axion, x), ax[x]);
    }

    // The pairs are sequentially dependent: a variant in which every pair
    // reads only the pre-pass snapshot gives a different interior value.
    let mut ph_indep = photon;
    let mut ax_indep = axion;
    for x in 0..3 {
        let (ph_i, ax_i, ph_j, ax_j) = (photon[x], axion[x], photon[x + 1], axion[x + 1]);
        ph_indep[x] = 0.5 * (ph_i * qm + ax_j);
        ax_indep[x] = 0.5 * (ax_i * qp + ph_j);
        ph_indep[x + 1] = 0.5 * (ph_j * qm + ax_i);
        ax_indep[x + 1] = 0.5 * (ax_j * qp + ph_i);
    }
    assert_ne!(f.density_at(Species::Photon, 1), ph_indep[1]);
}
