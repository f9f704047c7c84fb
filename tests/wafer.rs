use wafer::driver::{
    exit_code, load_failure, seed_for, Orchestrator, Plan, RunError, Schedule, Search, Seed,
    Status,
};
use wafer::input::{
    check_records, choose_wavefunction_file, compare_resolution, max_indices, InputFile,
    LoadError, Resolution,
};
use wafer::layout::{Dims, HALO};
use wafer::stencil::{neighbour, tap, TAPS};

#[test]
fn placeholder() {
    let num = 5;
    assert_eq!(num, 5);
}

fn stencil_of(d: &Dims, field: &[i64], i: usize, j: usize, k: usize) -> i64 {
    (0..TAPS).map(|n| tap(n).weight * field[neighbour(d, i, j, k, n)]).sum()
}

fn padded_field(d: &Dims, f: impl Fn(usize, usize, usize) -> i64) -> Vec<i64> {
    let (px, py, pz) = d.padded_shape();
    let mut v = Vec::new();
    for x in 0..px {
        for y in 0..py {
            for z in 0..pz {
                v.push(f(x, y, z));
            }
        }
    }
    v
}

#[test]
fn dims_reject_empty_axis() {
    assert_eq!(Dims::new(0, 4, 4), None);
    assert_eq!(Dims::new(4, 4, 0), None);
    assert_eq!(Dims::new(usize::MAX, 1, 1), None);
    assert_eq!(Dims::new(2, 3, 4), Some(Dims { nx: 2, ny: 3, nz: 4 }));
}

#[test]
fn padded_shape_adds_halo_on_both_faces() {
    let d = Dims::new(16, 16, 16).unwrap();
    assert_eq!(HALO, 3);
    assert_eq!(d.padded_shape(), (22, 22, 22));
    assert_eq!(d.padded_len(), 22 * 22 * 22);
    assert_eq!(d.interior_len(), 16 * 16 * 16);
}

#[test]
fn from_padded_strips_halo() {
    assert_eq!(Dims::from_padded(10, 7, 8), Some(Dims { nx: 4, ny: 1, nz: 2 }));
    assert_eq!(Dims::from_padded(6, 7, 8), None);
    assert_eq!(Dims::from_padded(10, 7, 0), None);
}

#[test]
fn storage_and_interior_indices() {
    let d = Dims::new(2, 3, 4).unwrap();
    // padded shape (8, 9, 10)
    assert_eq!(d.storage_index(0, 0, 0), 0);
    assert_eq!(d.storage_index(0, 0, 1), 1);
    assert_eq!(d.storage_index(0, 1, 0), 10);
    assert_eq!(d.storage_index(1, 0, 0), 90);
    assert_eq!(d.storage_index(7, 8, 9), 8 * 9 * 10 - 1);
    assert_eq!(d.interior_index(0, 0, 0), 3 * 90 + 3 * 10 + 3);
    assert_eq!(d.interior_index(1, 2, 3), 4 * 90 + 5 * 10 + 6);
}

#[test]
fn interior_and_halo_cells() {
    let d = Dims::new(2, 3, 4).unwrap();
    assert!(d.is_interior(3, 3, 3));
    assert!(d.is_interior(4, 5, 6));
    assert!(!d.is_interior(2, 3, 3));
    assert!(!d.is_interior(5, 3, 3));
    assert!(!d.is_interior(3, 6, 3));
    assert!(!d.is_interior(3, 3, 7));
    let mut interior = 0;
    let (px, py, pz) = d.padded_shape();
    for x in 0..px {
        for y in 0..py {
            for z in 0..pz {
                if d.is_interior(x, y, z) {
                    interior += 1;
                }
            }
        }
    }
    assert_eq!(interior, d.interior_len());
}

#[test]
fn stencil_weights_are_fixed() {
    let weights: Vec<i64> = (0..TAPS).map(|n| tap(n).weight).collect();
    assert_eq!(
        weights,
        vec![-1470, 270, 270, -27, -27, 2, 2, 270, 270, -27, -27, 2, 2, 270, 270, -27, -27, 2, 2]
    );
    assert_eq!(weights.iter().sum::<i64>(), 0);
    let one_axis: i64 = 2 - 27 + 270 - 490 + 270 - 27 + 2;
    assert_eq!(one_axis, 0);
}

#[test]
fn stencil_reads_three_cells_each_way() {
    let d = Dims::new(2, 3, 4).unwrap();
    let centre = d.interior_index(0, 0, 0);
    assert_eq!(neighbour(&d, 0, 0, 0, 0), centre);
    assert_eq!(neighbour(&d, 0, 0, 0, 5), d.storage_index(6, 3, 3));
    assert_eq!(neighbour(&d, 0, 0, 0, 6), d.storage_index(0, 3, 3));
    assert_eq!(neighbour(&d, 0, 0, 0, 12), d.storage_index(3, 0, 3));
    assert_eq!(neighbour(&d, 1, 2, 3, 17), d.storage_index(4, 5, 9));
    assert_eq!(neighbour(&d, 1, 2, 3, 18), d.storage_index(4, 5, 3));
}

#[test]
fn stencil_of_constant_field_is_zero() {
    let d = Dims::new(3, 2, 4).unwrap();
    let f = padded_field(&d, |_, _, _| 7);
    for i in 0..3 {
        for j in 0..2 {
            for k in 0..4 {
                assert_eq!(stencil_of(&d, &f, i, j, k), 0);
            }
        }
    }
}

#[test]
fn stencil_of_square_is_exact() {
    // f = x^2 along the first axis: the sum of w * s^2 over one axis is 360,
    // i.e. 180 times the second derivative 2.
    let d = Dims::new(2, 2, 2).unwrap();
    let f = padded_field(&d, |x, _, _| (x * x) as i64);
    assert_eq!(stencil_of(&d, &f, 0, 0, 0), 360);
    assert_eq!(stencil_of(&d, &f, 1, 1, 1), 360);
    let g = padded_field(&d, |x, y, z| (x * x + y * y + z * z) as i64);
    assert_eq!(stencil_of(&d, &g, 1, 0, 1), 3 * 360);
    let h = padded_field(&d, |x, y, _| (3 * x + 5 * y) as i64);
    assert_eq!(stencil_of(&d, &h, 0, 1, 0), 0);
}

#[test]
fn plan_follows_schedule() {
    let s = Schedule { snap_update: 20, screen_update: 10, max_steps: 30 };
    let mut r = Search::start(0);
    assert_eq!(r, Search { wnum: 0, step: 0, status: Status::Searching });
    assert_eq!(r.plan(&s), Plan { orthonormalise: false, snap: true, evolve: true });
    r.advance(&s);
    assert_eq!(r.step, 10);
    assert_eq!(r.plan(&s), Plan { orthonormalise: false, snap: false, evolve: true });
    r.advance(&s);
    r.advance(&s);
    assert_eq!(r.step, 30);
    assert_eq!(r.status, Status::Searching);
    assert_eq!(r.plan(&s), Plan { orthonormalise: false, snap: false, evolve: false });
    r.advance(&s);
    assert_eq!(r.step, 40);
    assert_eq!(r.status, Status::Exhausted);
}

#[test]
fn excited_state_plan_orthonormalises() {
    let s = Schedule { snap_update: 1, screen_update: 1, max_steps: 5 };
    let r = Search::start(2);
    assert_eq!(r.plan(&s), Plan { orthonormalise: true, snap: true, evolve: true });
}

#[test]
fn converges_only_within_tolerance() {
    let mut r = Search::start(1);
    r.conclude_snap(false);
    assert_eq!(r.status, Status::Searching);
    r.conclude_snap(true);
    assert_eq!(r.status, Status::Converged);
    assert_eq!(r.step, 0);
}

#[test]
fn exhaustion_with_few_steps() {
    let s = Schedule { snap_update: 100, screen_update: 100, max_steps: 10 };
    let mut r = Search::start(0);
    assert!(r.plan(&s).evolve);
    r.advance(&s);
    assert_eq!(r.status, Status::Exhausted);
}

#[test]
fn step_counter_saturates() {
    let s = Schedule { snap_update: 1, screen_update: 10, max_steps: u64::MAX };
    let mut r = Search { wnum: 0, step: u64::MAX - 5, status: Status::Searching };
    r.advance(&s);
    assert_eq!(r.step, u64::MAX);
    assert_eq!(r.status, Status::Exhausted);
}

#[test]
fn seeds_from_previous_state() {
    assert_eq!(seed_for(0, 3), Seed::Initial);
    assert_eq!(seed_for(1, 1), Seed::Stored(0));
    assert_eq!(seed_for(3, 3), Seed::Stored(2));
    assert_eq!(seed_for(3, 2), Seed::Initial);
}

#[test]
fn orchestrator_walks_all_states() {
    let mut o = Orchestrator::new(0, 2);
    let mut seen = Vec::new();
    while let Some(n) = o.current() {
        seen.push(n);
        assert_eq!(o.succeeded(), None);
        o.record(Status::Converged);
    }
    assert_eq!(seen, vec![0, 1, 2]);
    assert_eq!(o.succeeded(), Some(true));
    let mut top = Orchestrator::new(255, 255);
    assert_eq!(top.current(), Some(255));
    top.record(Status::Converged);
    assert_eq!(top.current(), None);
    assert_eq!(top.succeeded(), Some(true));
}

#[test]
fn orchestrator_aborts_on_exhaustion() {
    let mut o = Orchestrator::new(0, 2);
    assert_eq!(o.current(), Some(0));
    o.record(Status::Exhausted);
    assert_eq!(o.current(), None);
    assert_eq!(o.succeeded(), Some(false));
}

#[test]
fn wavefunction_file_preference() {
    assert_eq!(choose_wavefunction_file(true, true), Ok(InputFile::Complete));
    assert_eq!(choose_wavefunction_file(false, true), Ok(InputFile::Partial));
    assert_eq!(choose_wavefunction_file(false, false), Err(LoadError::NotFound));
}

#[test]
fn resolution_comparison() {
    assert_eq!(compare_resolution((4, 4, 4), (4, 4, 4)), Resolution::Same);
    assert_eq!(compare_resolution((2, 3, 3), (4, 4, 4)), Resolution::Lower);
    assert_eq!(compare_resolution((5, 6, 7), (4, 4, 4)), Resolution::Higher);
    assert_eq!(compare_resolution((4, 5, 3), (4, 4, 4)), Resolution::Mixed);
}

fn box_records(nx: usize, ny: usize, nz: usize) -> Vec<(usize, usize, usize)> {
    let mut v = Vec::new();
    for i in 0..nx {
        for j in 0..ny {
            for k in 0..nz {
                v.push((i, j, k));
            }
        }
    }
    v
}

#[test]
fn records_of_matching_grid_load() {
    let d = Dims::new(3, 2, 4).unwrap();
    let r = box_records(3, 2, 4);
    assert_eq!(max_indices(&r), (2, 1, 3));
    assert_eq!(check_records(&r, &d), Ok(d));
}

#[test]
fn lower_resolution_input_is_refused() {
    let d = Dims::new(16, 16, 16).unwrap();
    let r = box_records(8, 8, 8);
    assert_eq!(check_records(&r, &d), Err(LoadError::ResolutionMismatch(Resolution::Lower)));
    let e = load_failure(LoadError::ResolutionMismatch(Resolution::Lower));
    assert_eq!(e, RunError::ResolutionMismatch);
}

#[test]
fn higher_and_mixed_resolution_input_is_refused() {
    let d = Dims::new(2, 2, 2).unwrap();
    assert_eq!(
        check_records(&box_records(3, 3, 3), &d),
        Err(LoadError::ResolutionMismatch(Resolution::Higher))
    );
    assert_eq!(
        check_records(&box_records(2, 3, 2), &d),
        Err(LoadError::ResolutionMismatch(Resolution::Mixed))
    );
}

#[test]
fn incomplete_records_are_malformed() {
    let d = Dims::new(2, 2, 2).unwrap();
    let mut r = box_records(2, 2, 2);
    r.pop();
    assert_eq!(check_records(&r, &d), Err(LoadError::Malformed));
    assert_eq!(check_records(&Vec::new(), &d), Err(LoadError::Malformed));
    assert_eq!(check_records(&vec![(usize::MAX, 0, 0)], &d), Err(LoadError::Malformed));
    assert_eq!(load_failure(LoadError::Malformed), RunError::IoFailure);
    assert_eq!(load_failure(LoadError::NotFound), RunError::IoFailure);
}

#[test]
fn exit_status() {
    assert_eq!(exit_code(&Ok(())), 0);
    assert_ne!(exit_code(&Err(RunError::Exhausted)), 0);
    assert_ne!(exit_code(&Err(RunError::DegenerateNorm)), 0);
}
