use nalgebra::DMatrix;
use nalgebra::DVector;

use stiffness_solver::cg::cg_outcome;
use stiffness_solver::cg::CgControl;
use stiffness_solver::dispatch::direct_outcome;
use stiffness_solver::dispatch::spd_outcome;
use stiffness_solver::dispatch::DirectEvent;
use stiffness_solver::dispatch::SpdEvent;
use stiffness_solver::dispatch::SvdFailure;
use stiffness_solver::outcome::method_label;
use stiffness_solver::outcome::SolveError;
use stiffness_solver::outcome::SolveMethod;
use stiffness_solver::outcome::SolverResult;
use stiffness_solver::sparse::csr_structure_ok;
use stiffness_solver::sparse::densify_csr;
use stiffness_solver::sparse::filter_in_range;

/// Runs the direct path as the host boundary does: LU first, the SVD
/// pseudo-inverse as fallback on a singular factorization.
fn run_direct(k_flat: &[f64], f: &[f64], n: usize) -> SolverResult<f64> {
    let k_matrix = DMatrix::from_row_slice(n, n, k_flat);
    let f_vector = DVector::from_column_slice(f);
    let event = match k_matrix.clone().lu().solve(&f_vector) {
        Some(x) => DirectEvent::LuSolved { x: x.iter().copied().collect() },
        None => {
            let svd = k_matrix.clone().svd(true, true);
            match (svd.u, svd.v_t) {
                (None, _) => DirectEvent::LuSingularSvdFailed { failure: SvdFailure::MissingU },
                (_, None) => DirectEvent::LuSingularSvdFailed { failure: SvdFailure::MissingVt },
                (Some(u), Some(v_t)) => {
                    let ut_b = u.transpose() * &f_vector;
                    let sv = svd.singular_values;
                    let mut s_inv_ut_b = DVector::zeros(sv.len());
                    let threshold = sv[0] * 1e-10;
                    for i in 0..sv.len() {
                        if sv[i] > threshold {
                            s_inv_ut_b[i] = ut_b[i] / sv[i];
                        }
                    }
                    let x = v_t.transpose() * s_inv_ut_b;
                    DirectEvent::LuSingularSvdSolved { x: x.iter().copied().collect() }
                }
            }
        }
    };
    direct_outcome(event, None)
}

#[test]
fn test_simple_solve() {
    // 2x2 system: [2 1; 1 3] * x = [4; 5]
    // Solution: x = [1; 1]
    let k: Vec<f64> = vec![2.0, 1.0, 1.0, 3.0];
    let f: Vec<f64> = vec![4.0, 5.0];

    let k_matrix = DMatrix::from_row_slice(2, 2, &k);
    let f_vector = DVector::from_column_slice(&f);

    let x = k_matrix.lu().solve(&f_vector).unwrap();

    assert!((x[0] - 1.4).abs() < 1e-10);
    assert!((x[1] - 1.2).abs() < 1e-10);
}

#[test]
fn test_cholesky() {
    // Symmetric positive-definite matrix
    let k: Vec<f64> = vec![4.0, 2.0, 2.0, 5.0];
    let f: Vec<f64> = vec![6.0, 7.0];

    let k_matrix = DMatrix::from_row_slice(2, 2, &k);
    let f_vector = DVector::from_column_slice(&f);

    let chol = k_matrix.cholesky().unwrap();
    let x = chol.solve(&f_vector);

    // Verify solution
    let f_check = DMatrix::from_row_slice(2, 2, &k) * &x;
    assert!((f_check[0] - 6.0).abs() < 1e-10);
    assert!((f_check[1] - 7.0).abs() < 1e-10);
}

#[test]
fn dense_solve_scenario() {
    let out = run_direct(&[2.0, 1.0, 1.0, 3.0], &[4.0, 5.0], 2);
    assert!(out.success);
    assert_eq!(method_label(&out.method), "LU Decomposition");
    assert!((out.displacements[0] - 1.4).abs() < 1e-8);
    assert!((out.displacements[1] - 1.2).abs() < 1e-8);
}

#[test]
fn spd_solve_scenario() {
    let k: [f64; 4] = [4.0, 2.0, 2.0, 5.0];
    let f: [f64; 2] = [6.0, 7.0];
    let k_matrix = DMatrix::from_row_slice(2, 2, &k);
    let f_vector = DVector::from_column_slice(&f);
    let out = match k_matrix.clone().cholesky() {
        Some(chol) => {
            let x = chol.solve(&f_vector);
            spd_outcome(SpdEvent::CholeskySolved { x: x.iter().copied().collect() })
        }
        None => panic!("matrix is positive-definite"),
    };
    assert!(out.success);
    assert_eq!(method_label(&out.method), "Cholesky Decomposition");
    let x = DVector::from_column_slice(&out.displacements);
    let f_check = k_matrix * x;
    assert!((f_check[0] - 6.0).abs() < 1e-10);
    assert!((f_check[1] - 7.0).abs() < 1e-10);
}

#[test]
fn conjugate_gradient_scenario() {
    let k_matrix = DMatrix::from_row_slice(2, 2, &[4.0, 2.0, 2.0, 5.0]);
    let b = DVector::from_column_slice(&[6.0, 7.0]);
    let tolerance: f64 = 1e-8;

    let mut x = DVector::zeros(2);
    let mut r = &b - &k_matrix * &x;
    let mut p = r.clone();
    let mut rs_old = r.dot(&r);
    let mut control = CgControl::new(100);
    while !control.finished {
        let ap = &k_matrix * &p;
        let alpha = rs_old / p.dot(&ap);
        x += alpha * &p;
        r -= alpha * &ap;
        let rs_new: f64 = r.dot(&r);
        control.record_iteration(rs_new.sqrt() < tolerance);
        if !control.finished {
            let beta = rs_new / rs_old;
            p = &r + beta * &p;
            rs_old = rs_new;
        }
    }
    let out = cg_outcome(x.iter().copied().collect(), &control);

    assert!(out.success);
    assert!(matches!(
        out.method,
        SolveMethod::ConjugateGradient { iterations } if iterations <= 2
    ));

    // Must match the direct solution within 1e-6.
    let direct = run_direct(&[4.0, 2.0, 2.0, 5.0], &[6.0, 7.0], 2);
    assert!(direct.success);
    for i in 0..2 {
        assert!((out.displacements[i] - direct.displacements[i]).abs() < 1e-6);
    }
}

#[test]
fn dense_and_spd_agree_on_well_conditioned_system() {
    let k: [f64; 4] = [4.0, 2.0, 2.0, 5.0];
    let f: [f64; 2] = [6.0, 7.0];
    let dense = run_direct(&k, &f, 2);
    assert!(dense.success);
    let k_matrix = DMatrix::from_row_slice(2, 2, &k);
    let f_vector = DVector::from_column_slice(&f);
    let chol = k_matrix.cholesky().expect("SPD matrix");
    let spd = spd_outcome(SpdEvent::CholeskySolved {
        x: chol.solve(&f_vector).iter().copied().collect(),
    });
    assert!(spd.success);
    for i in 0..2 {
        assert!((dense.displacements[i] - spd.displacements[i]).abs() < 1e-8);
    }
}

#[test]
fn successful_solve_round_trips_to_the_force_vector() {
    let k: [f64; 4] = [2.0, 1.0, 1.0, 3.0];
    let f: [f64; 2] = [4.0, 5.0];
    let out = run_direct(&k, &f, 2);
    assert!(out.success);
    let k_matrix = DMatrix::from_row_slice(2, 2, &k);
    let x = DVector::from_column_slice(&out.displacements);
    let f_check = k_matrix * x;
    for i in 0..2 {
        assert!((f_check[i] - f[i]).abs() < 1e-6);
    }
}

#[test]
fn zero_row_matrix_never_succeeds_via_lu_alone() {
    // A singular matrix: its second row is all zero.
    let out = run_direct(&[1.0, 1.0, 0.0, 0.0], &[1.0, 0.0], 2);
    assert_ne!(out.method, SolveMethod::LuDecomposition);
    if out.success {
        assert_eq!(out.method, SolveMethod::SvdPseudoInverse);
        assert_eq!(out.error, Some(SolveError::SingularMatrixAdvisory));
    } else {
        assert!(out.error.is_some());
        assert!(out.displacements.is_empty());
    }
}

#[test]
fn sparse_pipeline_densifies_through_csr() {
    // COO entries, one out of range, two additive duplicates.
    let rows = vec![0usize, 0, 1, 5];
    let cols = vec![0usize, 0, 1, 0];
    let values = vec![1.5f64, 2.5, 3.0, 9.0];
    let n = 2usize;

    let kept = filter_in_range(&rows, &cols, n);
    assert_eq!(kept, vec![0usize, 1, 2]);

    let mut coo = nalgebra_sparse::CooMatrix::new(n, n);
    for &i in &kept {
        coo.push(rows[i], cols[i], values[i]);
    }
    let csr = nalgebra_sparse::CsrMatrix::from(&coo);
    let row_ptr: Vec<usize> = csr.row_offsets().to_vec();
    let csr_cols: Vec<usize> = csr.col_indices().to_vec();
    let csr_vals: Vec<f64> = csr.values().to_vec();
    assert!(csr_structure_ok(&row_ptr, &csr_cols, n));
    let dense = densify_csr(&row_ptr, &csr_cols, &csr_vals, 0.0f64, n);
    assert_eq!(dense, vec![4.0, 0.0, 0.0, 3.0]);
}
