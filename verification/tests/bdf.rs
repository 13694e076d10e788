use diffsol::callable::ode::BdfCallable;
use diffsol::errors::PSError;
use diffsol::linear_solver::{LinearSolveError, LinearSolver};
use diffsol::matrix::DenseMatrix;
use diffsol::nonlinear_solver::newton::NewtonNonlinearSolver;
use diffsol::ode_solver::bdf::{pick_order, safety, too_small, Bdf, NEWTON_MAXITER};
use diffsol::ode_solver::coefficients::{Coefficients, MAX_ORDER};
use diffsol::ode_solver::differences::{compute_r, predict, rescale_differences, update_differences};
use diffsol::ode_solver::test_models::exponential_decay::ExponentialDecay;
use diffsol::ode_solver::test_models::exponential_decay::exponential_decay_problem;
use diffsol::ode_solver::test_models::exponential_decay_with_algebraic::exponential_decay_with_algebraic_problem;
use diffsol::ode_solver::test_models::robertson::robertson;
use diffsol::ode_solver::test_models::robertson_ode::robertson_ode;
use diffsol::ode_solver::{OdeSolverProblem, OdeSolverSolution, OdeSolverState};
use diffsol::op::sdirk::SdirkCallable;
use diffsol::op::{NonLinearOp, OdeEquations};
use diffsol::scalar::Scalar;

#[derive(Clone, Copy, Debug, PartialEq)]
struct F(f64);

impl Scalar for F {
    fn zero_spec() -> Self { F(0.0) }
    fn one_spec() -> Self { F(1.0) }
    fn ratio_spec(num: i64, den: u64) -> Self { F(num as f64 / den as f64) }
    fn epsilon_spec() -> Self { F(f64::EPSILON) }
    fn add_spec(self, rhs: Self) -> Self { F(self.0 + rhs.0) }
    fn sub_spec(self, rhs: Self) -> Self { F(self.0 - rhs.0) }
    fn mul_spec(self, rhs: Self) -> Self { F(self.0 * rhs.0) }
    fn div_spec(self, rhs: Self) -> Self { F(self.0 / rhs.0) }
    fn neg_spec(self) -> Self { F(-self.0) }
    fn abs_spec(self) -> Self { F(self.0.abs()) }
    fn sqrt_spec(self) -> Self { F(self.0.sqrt()) }
    fn pow_spec(self, exp: Self) -> Self { F(self.0.powf(exp.0)) }
    fn exp_spec(self) -> Self { F(self.0.exp()) }
    fn le_spec(self, rhs: Self) -> bool { self.0 <= rhs.0 }
    fn lt_spec(self, rhs: Self) -> bool { self.0 < rhs.0 }
    fn finite_spec(self) -> bool { self.0.is_finite() }
    fn zero() -> Self { F(0.0) }
    fn one() -> Self { F(1.0) }
    fn ratio(num: i64, den: u64) -> Self { F(num as f64 / den as f64) }
    fn epsilon() -> Self { F(f64::EPSILON) }
    fn add(self, rhs: Self) -> Self { F(self.0 + rhs.0) }
    fn sub(self, rhs: Self) -> Self { F(self.0 - rhs.0) }
    fn mul(self, rhs: Self) -> Self { F(self.0 * rhs.0) }
    fn div(self, rhs: Self) -> Self { F(self.0 / rhs.0) }
    fn neg(self) -> Self { F(-self.0) }
    fn abs(self) -> Self { F(self.0.abs()) }
    fn sqrt(self) -> Self { F(self.0.sqrt()) }
    fn pow(self, exp: Self) -> Self { F(self.0.powf(exp.0)) }
    fn exp(self) -> Self { F(self.0.exp()) }
    fn le(self, rhs: Self) -> bool { self.0 <= rhs.0 }
    fn lt(self, rhs: Self) -> bool { self.0 < rhs.0 }
    fn finite(self) -> bool { self.0.is_finite() }
}

/// LU factorisation by nalgebra behind the library's linear solver surface.
struct Lu {
    lu: Option<nalgebra::linalg::LU<f64, nalgebra::Dyn, nalgebra::Dyn>>,
    n: usize,
    /// How many of the next solves fail on purpose.
    fail_next: std::cell::Cell<usize>,
}

impl Lu {
    fn new() -> Self { Lu { lu: None, n: 0, fail_next: std::cell::Cell::new(0) } }
}

impl LinearSolver<F> for Lu {
    fn is_set(&self) -> bool { self.lu.is_some() }
    fn order(&self) -> usize { self.n }
    fn has_problem(&self) -> bool { self.lu.is_some() }
    fn set_problem(&mut self, a: DenseMatrix<F>) {
        let m = nalgebra::DMatrix::from_fn(a.nrows, a.ncols, |i, j| a.data[j * a.nrows + i].0);
        self.n = a.nrows;
        self.lu = Some(m.lu());
    }
    fn clear_problem(&mut self) { self.lu = None; }
    fn solve_in_place(&self, b: &mut Vec<F>) -> Result<(), LinearSolveError> {
        match &self.lu {
            None => Err(LinearSolveError::NotInitialized),
            Some(lu) => {
                if self.fail_next.get() > 0 {
                    self.fail_next.set(self.fail_next.get() - 1);
                    return Err(LinearSolveError::Singular);
                }
                let mut v = nalgebra::DVector::from_fn(b.len(), |i, _| b[i].0);
                if lu.solve_mut(&mut v) {
                    for i in 0..b.len() { b[i] = F(v[i]); }
                    Ok(())
                } else {
                    Err(LinearSolveError::Singular)
                }
            }
        }
    }
}

fn fv(v: &[f64]) -> Vec<F> { v.iter().map(|x| F(*x)).collect() }

fn assert_close(a: &[F], b: &[f64], tol: f64) {
    assert_eq!(a.len(), b.len());
    for i in 0..a.len() {
        assert!((a[i].0 - b[i]).abs() <= tol, "entry {}: {} against {}", i, a[i].0, b[i]);
    }
}

/// Steps to each solution point, interpolates there and holds the result
/// against the point within ten times the problem's tolerance.
fn test_ode_solver<E: OdeEquations<F>>(
    method: &mut Bdf<F, E, Lu>,
    problem: OdeSolverProblem<F, E>,
    solution: OdeSolverSolution<F>,
) {
    let state = OdeSolverState::new(&problem);
    let rtol = problem.rtol.0;
    let atol: Vec<f64> = problem.atol.iter().map(|a| a.0).collect();
    method.set_problem(state, problem);
    for point in solution.solution_points.iter() {
        while method.state().unwrap().t.0 < point.t.0 {
            assert!(method.step().is_ok());
        }
        let soln = method.interpolate(point.t).ok().unwrap();
        assert_eq!(soln.len(), point.state.len());
        for i in 0..soln.len() {
            let tol = (point.state[i].0.abs() * rtol + atol[i]) * 10.0;
            assert!(
                (soln[i].0 - point.state[i].0).abs() <= tol,
                "t = {}, state {}: {} against {}",
                point.t.0, i, soln[i].0, point.state[i].0
            );
        }
    }
}

fn new_bdf<E: OdeEquations<F>>() -> Bdf<F, E, Lu> {
    Bdf::new(NewtonNonlinearSolver::new(Lu::new()))
}

#[test]
fn test_bdf_nalgebra_exponential_decay() {
    let mut s = new_bdf();
    let (problem, soln) = exponential_decay_problem::<F>();
    test_ode_solver(&mut s, problem, soln);
    let st = s.get_statistics();
    println!("{:?} {} {}", st.counters, st.initial_step_size.0, st.final_step_size.0);
    assert!(st.counters.number_of_error_test_failures <= 10);
    assert!(st.initial_step_size.0.is_finite() && st.initial_step_size.0 != 0.0);
}

#[test]
fn test_bdf_nalgebra_exponential_decay_algebraic() {
    let mut s = new_bdf();
    let (problem, soln) = exponential_decay_with_algebraic_problem::<F>();
    test_ode_solver(&mut s, problem, soln);
    let st = s.get_statistics();
    println!("{:?} {} {}", st.counters, st.initial_step_size.0, st.final_step_size.0);
    assert!(st.counters.number_of_steps > 0);
    assert!(st.initial_step_size.0.is_finite() && st.initial_step_size.0 != 0.0);
}

#[test]
fn test_bdf_nalgebra_robertson() {
    let mut s = new_bdf();
    let (problem, soln) = robertson::<F>();
    test_ode_solver(&mut s, problem, soln);
    let st = s.get_statistics();
    println!("{:?} {} {}", st.counters, st.initial_step_size.0, st.final_step_size.0);
    assert!(st.counters.number_of_steps > 0);
    assert!(st.final_step_size.0.is_finite() && st.final_step_size.0 > 0.0);
}

#[test]
fn test_bdf_nalgebra_robertson_ode() {
    let mut s = new_bdf();
    let (problem, soln) = robertson_ode::<F>();
    test_ode_solver(&mut s, problem, soln);
    let st = s.get_statistics();
    println!("{:?} {} {}", st.counters, st.initial_step_size.0, st.final_step_size.0);
    assert!(st.counters.number_of_steps > 0);
    assert!(st.final_step_size.0.is_finite() && st.final_step_size.0 > 0.0);
}

#[test]
fn test_sdirk_callable() {
    let (problem, _soln) = exponential_decay_problem::<F>();
    let mut sdirk_callable = SdirkCallable::new(&problem);
    let c = 0.1;
    let phi = fv(&[1.1, 1.2]);
    sdirk_callable.set_c(F(c), F(1.0));
    sdirk_callable.set_phi(phi);
    let y = fv(&[1.0, 1.0]);
    let t = F(0.0);
    let mut y_out = fv(&[0.0, 0.0]);

    // F(y) = M y - f(phi + c y), with M the unit matrix and f(y) = -0.1 y:
    // f(phi + c y) = -0.1 (1.1 + 0.1) = -0.12 and -0.1 (1.2 + 0.1) = -0.13
    sdirk_callable.call_inplace(&y, t, &mut y_out);
    assert_close(&y_out, &[1.12, 1.13], 1e-10);

    let v = fv(&[1.0, 1.0]);
    // M v - c f'(y) v = 1 - 0.1 * (-0.1) = 1.01
    sdirk_callable.jac_mul_inplace(&y, t, &v, &mut y_out);
    assert_close(&y_out, &[1.01, 1.01], 1e-10);

    // J = M - c f'(y)
    let jac = sdirk_callable.jacobian(&y, t);
    assert_eq!(jac.get(0, 0).0, 1.01);
    assert_eq!(jac.get(0, 1).0, 0.0);
    assert_eq!(jac.get(1, 0).0, 0.0);
    assert_eq!(jac.get(1, 1).0, 1.01);
    assert_eq!(sdirk_callable.number_of_jac_evals(), 1);
}

#[test]
fn no_set_problem_is_an_error() {
    let mut s: Bdf<F, diffsol::ode_solver::test_models::exponential_decay::ExponentialDecay<F>, Lu> = new_bdf();
    assert!(s.state().is_none());
    assert!(s.problem().is_none());
    assert!(s.take_state().is_none());
    assert!(matches!(s.step(), Err(PSError::StateNotSet)));
    assert!(matches!(s.interpolate(F(1.0)), Err(PSError::StateNotSet)));
}

/// `y' = c0 + c1 t + c2 t^2 + c3 t^3 + c4 t^4` for one state; `jac_calls`
/// counts how often the derivative is asked for.
struct Polynomial {
    c: [f64; 5],
    jac_calls: std::cell::Cell<usize>,
}

impl Polynomial {
    fn new(c: [f64; 5]) -> Self { Polynomial { c, jac_calls: std::cell::Cell::new(0) } }
    fn derivative(&self, t: f64) -> f64 {
        (((self.c[4] * t + self.c[3]) * t + self.c[2]) * t + self.c[1]) * t + self.c[0]
    }
    fn primitive(&self, t: f64) -> f64 {
        ((((self.c[4] / 5.0 * t + self.c[3] / 4.0) * t + self.c[2] / 3.0) * t + self.c[1] / 2.0) * t + self.c[0]) * t
    }
}

impl OdeEquations<F> for Polynomial {
    fn nstates_spec(&self) -> usize { 1 }
    fn rhs_spec(&self, _t: F, _y: vstd::seq::Seq<F>) -> vstd::seq::Seq<F> { unreachable!() }
    fn jac_mul_spec(&self, _t: F, _y: vstd::seq::Seq<F>, _v: vstd::seq::Seq<F>) -> vstd::seq::Seq<F> { unreachable!() }
    fn mass_spec(&self, _t: F, _v: vstd::seq::Seq<F>) -> vstd::seq::Seq<F> { unreachable!() }
    fn init_spec(&self, _t: F) -> vstd::seq::Seq<F> { unreachable!() }
    fn mass_is_constant_spec(&self) -> bool { true }
    fn nstates(&self) -> usize { 1 }
    fn rhs(&self, t: F, _y: &Vec<F>) -> Vec<F> { vec![F(self.derivative(t.0))] }
    fn jac_mul(&self, _t: F, _y: &Vec<F>, _v: &Vec<F>) -> Vec<F> {
        self.jac_calls.set(self.jac_calls.get() + 1);
        vec![F(0.0)]
    }
    fn mass(&self, _t: F, v: &Vec<F>) -> Vec<F> { v.clone() }
    fn init(&self, t: F) -> Vec<F> { vec![F(self.primitive(t.0))] }
    fn mass_is_constant(&self) -> bool { true }
}

/// The stiff oscillator `y0' = y1`, `y1' = mu (1 - y0^2) y1 - y0`.
struct VanDerPol {
    mu: f64,
}

impl OdeEquations<F> for VanDerPol {
    fn nstates_spec(&self) -> usize { 2 }
    fn rhs_spec(&self, _t: F, _y: vstd::seq::Seq<F>) -> vstd::seq::Seq<F> { unreachable!() }
    fn jac_mul_spec(&self, _t: F, _y: vstd::seq::Seq<F>, _v: vstd::seq::Seq<F>) -> vstd::seq::Seq<F> { unreachable!() }
    fn mass_spec(&self, _t: F, _v: vstd::seq::Seq<F>) -> vstd::seq::Seq<F> { unreachable!() }
    fn init_spec(&self, _t: F) -> vstd::seq::Seq<F> { unreachable!() }
    fn mass_is_constant_spec(&self) -> bool { true }
    fn nstates(&self) -> usize { 2 }
    fn rhs(&self, _t: F, y: &Vec<F>) -> Vec<F> {
        vec![y[1], F(self.mu * (1.0 - y[0].0 * y[0].0) * y[1].0 - y[0].0)]
    }
    fn jac_mul(&self, _t: F, y: &Vec<F>, v: &Vec<F>) -> Vec<F> {
        vec![
            v[1],
            F((-2.0 * self.mu * y[0].0 * y[1].0 - 1.0) * v[0].0 + self.mu * (1.0 - y[0].0 * y[0].0) * v[1].0),
        ]
    }
    fn mass(&self, _t: F, v: &Vec<F>) -> Vec<F> { v.clone() }
    fn init(&self, _t: F) -> Vec<F> { fv(&[2.0, 0.0]) }
    fn mass_is_constant(&self) -> bool { true }
}

/// A right-hand side that is never a number.
struct Broken;

impl OdeEquations<F> for Broken {
    fn nstates_spec(&self) -> usize { 1 }
    fn rhs_spec(&self, _t: F, _y: vstd::seq::Seq<F>) -> vstd::seq::Seq<F> { unreachable!() }
    fn jac_mul_spec(&self, _t: F, _y: vstd::seq::Seq<F>, _v: vstd::seq::Seq<F>) -> vstd::seq::Seq<F> { unreachable!() }
    fn mass_spec(&self, _t: F, _v: vstd::seq::Seq<F>) -> vstd::seq::Seq<F> { unreachable!() }
    fn init_spec(&self, _t: F) -> vstd::seq::Seq<F> { unreachable!() }
    fn mass_is_constant_spec(&self) -> bool { true }
    fn nstates(&self) -> usize { 1 }
    fn rhs(&self, _t: F, _y: &Vec<F>) -> Vec<F> { vec![F(f64::NAN)] }
    fn jac_mul(&self, _t: F, _y: &Vec<F>, _v: &Vec<F>) -> Vec<F> { vec![F(0.0)] }
    fn mass(&self, _t: F, v: &Vec<F>) -> Vec<F> { v.clone() }
    fn init(&self, _t: F) -> Vec<F> { vec![F(1.0)] }
    fn mass_is_constant(&self) -> bool { true }
}

fn problem_of<E: OdeEquations<F>>(eqn: E, rtol: f64, atol: f64, h0: f64) -> OdeSolverProblem<F, E> {
    OdeSolverProblem::new(std::rc::Rc::new(eqn), F(rtol), vec![F(atol)], F(0.0), F(h0)).ok().unwrap()
}

fn table(nrows: usize, columns: &[&[f64]]) -> DenseMatrix<F> {
    let mut m = DenseMatrix::<F>::zeros(nrows, columns.len());
    for (j, c) in columns.iter().enumerate() {
        m.set_column(j, &fv(c));
    }
    m
}

fn entries(m: &DenseMatrix<F>) -> Vec<Vec<f64>> {
    (0..m.nrows).map(|i| (0..m.ncols).map(|j| m.get(i, j).0).collect()).collect()
}

fn product(a: &DenseMatrix<F>, b: &DenseMatrix<F>) -> Vec<Vec<f64>> {
    entries(&a.mat_mul(b))
}

fn assert_identity(m: &[Vec<f64>], tol: f64) {
    for i in 0..m.len() {
        for j in 0..m.len() {
            let want = if i == j { 1.0 } else { 0.0 };
            assert!((m[i][j] - want).abs() <= tol, "({}, {}) is {}", i, j, m[i][j]);
        }
    }
}

#[test]
fn coefficients_follow_their_formulas() {
    let c = Coefficients::<F>::new();
    assert_eq!(c.gamma.len(), MAX_ORDER + 1);
    assert_eq!(c.gamma[0], F(0.0));
    assert_eq!(c.gamma[1], F(1.0));
    assert_eq!(c.gamma[2], F(1.5));
    assert_eq!(c.gamma[3], F(1.5 + 1.0 / 3.0));
    assert_eq!(c.gamma[5], F(1.5 + 1.0 / 3.0 + 0.25 + 0.2));
    assert_eq!(c.alpha[0], F(0.0));
    assert_eq!(c.alpha[1], F(1.0 / ((1.0 - -0.185) * 1.0)));
    assert_eq!(c.alpha[2], F(1.0 / ((1.0 - -1.0 / 9.0) * 1.5)));
    assert_eq!(c.alpha[5], F(1.0 / ((1.0 - 0.0) * c.gamma[5].0)));
    assert_eq!(c.error_const[0], F(0.0));
    assert_eq!(c.error_const[1], F(-0.185 * 1.0 + 0.5));
    assert_eq!(c.error_const[3], F(-0.0823 * c.gamma[3].0 + 0.25));
    assert_eq!(c.error_const[4], F(-0.0415 * c.gamma[4].0 + 0.2));
    assert_eq!(c.error_const[5], F(0.0 * c.gamma[5].0 + 1.0 / 6.0));
}

#[test]
fn r_matrix_follows_its_recurrence() {
    let r = compute_r(2, F(0.5));
    assert_eq!(entries(&r), vec![
        vec![1.0, 1.0, 1.0],
        vec![0.0, -0.5, -1.0],
        vec![0.0, -0.125, -0.0],
    ]);
    let u = compute_r(3, F(1.0));
    assert_eq!(entries(&u), vec![
        vec![1.0, 1.0, 1.0, 1.0],
        vec![0.0, -1.0, -2.0, -3.0],
        vec![0.0, -0.0, 1.0, 3.0],
        vec![0.0, -0.0, 0.0, -1.0],
    ]);
}

#[test]
fn u_is_its_own_inverse_and_rescaling_can_be_undone() {
    for k in 1..=MAX_ORDER {
        let u = compute_r(k, F(1.0));
        assert_identity(&product(&u, &u), 0.0);
        for r in [0.2, 0.3, 0.5, 2.0, 10.0] {
            let there = compute_r(k, F(r)).mat_mul(&u);
            let back = compute_r(k, F(1.0 / r)).mat_mul(&u);
            assert_identity(&product(&there, &back), 1e-9);
        }
    }
    // without U between them the two matrices do not undo each other
    let p = product(&compute_r(1, F(2.0)), &compute_r(1, F(0.5)));
    assert_eq!(p, vec![vec![1.0, 0.5], vec![0.0, 1.0]]);
}

#[test]
fn change_of_step_and_back_restores_the_differences() {
    let u = compute_r(MAX_ORDER, F(1.0));
    for order in 1..=MAX_ORDER {
        let columns: Vec<Vec<f64>> = (0..MAX_ORDER + 3)
            .map(|j| vec![1.0 / (1.0 + j as f64), -0.5 + 0.25 * j as f64])
            .collect();
        let refs: Vec<&[f64]> = columns.iter().map(|c| c.as_slice()).collect();
        let mut d = table(2, &refs);
        let before = entries(&d);
        rescale_differences(&mut d, &u, order, F(0.3));
        let between = entries(&d);
        // the solution itself stays and the differences above the order too
        for i in 0..2 {
            assert!((between[i][0] - before[i][0]).abs() <= 1e-15);
            for j in order + 1..MAX_ORDER + 3 {
                assert_eq!(between[i][j], before[i][j]);
            }
        }
        rescale_differences(&mut d, &u, order, F(1.0 / 0.3));
        let after = entries(&d);
        for i in 0..2 {
            for j in 0..MAX_ORDER + 3 {
                assert!((after[i][j] - before[i][j]).abs() <= 1e-9, "order {} ({}, {})", order, i, j);
            }
        }
    }
}

#[test]
fn change_of_step_scales_the_differences() {
    let u = compute_r(MAX_ORDER, F(1.0));
    let mut d = table(1, &[&[1.0], &[0.5], &[0.25], &[0.0], &[0.0], &[0.0], &[0.0], &[0.0]]);
    rescale_differences(&mut d, &u, 1, F(0.5));
    assert_eq!(entries(&d)[0], vec![1.0, 0.25, 0.25, 0.0, 0.0, 0.0, 0.0, 0.0]);
    // at order two: D1' = r D1 + r (1 - r) / 2 D2 and D2' = r^2 D2
    let mut d = table(1, &[&[1.0], &[0.5], &[0.25], &[0.0], &[0.0], &[0.0], &[0.0], &[0.0]]);
    rescale_differences(&mut d, &u, 2, F(0.5));
    assert_close(&d.column(0), &[1.0], 1e-15);
    assert_close(&d.column(1), &[0.5 * 0.5 + 0.125 * 0.25], 1e-15);
    assert_close(&d.column(2), &[0.0625], 1e-15);
}

#[test]
fn accepted_correction_goes_into_every_difference() {
    let mut d = table(2, &[&[1.0, 10.0], &[2.0, 20.0], &[4.0, 40.0], &[8.0, 80.0], &[16.0, 160.0]]);
    update_differences(&mut d, &fv(&[0.5, 5.0]), 2);
    assert_eq!(d.column(4), fv(&[0.5 - 8.0, 5.0 - 80.0]));
    assert_eq!(d.column(3), fv(&[0.5, 5.0]));
    assert_eq!(d.column(2), fv(&[4.5, 45.0]));
    assert_eq!(d.column(1), fv(&[6.5, 65.0]));
    assert_eq!(d.column(0), fv(&[7.5, 75.0]));
    let same = table(2, &[&[1.0, 10.0], &[2.0, 20.0], &[4.0, 40.0], &[8.0, 80.0], &[16.0, 160.0]]);
    assert_eq!(predict(&same, 2), fv(&[7.0, 70.0]));
    assert_eq!(predict(&same, 0), fv(&[1.0, 10.0]));
}

#[test]
fn controller_picks_the_largest_factor() {
    assert_eq!(pick_order(3, F(1.0), F(2.0), F(3.0)), (4, F(3.0)));
    assert_eq!(pick_order(3, F(3.0), F(2.0), F(1.0)), (2, F(3.0)));
    assert_eq!(pick_order(3, F(1.0), F(3.0), F(2.0)), (3, F(3.0)));
    // of equal factors the higher order wins
    assert_eq!(pick_order(3, F(2.0), F(2.0), F(2.0)), (4, F(2.0)));
    assert_eq!(pick_order(3, F(2.0), F(2.0), F(1.0)), (3, F(2.0)));
    // the orders 0 and 6 do not compete
    assert_eq!(pick_order(1, F(9.0), F(2.0), F(1.0)), (1, F(2.0)));
    assert_eq!(pick_order(5, F(1.0), F(2.0), F(9.0)), (5, F(2.0)));
}

#[test]
fn safety_shrinks_with_the_corrections_used() {
    assert_eq!(NEWTON_MAXITER, 4);
    assert_eq!(safety::<F>(1), F(0.9 * 9.0 / 9.0));
    assert_eq!(safety::<F>(4), F(0.9 * 9.0 / 12.0));
    assert!(too_small(F(0.0), F(0.0)));
    assert!(!too_small(F(1e-300), F(0.0)));
    assert!(too_small(F(1e-17), F(1.0)));
    assert!(!too_small(F(1e-15), F(1.0)));
}

#[test]
fn set_problem_starts_at_order_one() {
    let mut s = new_bdf();
    let (problem, _) = exponential_decay_problem::<F>();
    let state = OdeSolverState::new(&problem);
    s.set_problem(state, problem);
    assert_eq!(s.order(), Some(1));
    let core = s.core.as_ref().unwrap();
    assert_eq!(core.n_equal_steps, 0);
    assert_eq!(core.diff.column(0), fv(&[1.0, 1.0]));
    // h f(t + h, y + h f(t, y)) with h = 1: -0.1 * 0.9
    assert_close(&core.diff.column(1), &[-0.09, -0.09], 1e-15);
    // d2 = |f1 - f0| / (rtol |y| + atol) = 0.01 / 2e-6, and h = d2^(-1/2)
    let d2: f64 = (-0.1 * 0.9 - -0.1) / (1.0 * 1e-6 + 1e-6);
    assert!((core.state.h.0 - d2.powf(-0.5)).abs() <= 1e-12);
    assert_eq!(s.get_statistics().initial_step_size, core.state.h);
    assert!(core.op.rhs_jacobian_is_stale && core.op.jacobian_is_stale && core.op.mass_jacobian_is_stale);
    assert_eq!(core.op.c, F(core.state.h.0 * core.coefficients.alpha[1].0));
    assert_eq!(s.nonlinear_solver.max_iter(), NEWTON_MAXITER);
    assert_eq!(s.problem().unwrap().rtol, F(1e-6));
}

#[test]
fn first_step_is_capped_at_a_hundred_times_the_given_one() {
    let mut s = new_bdf();
    // a constant derivative: d2 is zero and its negative power is infinite
    let problem = problem_of(Polynomial::new([1.0, 0.0, 0.0, 0.0, 0.0]), 1e-6, 1e-6, 0.5);
    let state = OdeSolverState::new(&problem);
    s.set_problem(state, problem);
    assert_eq!(s.state().unwrap().h, F(50.0));
}

#[test]
fn interpolation_stays_inside_the_current_step() {
    let mut s = new_bdf();
    let problem = problem_of(Polynomial::new([0.0; 5]), 1e-6, 1e-6, 1.0);
    let state = OdeSolverState::new(&problem);
    let y0 = state.y.clone();
    s.set_problem(state, problem);
    assert_close(&s.interpolate(F(0.0)).ok().unwrap(), &[y0[0].0], 1e-9);
    assert!(matches!(s.interpolate(F(1.0)), Err(PSError::InterpolationBeforeCurrentTime)));
    assert!(s.step().is_ok());
    let (t, h) = (s.state().unwrap().t.0, s.state().unwrap().h.0);
    assert!(s.interpolate(F(t)).is_ok());
    assert!(matches!(s.interpolate(F(t + 1.0)), Err(PSError::InterpolationBeforeCurrentTime)));
    assert!(matches!(s.interpolate(F(t - 2.0 * h)), Err(PSError::InterpolationOutsideCurrentStep)));
    assert!(s.interpolate(F(t - h)).is_ok());
}

#[test]
fn take_state_leaves_the_stepper_without_one() {
    let mut s = new_bdf();
    let problem = problem_of(Polynomial::new([0.0; 5]), 1e-6, 1e-6, 1.0);
    let state = OdeSolverState::new(&problem);
    let y = state.y.clone();
    s.set_problem(state, problem);
    let state2 = s.take_state().unwrap();
    assert_close(&state2.y, &[y[0].0], 1e-9);
    assert!(s.take_state().is_none());
    assert!(s.state().is_none());
    assert!(matches!(s.step(), Err(PSError::StateNotSet)));
    assert!(matches!(s.interpolate(F(1.0)), Err(PSError::StateNotSet)));
}

#[test]
fn interpolation_is_exact_on_polynomials() {
    // p(t) = 1 + 2 t - t^2 + 0.5 t^3 sampled backwards from t = 2 with h = 0.25
    let p = |t: f64| 1.0 + 2.0 * t - t * t + 0.5 * t * t * t;
    let (t, h) = (2.0, 0.25);
    let mut s = new_bdf();
    let problem = problem_of(Polynomial::new([0.0; 5]), 1e-6, 1e-6, 1.0);
    let state = OdeSolverState::new(&problem);
    s.set_problem(state, problem);
    let core = s.core.as_mut().unwrap();
    // backward differences of the samples p(t), p(t - h), ...
    let mut samples: Vec<f64> = (0..4).map(|j| p(t - h * j as f64)).collect();
    for j in 0..4 {
        core.diff.set_column(j, &fv(&[samples[0]]));
        samples = (0..samples.len() - 1).map(|m| samples[m] - samples[m + 1]).collect();
    }
    core.order = 3;
    core.state.t = F(t);
    core.state.h = F(h);
    for t_star in [2.0, 1.9, 1.8125, 1.75] {
        let y = s.interpolate(F(t_star)).ok().unwrap();
        assert!((y[0].0 - p(t_star)).abs() <= 1e-13, "at {}: {} against {}", t_star, y[0].0, p(t_star));
    }
}

#[test]
fn interpolation_at_the_current_time_is_the_solution() {
    let mut s = new_bdf();
    let (problem, _) = robertson_ode::<F>();
    let state = OdeSolverState::new(&problem);
    s.set_problem(state, problem);
    for _ in 0..50 {
        assert!(s.step().is_ok());
        let state = s.state().unwrap();
        let y: Vec<f64> = state.y.iter().map(|v| v.0).collect();
        let at_t = s.interpolate(state.t).ok().unwrap();
        // the first difference is the solution, up to rounding
        for i in 0..3 {
            assert!((at_t[i].0 - y[i]).abs() <= 1e-12 * (1.0 + y[i].abs()));
            assert!((s.core.as_ref().unwrap().diff.get(i, 0).0 - y[i]).abs() <= 1e-12 * (1.0 + y[i].abs()));
        }
    }
}

#[test]
fn algebraic_constraint_holds_at_every_step() {
    let mut s = new_bdf();
    let (problem, _) = exponential_decay_with_algebraic_problem::<F>();
    let atol = problem.atol[2].0;
    let state = OdeSolverState::new(&problem);
    s.set_problem(state, problem);
    while s.state().unwrap().t.0 < 10.0 {
        assert!(s.step().is_ok());
        let y = &s.state().unwrap().y;
        assert!((y[2].0 - y[1].0).abs() < atol);
    }
    let y = &s.state().unwrap().y;
    let t = s.state().unwrap().t.0;
    assert!((y[0].0 - (-0.1 * t).exp()).abs() <= 1e-4);
}

#[test]
fn order_five_is_exact_on_a_quintic() {
    let eqn = Polynomial::new([0.5, -1.0, 0.75, 0.25, -0.125]);
    let p = |t: f64| Polynomial::new([0.5, -1.0, 0.75, 0.25, -0.125]).primitive(t);
    let (t0, h) = (1.0, 0.125);
    let mut s = new_bdf();
    let problem = problem_of(eqn, 1e-10, 1e-10, h);
    let mut state = OdeSolverState::new(&problem);
    state.t = F(t0);
    state.y = fv(&[p(t0)]);
    s.set_problem(state, problem);
    {
        let core = s.core.as_mut().unwrap();
        let mut samples: Vec<f64> = (0..MAX_ORDER + 3).map(|j| p(t0 - h * j as f64)).collect();
        for j in 0..MAX_ORDER + 3 {
            core.diff.set_column(j, &fv(&[samples[0]]));
            samples = (0..samples.len() - 1).map(|m| samples[m] - samples[m + 1]).collect();
        }
        core.order = MAX_ORDER;
        core.state.h = F(h);
        core.refresh_prediction();
        core.op.set_c(F(h), &core.coefficients.alpha, MAX_ORDER);
    }
    s.nonlinear_solver.reset();
    for n in 1..=6 {
        assert!(s.step().is_ok());
        let state = s.state().unwrap();
        assert!((state.t.0 - (t0 + h * n as f64)).abs() <= 1e-14);
        assert!(
            (state.y[0].0 - p(state.t.0)).abs() <= 1e-13,
            "step {}: {} against {}", n, state.y[0].0, p(state.t.0)
        );
    }
    assert_eq!(s.get_statistics().counters.number_of_error_test_failures, 0);
    assert_eq!(s.get_statistics().counters.number_of_steps, 6);
}

#[test]
fn forced_newton_failure_shrinks_the_step_and_refreshes_the_jacobian() {
    let mut s = new_bdf();
    let problem = problem_of(VanDerPol { mu: 10.0 }, 1e-6, 1e-6, 1e-3);
    let problem = OdeSolverProblem { atol: fv(&[1e-6, 1e-6]), ..problem };
    let state = OdeSolverState::new(&problem);
    s.set_problem(state, problem);
    while s.order() != Some(3) || s.core.as_ref().unwrap().n_equal_steps != 1 {
        assert!(s.step().is_ok());
        assert!(s.get_statistics().counters.number_of_steps < 10000);
    }
    let before = s.get_statistics().counters;
    let h = s.state().unwrap().h.0;
    let jac_evals = s.core.as_ref().unwrap().op.number_of_jac_evals();
    s.nonlinear_solver.linear_solver.fail_next.set(1);
    assert!(s.step().is_ok());
    let after = s.get_statistics().counters;
    assert_eq!(after.number_of_nonlinear_solver_fails, before.number_of_nonlinear_solver_fails + 1);
    assert_eq!(after.number_of_error_test_failures, before.number_of_error_test_failures);
    assert_eq!(after.number_of_steps, before.number_of_steps + 1);
    assert_eq!(s.get_statistics().final_step_size, F(h * 0.3));
    assert_eq!(s.order(), Some(3));
    assert!(s.core.as_ref().unwrap().op.number_of_jac_evals() > jac_evals);
    assert!(!s.core.as_ref().unwrap().op.rhs_jacobian_is_stale);

    // the rejection on its own
    let h = s.state().unwrap().h.0;
    let core = s.core.as_mut().unwrap();
    core.reject_after_newton_failure(&mut s.nonlinear_solver);
    assert_eq!(core.state.h, F(h * 0.3));
    assert!(core.op.rhs_jacobian_is_stale && core.op.jacobian_is_stale);
    assert_eq!(core.n_equal_steps, 0);
    assert!(!s.nonlinear_solver.linear_solver.has_problem());
    assert!(s.step().is_ok());
}

#[test]
fn step_size_runs_out_on_a_broken_right_hand_side() {
    let mut s = new_bdf();
    let problem = problem_of(Broken, 1e-6, 1e-6, 1.0);
    let mut state = OdeSolverState::new(&problem);
    state.h = F(1e-3);
    s.set_problem(state, problem);
    let t = s.state().unwrap().t;
    match s.step() {
        Err(PSError::StepSizeTooSmall { t: at }) => assert_eq!(at, t),
        _ => panic!("the step must fail"),
    }
    assert_eq!(s.state().unwrap().y, fv(&[1.0]));
    assert_eq!(s.get_statistics().counters.number_of_steps, 0);
    assert!(s.get_statistics().counters.number_of_nonlinear_solver_fails > 0);
}

#[test]
fn jacobian_is_cached_until_flagged() {
    let problem = problem_of(Polynomial::new([1.0, 0.0, 0.0, 0.0, 0.0]), 1e-6, 1e-6, 1.0);
    let eqn = problem.eqn.clone();
    let mut op = BdfCallable::new(&problem);
    assert_eq!(op.number_of_jac_evals(), 0);
    op.set_c(F(0.5), &fv(&[0.0, 2.0]), 1);
    assert_eq!(op.c, F(1.0));
    let y = fv(&[3.0]);
    let first = op.jacobian(&y, F(0.0));
    assert_eq!(first.data, fv(&[1.0]));
    assert_eq!((op.number_of_jac_evals(), eqn.jac_calls.get()), (1, 1));
    assert!(!op.rhs_jacobian_is_stale && !op.jacobian_is_stale && !op.mass_jacobian_is_stale);
    // nothing is out of date: the cached matrix comes back and nothing is evaluated
    let second = op.jacobian(&y, F(0.0));
    assert_eq!(second.data, first.data);
    assert_eq!((op.number_of_jac_evals(), eqn.jac_calls.get()), (1, 1));
    // a new c puts J together at once from the matrices held
    op.set_c(F(1.0), &fv(&[0.0, 2.0]), 1);
    assert!(!op.jacobian_is_stale);
    let third = op.jacobian(&y, F(0.0));
    assert_eq!((op.number_of_jac_evals(), eqn.jac_calls.get()), (1, 1));
    assert_eq!(third.data, fv(&[1.0]));
    // flagged, the derivative is evaluated anew
    op.set_rhs_jacobian_is_stale();
    assert!(op.rhs_jacobian_is_stale && op.jacobian_is_stale);
    op.jacobian(&y, F(0.0));
    assert_eq!((op.number_of_jac_evals(), eqn.jac_calls.get()), (2, 2));
}

#[test]
fn bdf_callable_is_the_step_equation() {
    let (problem, _) = exponential_decay_problem::<F>();
    let mut op = BdfCallable::new(&problem);
    // D1 = (1, 2), D2 = (3, 4); gamma = (0, 1, 1.5); alpha_2 = 0.5; y0 = (0.5, 0.5)
    let diff = table(2, &[&[9.0, 9.0], &[1.0, 2.0], &[3.0, 4.0]]);
    op.set_psi_and_y0(&diff, &fv(&[0.0, 1.0, 1.5]), &fv(&[0.0, 1.0, 0.5]), 2, &fv(&[0.5, 0.5]));
    assert_eq!(op.psi_neg_y0, fv(&[0.5 * (1.0 + 4.5) - 0.5, 0.5 * (2.0 + 6.0) - 0.5]));
    op.set_c(F(2.0), &fv(&[0.0, 1.0, 0.5]), 2);
    assert_eq!(op.c, F(1.0));
    // F(y) = (y + psi - y0) - c f(y) with f(y) = -0.1 y
    let mut out = fv(&[]);
    op.call_inplace(&fv(&[1.0, 2.0]), F(0.0), &mut out);
    assert_close(&out, &[1.0 + 2.25 + 0.1, 2.0 + 3.5 + 0.2], 1e-15);
    op.jac_mul_inplace(&fv(&[1.0, 2.0]), F(0.0), &fv(&[1.0, 1.0]), &mut out);
    assert_close(&out, &[1.1, 1.1], 1e-15);
    let j = op.jacobian(&fv(&[1.0, 2.0]), F(0.0));
    assert_close(&j.data, &[1.1, 0.0, 0.0, 1.1], 1e-15);
}

#[test]
fn reference_solutions_are_the_tables() {
    let (problem, soln) = robertson::<F>();
    assert_eq!(problem.rtol, F(1.0e-4));
    assert_eq!(problem.atol, fv(&[1.0e-8, 1.0e-6, 1.0e-6]));
    assert_eq!(soln.solution_points.len(), 13);
    assert_eq!(soln.solution_points[1].t, F(0.4));
    assert_eq!(soln.solution_points[1].state, fv(&[9.8517e-01, 3.3864e-05, 1.4794e-02]));
    assert_eq!(soln.solution_points[12].t, F(4.0000e+10));
    assert_eq!(soln.solution_points[12].state, fv(&[4.8641e-08, 1.9456e-13, 1.0000e+00]));
    let (problem, soln) = robertson_ode::<F>();
    assert_eq!((problem.eqn.k1, problem.eqn.k2, problem.eqn.k3), (F(0.04), F(1.0e4), F(3.0e7)));
    assert_eq!(soln.solution_points[3].state, fv(&[7.158017e-01, 9.185037e-06, 2.841892e-01]));
    assert_eq!(soln.solution_points[12].state, fv(&[6.934511e-08, 2.773804e-13, 9.999999e-01]));
    let eqn = ExponentialDecay { k: F(0.1) };
    assert_eq!(eqn.rhs(F(0.0), &fv(&[1.0, 2.0])), fv(&[-0.1, -0.2]));
}

#[test]
fn a_step_without_failure_sets_the_solver_up_at_most_once() {
    let mut s = new_bdf();
    let (problem, _) = robertson_ode::<F>();
    let state = OdeSolverState::new(&problem);
    s.set_problem(state, problem);
    let mut clean_steps = 0;
    for _ in 0..200 {
        let before = s.get_statistics().counters;
        let jac_evals = s.core.as_ref().unwrap().op.number_of_jac_evals();
        assert!(s.step().is_ok());
        let after = s.get_statistics().counters;
        assert!(s.nonlinear_solver.jacobian_fetches <= 1);
        assert_eq!(s.nonlinear_solver.jacobian_fetches == 1, s.nonlinear_solver.updated_jacobian);
        if after.number_of_error_test_failures == before.number_of_error_test_failures
            && after.number_of_nonlinear_solver_fails == before.number_of_nonlinear_solver_fails
        {
            clean_steps += 1;
            assert!(after.number_of_linear_solver_setups <= before.number_of_linear_solver_setups + 1);
            assert!(s.core.as_ref().unwrap().op.number_of_jac_evals() <= jac_evals + 1);
        }
        // no count goes down
        assert!(after.number_of_steps == before.number_of_steps + 1);
        assert!(after.number_of_linear_solver_setups >= before.number_of_linear_solver_setups);
        assert!(after.number_of_nonlinear_solver_iterations > before.number_of_nonlinear_solver_iterations);
    }
    assert!(clean_steps > 100);
}

#[test]
fn accepted_step_passes_the_error_test() {
    let mut s = new_bdf();
    let (problem, _) = robertson::<F>();
    let state = OdeSolverState::new(&problem);
    s.set_problem(state, problem);
    let mut held = 0;
    for _ in 0..200 {
        let t = s.state().unwrap().t.0;
        assert!(s.step().is_ok());
        let core = s.core.as_ref().unwrap();
        assert_eq!(core.state.t.0, t + s.get_statistics().final_step_size.0);
        if core.n_equal_steps > 0 {
            held += 1;
            let scale = diffsol::vector::scale_of(&core.state.y, core.rtol, &core.atol);
            let error = diffsol::vector::scale(&core.diff.column(core.order + 1), core.coefficients.error_const[core.order]);
            assert!(diffsol::vector::weighted_norm(&error, &scale).0 <= 1.0);
        }
    }
    assert!(held > 100);
}

/// `y' = y^2` for `size` states that start at -200; the solution is
/// `y0 / (1 - y0 t)`.
struct DydtY2 {
    size: usize,
}

impl OdeEquations<F> for DydtY2 {
    fn nstates_spec(&self) -> usize { self.size }
    fn rhs_spec(&self, _t: F, _y: vstd::seq::Seq<F>) -> vstd::seq::Seq<F> { unreachable!() }
    fn jac_mul_spec(&self, _t: F, _y: vstd::seq::Seq<F>, _v: vstd::seq::Seq<F>) -> vstd::seq::Seq<F> { unreachable!() }
    fn mass_spec(&self, _t: F, _v: vstd::seq::Seq<F>) -> vstd::seq::Seq<F> { unreachable!() }
    fn init_spec(&self, _t: F) -> vstd::seq::Seq<F> { unreachable!() }
    fn mass_is_constant_spec(&self) -> bool { true }
    fn nstates(&self) -> usize { self.size }
    fn rhs(&self, _t: F, y: &Vec<F>) -> Vec<F> { y.iter().map(|x| F(x.0 * x.0)).collect() }
    fn jac_mul(&self, _t: F, y: &Vec<F>, v: &Vec<F>) -> Vec<F> {
        (0..y.len()).map(|i| F(2.0 * y[i].0 * v[i].0)).collect()
    }
    fn mass(&self, _t: F, v: &Vec<F>) -> Vec<F> { v.clone() }
    fn init(&self, _t: F) -> Vec<F> { vec![F(-200.0); self.size] }
    fn mass_is_constant(&self) -> bool { true }
}

fn dydt_y2_problem(size: usize) -> (OdeSolverProblem<F, DydtY2>, OdeSolverSolution<F>) {
    let problem = OdeSolverProblem::new(std::rc::Rc::new(DydtY2 { size }), F(1e-4), vec![F(1e-6)], F(0.0), F(1.0))
        .ok()
        .unwrap();
    let mut soln = OdeSolverSolution::new();
    let (y0, tlast) = (-200.0, 20.0);
    for i in 0..10 {
        let t = i as f64 * tlast / 10.0;
        soln.push(vec![F(y0 / (1.0 - y0 * t)); size], F(t));
    }
    (problem, soln)
}

/// `y' = -a t y` for `size` states that start at one; the solution is
/// `exp(-a t^2 / 2)`.
struct GaussianDecay {
    a: f64,
    size: usize,
}

impl OdeEquations<F> for GaussianDecay {
    fn nstates_spec(&self) -> usize { self.size }
    fn rhs_spec(&self, _t: F, _y: vstd::seq::Seq<F>) -> vstd::seq::Seq<F> { unreachable!() }
    fn jac_mul_spec(&self, _t: F, _y: vstd::seq::Seq<F>, _v: vstd::seq::Seq<F>) -> vstd::seq::Seq<F> { unreachable!() }
    fn mass_spec(&self, _t: F, _v: vstd::seq::Seq<F>) -> vstd::seq::Seq<F> { unreachable!() }
    fn init_spec(&self, _t: F) -> vstd::seq::Seq<F> { unreachable!() }
    fn mass_is_constant_spec(&self) -> bool { true }
    fn nstates(&self) -> usize { self.size }
    fn rhs(&self, t: F, y: &Vec<F>) -> Vec<F> { y.iter().map(|x| F(-self.a * t.0 * x.0)).collect() }
    fn jac_mul(&self, t: F, _y: &Vec<F>, v: &Vec<F>) -> Vec<F> {
        v.iter().map(|x| F(-self.a * t.0 * x.0)).collect()
    }
    fn mass(&self, _t: F, v: &Vec<F>) -> Vec<F> { v.clone() }
    fn init(&self, _t: F) -> Vec<F> { vec![F(1.0); self.size] }
    fn mass_is_constant(&self) -> bool { true }
}

fn gaussian_decay_problem(size: usize) -> (OdeSolverProblem<F, GaussianDecay>, OdeSolverSolution<F>) {
    let a = 0.1;
    let problem = OdeSolverProblem::new(std::rc::Rc::new(GaussianDecay { a, size }), F(1e-6), vec![F(1e-6)], F(0.0), F(1.0))
        .ok()
        .unwrap();
    let mut soln = OdeSolverSolution::new();
    for i in 0..10 {
        let t = i as f64;
        soln.push(vec![F((-a * t * t / 2.0).exp()); size], F(t));
    }
    (problem, soln)
}

fn assert_run_is_sane(s: &Bdf<F, impl OdeEquations<F>, Lu>) {
    let st = s.get_statistics();
    assert!(st.counters.number_of_steps > 0);
    assert!(st.counters.number_of_linear_solver_setups > 0);
    assert!(st.counters.number_of_nonlinear_solver_iterations >= st.counters.number_of_steps);
    assert!(st.initial_step_size.0.is_finite() && st.initial_step_size.0 > 0.0);
    assert!(st.final_step_size.0.is_finite() && st.final_step_size.0 > 0.0);
}

#[test]
fn test_bdf_nalgebra_robertson_colored() {
    let mut s = new_bdf();
    let (problem, soln) = robertson::<F>();
    test_ode_solver(&mut s, problem, soln);
    assert_run_is_sane(&s);
}

#[test]
fn test_bdf_nalgebra_dydt_y2() {
    let mut s = new_bdf();
    let (problem, soln) = dydt_y2_problem(10);
    test_ode_solver(&mut s, problem, soln);
    assert_run_is_sane(&s);
}

#[test]
fn test_bdf_nalgebra_dydt_y2_colored() {
    let mut s = new_bdf();
    let (problem, soln) = dydt_y2_problem(10);
    test_ode_solver(&mut s, problem, soln);
    assert_run_is_sane(&s);
}

#[test]
fn test_bdf_nalgebra_gaussian_decay() {
    let mut s = new_bdf();
    let (problem, soln) = gaussian_decay_problem(10);
    test_ode_solver(&mut s, problem, soln);
    assert_run_is_sane(&s);
}

fn decay_stepper() -> Bdf<F, ExponentialDecay<F>, Lu> {
    let mut s = new_bdf();
    let (problem, _) = exponential_decay_problem::<F>();
    let state = OdeSolverState::new(&problem);
    s.set_problem(state, problem);
    s
}

#[test]
fn failed_solve_shrinks_the_step_by_three_tenths() {
    let mut s = decay_stepper();
    let before = s.get_statistics();
    let core = s.core.as_mut().unwrap();
    let (t, h, y, order) = (core.state.t, core.state.h, core.state.y.clone(), core.order);
    let first = core.diff.column(1);
    let y_new = core.y_predict.clone();
    let accepted = core.after_solve(Err(PSError::MaxIterReached), y_new, 4, 1, &mut s.nonlinear_solver, &mut s.statistics);
    assert!(!accepted);
    assert_eq!(core.state.h, F(h.0 * 0.3));
    assert_eq!((core.state.t, core.state.y.clone(), core.order, core.n_equal_steps), (t, y, order, 0));
    assert_close(&core.diff.column(1), &[first[0].0 * 0.3, first[1].0 * 0.3], 1e-15);
    assert!(core.op.rhs_jacobian_is_stale && core.op.jacobian_is_stale);
    let after = s.get_statistics();
    assert_eq!(after.counters.number_of_nonlinear_solver_fails, before.counters.number_of_nonlinear_solver_fails + 1);
    assert_eq!(after.counters.number_of_nonlinear_solver_iterations, before.counters.number_of_nonlinear_solver_iterations + 4);
    assert_eq!(after.counters.number_of_linear_solver_setups, before.counters.number_of_linear_solver_setups + 1);
    assert_eq!(after.counters.number_of_error_test_failures, before.counters.number_of_error_test_failures);
    assert_eq!(after.counters.number_of_steps, before.counters.number_of_steps);
    assert_eq!(after.final_step_size, before.final_step_size);
}

#[test]
fn failed_error_test_shrinks_the_step_by_its_factor() {
    let mut s = decay_stepper();
    let before = s.get_statistics();
    let core = s.core.as_mut().unwrap();
    let h = core.state.h.0;
    // a correction of 1e-4 at both states: error 0.315e-4 in a scale of about 2e-6
    let y_new: Vec<F> = core.y_predict.iter().map(|p| F(p.0 + 1e-4)).collect();
    let scale: Vec<f64> = y_new.iter().map(|v| v.0.abs() * 1e-6 + 1e-6).collect();
    let d: Vec<f64> = (0..2).map(|i| y_new[i].0 - core.y_predict[i].0).collect();
    let ec = core.coefficients.error_const[1].0;
    let norm = (((d[0] * ec / scale[0]).powi(2) + (d[1] * ec / scale[1]).powi(2)) / 2.0).sqrt();
    assert!(norm > 1.0);
    let safety = 0.9 * 9.0 / (8.0 + 2.0);
    let factor = (safety * norm.powf(-0.5)).max(0.2);
    let accepted = core.after_solve(Ok(()), y_new, 2, 0, &mut s.nonlinear_solver, &mut s.statistics);
    assert!(!accepted);
    assert!((core.state.h.0 - h * factor).abs() <= 1e-15);
    assert_eq!(core.n_equal_steps, 0);
    let after = s.get_statistics();
    assert_eq!(after.counters.number_of_error_test_failures, before.counters.number_of_error_test_failures + 1);
    assert_eq!(after.counters.number_of_nonlinear_solver_fails, before.counters.number_of_nonlinear_solver_fails);
    assert_eq!(after.counters.number_of_nonlinear_solver_iterations, before.counters.number_of_nonlinear_solver_iterations + 2);
    assert_eq!(after.counters.number_of_steps, before.counters.number_of_steps);
}

#[test]
fn passing_solution_is_taken_and_the_controller_waits_its_turn() {
    let mut s = decay_stepper();
    let before = s.get_statistics();
    let core = s.core.as_mut().unwrap();
    let (t, h) = (core.state.t.0, core.state.h.0);
    let d0 = core.diff.column(0);
    let d1 = core.diff.column(1);
    // a correction of 1e-7: error 0.315e-7 in a scale of about 2e-6
    let y_new: Vec<F> = core.y_predict.iter().map(|p| F(p.0 + 1e-7)).collect();
    let d: Vec<f64> = (0..2).map(|i| y_new[i].0 - core.y_predict[i].0).collect();
    let accepted = core.after_solve(Ok(()), y_new.clone(), 1, 1, &mut s.nonlinear_solver, &mut s.statistics);
    assert!(accepted);
    assert_eq!(core.state.t, F(t + h));
    assert_eq!(core.state.h, F(h));
    assert_eq!(core.state.y, y_new);
    assert_eq!((core.order, core.n_equal_steps), (1, 1));
    // D2 = d, D1 = D1 + d, D0 = D0 + D1
    assert_eq!(core.diff.column(2), fv(&d));
    assert_eq!(core.diff.column(1), fv(&[d1[0].0 + d[0], d1[1].0 + d[1]]));
    assert_eq!(core.diff.column(0), fv(&[d0[0].0 + (d1[0].0 + d[0]), d0[1].0 + (d1[1].0 + d[1])]));
    let after = s.get_statistics();
    assert_eq!(after.counters.number_of_steps, before.counters.number_of_steps + 1);
    assert_eq!(after.final_step_size, F(h));
    assert_eq!(after.counters.number_of_error_test_failures, 0);

    // the second equal step at order one calls the controller
    let core = s.core.as_mut().unwrap();
    let h = core.state.h.0;
    let y_new: Vec<F> = core.y_predict.iter().map(|p| F(p.0 + 1e-7)).collect();
    let accepted = core.after_solve(Ok(()), y_new, 1, 0, &mut s.nonlinear_solver, &mut s.statistics);
    assert!(accepted);
    assert_eq!(core.n_equal_steps, 0);
    assert!(core.order == 1 || core.order == 2);
    assert!(core.state.h.0 <= h * 10.0 && core.state.h.0 > 0.0);
    assert_eq!(s.get_statistics().final_step_size, F(h));
}

#[test]
fn controller_lets_the_step_grow_tenfold_at_most() {
    let mut s = decay_stepper();
    let core = s.core.as_mut().unwrap();
    core.n_equal_steps = 1;
    let h = core.state.h.0;
    // no correction at all: every error norm is zero and every factor infinite
    let y_new = core.y_predict.clone();
    let accepted = core.after_solve(Ok(()), y_new, 1, 0, &mut s.nonlinear_solver, &mut s.statistics);
    assert!(accepted);
    assert_eq!(core.state.h, F(h * 10.0));
    assert_eq!(core.n_equal_steps, 0);
    assert_eq!(core.order, 2);
}

#[test]
fn step_size_too_small_at_entry_fails_at_once() {
    let mut s = decay_stepper();
    {
        let core = s.core.as_mut().unwrap();
        core.state.h = F(0.0);
        core.op.set_c(F(0.0), &core.coefficients.alpha, 1);
    }
    let before = s.get_statistics().counters;
    match s.step() {
        Err(PSError::StepSizeTooSmall { t }) => assert_eq!(t, F(0.0)),
        _ => panic!("the step must fail"),
    }
    assert_eq!(s.core.as_ref().unwrap().attempts, 0);
    assert_eq!(s.get_statistics().counters, before);
    assert_eq!(s.state().unwrap().y, fv(&[1.0, 1.0]));
}

#[test]
fn attempts_are_the_failures_and_the_step() {
    let mut s = new_bdf();
    let (problem, _) = robertson::<F>();
    let state = OdeSolverState::new(&problem);
    s.set_problem(state, problem);
    for _ in 0..100 {
        let before = s.get_statistics().counters;
        let order = s.order().unwrap();
        assert!(s.step().is_ok());
        let after = s.get_statistics().counters;
        let failures = (after.number_of_error_test_failures - before.number_of_error_test_failures)
            + (after.number_of_nonlinear_solver_fails - before.number_of_nonlinear_solver_fails);
        let core = s.core.as_ref().unwrap();
        assert_eq!(core.attempts, failures + 1);
        assert!(core.order + 1 >= order && core.order <= order + 1);
        if core.n_equal_steps > 0 {
            assert_eq!(core.order, order);
            assert_eq!(core.state.h, s.get_statistics().final_step_size);
        }
    }
}

#[test]
fn stage_operator_holds_the_matrices_it_evaluated() {
    let (problem, _) = exponential_decay_problem::<F>();
    let mut op = SdirkCallable::new(&problem);
    op.set_c(F(0.5), F(2.0));
    let j = op.jacobian(&fv(&[1.0, 1.0]), F(0.0));
    assert_eq!(op.mass_jac.data, fv(&[1.0, 0.0, 0.0, 1.0]));
    assert_eq!(op.rhs_jac.data, fv(&[-0.1, -0.0, -0.0, -0.1]));
    assert_eq!(j.data, fv(&[1.1, 0.0, 0.0, 1.1]));
    // flagged, the derivative is evaluated anew and the mass matrix kept
    op.set_jacobian_is_stale();
    assert!(op.rhs_jacobian_is_stale && op.jacobian_is_stale && !op.mass_jacobian_is_stale);
    op.jacobian(&fv(&[1.0, 1.0]), F(0.0));
    assert_eq!(op.number_of_jac_evals(), 2);
}
