//! The Robertson kinetics as three rate equations.

use vstd::prelude::*;
use std::rc::Rc;
use crate::scalar::Scalar;
use crate::op::OdeEquations;
use crate::ode_solver::{OdeSolverProblem, OdeSolverSolution};
use crate::ode_solver::test_models::{ReferenceRow, row_point, row_state_spec, row_time_spec};
use crate::vector;

verus! {

/// The kinetics with the rate constants `k1`, `k2` and `k3`:
/// `y0' = -k1 y0 + k2 y1 y2`, `y1' = k1 y0 - k2 y1 y2 - k3 y1^2` and
/// `y2' = k3 y1^2`; the mass matrix is the unit matrix.
pub struct RobertsonOde<T: Scalar> {
    pub k1: T,
    pub k2: T,
    pub k3: T,
}

/// The right-hand side at `x` for the rate constants `k`.
pub open spec fn robertson_ode_rhs_spec<T: Scalar>(k: (T, T, T), x: Seq<T>) -> Seq<T> {
    seq![
        k.0.neg_spec().mul_spec(x[0]).add_spec(k.1.mul_spec(x[1]).mul_spec(x[2])),
        k.0.mul_spec(x[0]).sub_spec(k.1.mul_spec(x[1]).mul_spec(x[2])).sub_spec(
            k.2.mul_spec(x[1]).mul_spec(x[1]),
        ),
        k.2.mul_spec(x[1]).mul_spec(x[1]),
    ]
}

/// The derivative of the right-hand side at `x`, applied to `v`.
pub open spec fn robertson_ode_jac_mul_spec<T: Scalar>(k: (T, T, T), x: Seq<T>, v: Seq<T>) -> Seq<T> {
    seq![
        k.0.neg_spec().mul_spec(v[0]).add_spec(k.1.mul_spec(v[1]).mul_spec(x[2])).add_spec(
            k.1.mul_spec(x[1]).mul_spec(v[2]),
        ),
        k.0.mul_spec(v[0]).sub_spec(k.1.mul_spec(v[1]).mul_spec(x[2])).sub_spec(
            k.1.mul_spec(x[1]).mul_spec(v[2]),
        ).sub_spec(T::ratio_spec(2, 1).mul_spec(k.2).mul_spec(x[1]).mul_spec(v[1])),
        T::ratio_spec(2, 1).mul_spec(k.2).mul_spec(x[1]).mul_spec(v[1]),
    ]
}

impl<T: Scalar> OdeEquations<T> for RobertsonOde<T> {
    open spec fn nstates_spec(&self) -> usize {
        3
    }

    open spec fn rhs_spec(&self, t: T, y: Seq<T>) -> Seq<T> {
        robertson_ode_rhs_spec((self.k1, self.k2, self.k3), y)
    }

    open spec fn jac_mul_spec(&self, t: T, y: Seq<T>, v: Seq<T>) -> Seq<T> {
        robertson_ode_jac_mul_spec((self.k1, self.k2, self.k3), y, v)
    }

    open spec fn mass_spec(&self, t: T, v: Seq<T>) -> Seq<T> {
        v
    }

    open spec fn init_spec(&self, t: T) -> Seq<T> {
        seq![T::one_spec(), T::zero_spec(), T::zero_spec()]
    }

    open spec fn mass_is_constant_spec(&self) -> bool {
        true
    }

    fn nstates(&self) -> (n: usize) {
        3
    }

    fn rhs(&self, t: T, x: &Vec<T>) -> (r: Vec<T>) {
        let mut r: Vec<T> = Vec::new();
        r.push(self.k1.neg().mul(x[0]).add(self.k2.mul(x[1]).mul(x[2])));
        r.push(
            self.k1.mul(x[0]).sub(self.k2.mul(x[1]).mul(x[2])).sub(self.k3.mul(x[1]).mul(x[1])),
        );
        r.push(self.k3.mul(x[1]).mul(x[1]));
        r
    }

    fn jac_mul(&self, t: T, x: &Vec<T>, v: &Vec<T>) -> (r: Vec<T>) {
        let mut r: Vec<T> = Vec::new();
        r.push(
            self.k1.neg().mul(v[0]).add(self.k2.mul(v[1]).mul(x[2])).add(
                self.k2.mul(x[1]).mul(v[2]),
            ),
        );
        r.push(
            self.k1.mul(v[0]).sub(self.k2.mul(v[1]).mul(x[2])).sub(
                self.k2.mul(x[1]).mul(v[2]),
            ).sub(T::ratio(2, 1).mul(self.k3).mul(x[1]).mul(v[1])),
        );
        r.push(T::ratio(2, 1).mul(self.k3).mul(x[1]).mul(v[1]));
        r
    }

    fn mass(&self, t: T, v: &Vec<T>) -> (r: Vec<T>) {
        vector::copy(v)
    }

    fn init(&self, t: T) -> (r: Vec<T>) {
        let mut r: Vec<T> = Vec::new();
        r.push(T::one());
        r.push(T::zero());
        r.push(T::zero());
        r
    }

    fn mass_is_constant(&self) -> (r: bool) {
        true
    }
}

/// Row `i` of the reference solution, for the thirteen times
/// 0, 0.4, 4, ..., 4e10; a row of zeros beyond them.
pub open spec fn robertson_ode_reference_spec(i: int) -> ReferenceRow {
    if i == 0 {
        ReferenceRow { t: (0, 1), y0: (1, 1), y1: (0, 1), y2: (0, 1) }
    } else if i == 1 {
        ReferenceRow { t: (4, 10), y0: (9851641, 10000000), y1: (3386242, 100000000000), y2: (1480205, 100000000) }
    } else if i == 2 {
        ReferenceRow { t: (4, 1), y0: (9055097, 10000000), y1: (2240338, 100000000000), y2: (9446793, 100000000) }
    } else if i == 3 {
        ReferenceRow { t: (40, 1), y0: (7158017, 10000000), y1: (9185037, 1000000000000), y2: (2841892, 10000000) }
    } else if i == 4 {
        ReferenceRow { t: (400, 1), y0: (450536, 1000000), y1: (3223271, 1000000000000), y2: (5494608, 10000000) }
    } else if i == 5 {
        ReferenceRow { t: (4000, 1), y0: (1832299, 10000000), y1: (8944378, 10000000000000), y2: (8167692, 10000000) }
    } else if i == 6 {
        ReferenceRow { t: (40000, 1), y0: (3898902, 100000000), y1: (1622006, 10000000000000), y2: (9610108, 10000000) }
    } else if i == 7 {
        ReferenceRow { t: (400000, 1), y0: (4936383, 1000000000), y1: (1984224, 100000000000000), y2: (9950636, 10000000) }
    } else if i == 8 {
        ReferenceRow { t: (4000000, 1), y0: (5168093, 10000000000), y1: (2068293, 1000000000000000), y2: (9994832, 10000000) }
    } else if i == 9 {
        ReferenceRow { t: (40000000, 1), y0: (520244, 10000000000), y1: (2081083, 10000000000000000), y2: (999948, 1000000) }
    } else if i == 10 {
        ReferenceRow { t: (400000000, 1), y0: (5201061, 1000000000000), y1: (2080435, 100000000000000000), y2: (9999948, 10000000) }
    } else if i == 11 {
        ReferenceRow { t: (4000000000, 1), y0: (5258603, 10000000000000), y1: (2103442, 1000000000000000000), y2: (9999995, 10000000) }
    } else if i == 12 {
        ReferenceRow { t: (40000000000, 1), y0: (6934511, 100000000000000), y1: (2773804, 10000000000000000000), y2: (9999999, 10000000) }
    } else {
        ReferenceRow { t: (0, 1), y0: (0, 1), y1: (0, 1), y2: (0, 1) }
    }
}

pub fn robertson_ode_reference(i: usize) -> (r: ReferenceRow)
    ensures
        r == robertson_ode_reference_spec(i as int),
{
    if i == 0 {
        ReferenceRow { t: (0, 1), y0: (1, 1), y1: (0, 1), y2: (0, 1) }
    } else if i == 1 {
        ReferenceRow { t: (4, 10), y0: (9851641, 10000000), y1: (3386242, 100000000000), y2: (1480205, 100000000) }
    } else if i == 2 {
        ReferenceRow { t: (4, 1), y0: (9055097, 10000000), y1: (2240338, 100000000000), y2: (9446793, 100000000) }
    } else if i == 3 {
        ReferenceRow { t: (40, 1), y0: (7158017, 10000000), y1: (9185037, 1000000000000), y2: (2841892, 10000000) }
    } else if i == 4 {
        ReferenceRow { t: (400, 1), y0: (450536, 1000000), y1: (3223271, 1000000000000), y2: (5494608, 10000000) }
    } else if i == 5 {
        ReferenceRow { t: (4000, 1), y0: (1832299, 10000000), y1: (8944378, 10000000000000), y2: (8167692, 10000000) }
    } else if i == 6 {
        ReferenceRow { t: (40000, 1), y0: (3898902, 100000000), y1: (1622006, 10000000000000), y2: (9610108, 10000000) }
    } else if i == 7 {
        ReferenceRow { t: (400000, 1), y0: (4936383, 1000000000), y1: (1984224, 100000000000000), y2: (9950636, 10000000) }
    } else if i == 8 {
        ReferenceRow { t: (4000000, 1), y0: (5168093, 10000000000), y1: (2068293, 1000000000000000), y2: (9994832, 10000000) }
    } else if i == 9 {
        ReferenceRow { t: (40000000, 1), y0: (520244, 10000000000), y1: (2081083, 10000000000000000), y2: (999948, 1000000) }
    } else if i == 10 {
        ReferenceRow { t: (400000000, 1), y0: (5201061, 1000000000000), y1: (2080435, 100000000000000000), y2: (9999948, 10000000) }
    } else if i == 11 {
        ReferenceRow { t: (4000000000, 1), y0: (5258603, 10000000000000), y1: (2103442, 1000000000000000000), y2: (9999995, 10000000) }
    } else if i == 12 {
        ReferenceRow { t: (40000000000, 1), y0: (6934511, 100000000000000), y1: (2773804, 10000000000000000000), y2: (9999999, 10000000) }
    } else {
        ReferenceRow { t: (0, 1), y0: (0, 1), y1: (0, 1), y2: (0, 1) }
    }
}

/// The kinetics with the rate constants 0.04, 1e4 and 3e7 from time zero,
/// with the relative tolerance 1e-4, the absolute tolerances 1e-8, 1e-6 and
/// 1e-6 and a first step size of one, and its reference solution.
pub fn robertson_ode<T: Scalar>() -> (r: (OdeSolverProblem<T, RobertsonOde<T>>, OdeSolverSolution<T>))
    ensures
        r.0.wf(),
        r.0.eqn.k1 == T::ratio_spec(4, 100),
        r.0.eqn.k2 == T::ratio_spec(10000, 1),
        r.0.eqn.k3 == T::ratio_spec(30000000, 1),
        r.0.rtol == T::ratio_spec(1, 10000),
        r.0.atol@ == seq![
            T::ratio_spec(1, 100000000),
            T::ratio_spec(1, 1000000),
            T::ratio_spec(1, 1000000),
        ],
        r.0.t0 == T::zero_spec(),
        r.0.h0 == T::one_spec(),
        r.1.solution_points@.len() == 13,
        forall|i: int|
            0 <= i < 13 ==> {
                &&& (#[trigger] r.1.solution_points@[i]).t == row_time_spec::<T>(
                    robertson_ode_reference_spec(i),
                )
                &&& r.1.solution_points@[i].state@ == row_state_spec::<T>(robertson_ode_reference_spec(i))
            },
{
    let mut atol: Vec<T> = Vec::new();
    atol.push(T::ratio(1, 100000000));
    atol.push(T::ratio(1, 1000000));
    atol.push(T::ratio(1, 1000000));
    assert(atol@ =~= seq![
        T::ratio_spec(1, 100000000),
        T::ratio_spec(1, 1000000),
        T::ratio_spec(1, 1000000),
    ]);
    let problem = OdeSolverProblem {
        eqn: Rc::new(
            RobertsonOde {
                k1: T::ratio(4, 100),
                k2: T::ratio(10000, 1),
                k3: T::ratio(30000000, 1),
            },
        ),
        rtol: T::ratio(1, 10000),
        atol,
        t0: T::zero(),
        h0: T::one(),
    };
    let mut soln = OdeSolverSolution::new();
    let mut i: usize = 0;
    while i < 13
        invariant
            i <= 13,
            soln.solution_points@.len() == i,
            forall|j: int|
                0 <= j < i ==> {
                    &&& (#[trigger] soln.solution_points@[j]).t == row_time_spec::<T>(
                        robertson_ode_reference_spec(j),
                    )
                    &&& soln.solution_points@[j].state@ == row_state_spec::<T>(robertson_ode_reference_spec(j))
                },
        decreases 13 - i,
    {
        let point = row_point::<T>(robertson_ode_reference(i));
        soln.push(point.state, point.t);
        i = i + 1;
    }
    (problem, soln)
}

} // verus!
