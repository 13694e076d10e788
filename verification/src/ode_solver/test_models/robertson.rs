//! The Robertson kinetics as a differential-algebraic system: two rate
//! equations and the conservation of mass.

use vstd::prelude::*;
use std::rc::Rc;
use crate::scalar::Scalar;
use crate::op::OdeEquations;
use crate::ode_solver::{OdeSolverProblem, OdeSolverSolution};
use crate::ode_solver::test_models::{ReferenceRow, row_point, row_state_spec, row_time_spec};

verus! {

/// The kinetics with the rate constants `k1`, `k2` and `k3`:
/// `y0' = -k1 y0 + k2 y1 y2`, `y1' = k1 y0 - k2 y1 y2 - k3 y1^2` and
/// `0 = 1 - y0 - y1 - y2`; the mass matrix is the unit matrix with its last diagonal entry zero.
pub struct Robertson<T: Scalar> {
    pub k1: T,
    pub k2: T,
    pub k3: T,
}

/// The right-hand side at `x` for the rate constants `k`.
pub open spec fn robertson_rhs_spec<T: Scalar>(k: (T, T, T), x: Seq<T>) -> Seq<T> {
    seq![
        k.0.neg_spec().mul_spec(x[0]).add_spec(k.1.mul_spec(x[1]).mul_spec(x[2])),
        k.0.mul_spec(x[0]).sub_spec(k.1.mul_spec(x[1]).mul_spec(x[2])).sub_spec(
            k.2.mul_spec(x[1]).mul_spec(x[1]),
        ),
        T::one_spec().sub_spec(x[0]).sub_spec(x[1]).sub_spec(x[2]),
    ]
}

/// The derivative of the right-hand side at `x`, applied to `v`.
pub open spec fn robertson_jac_mul_spec<T: Scalar>(k: (T, T, T), x: Seq<T>, v: Seq<T>) -> Seq<T> {
    seq![
        k.0.neg_spec().mul_spec(v[0]).add_spec(k.1.mul_spec(v[1]).mul_spec(x[2])).add_spec(
            k.1.mul_spec(x[1]).mul_spec(v[2]),
        ),
        k.0.mul_spec(v[0]).sub_spec(k.1.mul_spec(v[1]).mul_spec(x[2])).sub_spec(
            k.1.mul_spec(x[1]).mul_spec(v[2]),
        ).sub_spec(T::ratio_spec(2, 1).mul_spec(k.2).mul_spec(x[1]).mul_spec(v[1])),
        v[0].neg_spec().sub_spec(v[1]).sub_spec(v[2]),
    ]
}

impl<T: Scalar> OdeEquations<T> for Robertson<T> {
    open spec fn nstates_spec(&self) -> usize {
        3
    }

    open spec fn rhs_spec(&self, t: T, y: Seq<T>) -> Seq<T> {
        robertson_rhs_spec((self.k1, self.k2, self.k3), y)
    }

    open spec fn jac_mul_spec(&self, t: T, y: Seq<T>, v: Seq<T>) -> Seq<T> {
        robertson_jac_mul_spec((self.k1, self.k2, self.k3), y, v)
    }

    open spec fn mass_spec(&self, t: T, v: Seq<T>) -> Seq<T> {
        seq![v[0], v[1], T::zero_spec()]
    }

    open spec fn init_spec(&self, t: T) -> Seq<T> {
        seq![T::one_spec(), T::zero_spec(), T::zero_spec()]
    }

    open spec fn mass_is_constant_spec(&self) -> bool {
        true
    }

    fn nstates(&self) -> (n: usize) {
        3
    }

    fn rhs(&self, t: T, x: &Vec<T>) -> (r: Vec<T>) {
        let mut r: Vec<T> = Vec::new();
        r.push(self.k1.neg().mul(x[0]).add(self.k2.mul(x[1]).mul(x[2])));
        r.push(
            self.k1.mul(x[0]).sub(self.k2.mul(x[1]).mul(x[2])).sub(self.k3.mul(x[1]).mul(x[1])),
        );
        r.push(T::one().sub(x[0]).sub(x[1]).sub(x[2]));
        r
    }

    fn jac_mul(&self, t: T, x: &Vec<T>, v: &Vec<T>) -> (r: Vec<T>) {
        let mut r: Vec<T> = Vec::new();
        r.push(
            self.k1.neg().mul(v[0]).add(self.k2.mul(v[1]).mul(x[2])).add(
                self.k2.mul(x[1]).mul(v[2]),
            ),
        );
        r.push(
            self.k1.mul(v[0]).sub(self.k2.mul(v[1]).mul(x[2])).sub(
                self.k2.mul(x[1]).mul(v[2]),
            ).sub(T::ratio(2, 1).mul(self.k3).mul(x[1]).mul(v[1])),
        );
        r.push(v[0].neg().sub(v[1]).sub(v[2]));
        r
    }

    fn mass(&self, t: T, v: &Vec<T>) -> (r: Vec<T>) {
        let mut r: Vec<T> = Vec::new();
        r.push(v[0]);
        r.push(v[1]);
        r.push(T::zero());
        r
    }

    fn init(&self, t: T) -> (r: Vec<T>) {
        let mut r: Vec<T> = Vec::new();
        r.push(T::one());
        r.push(T::zero());
        r.push(T::zero());
        r
    }

    fn mass_is_constant(&self) -> (r: bool) {
        true
    }
}

/// Row `i` of the reference solution, for the thirteen times
/// 0, 0.4, 4, ..., 4e10; a row of zeros beyond them.
pub open spec fn robertson_reference_spec(i: int) -> ReferenceRow {
    if i == 0 {
        ReferenceRow { t: (0, 1), y0: (1, 1), y1: (0, 1), y2: (0, 1) }
    } else if i == 1 {
        ReferenceRow { t: (4, 10), y0: (98517, 100000), y1: (33864, 1000000000), y2: (14794, 1000000) }
    } else if i == 2 {
        ReferenceRow { t: (4, 1), y0: (90553, 100000), y1: (22406, 1000000000), y2: (94452, 1000000) }
    } else if i == 3 {
        ReferenceRow { t: (40, 1), y0: (71579, 100000), y1: (91838, 10000000000), y2: (2842, 10000) }
    } else if i == 4 {
        ReferenceRow { t: (400, 1), y0: (45044, 100000), y1: (32218, 10000000000), y2: (54956, 100000) }
    } else if i == 5 {
        ReferenceRow { t: (4000, 1), y0: (1832, 10000), y1: (89444, 100000000000), y2: (8168, 10000) }
    } else if i == 6 {
        ReferenceRow { t: (40000, 1), y0: (38992, 1000000), y1: (16221, 100000000000), y2: (96101, 100000) }
    } else if i == 7 {
        ReferenceRow { t: (400000, 1), y0: (49369, 10000000), y1: (19842, 1000000000000), y2: (99506, 100000) }
    } else if i == 8 {
        ReferenceRow { t: (4000000, 1), y0: (51674, 100000000), y1: (20684, 10000000000000), y2: (99948, 100000) }
    } else if i == 9 {
        ReferenceRow { t: (40000000, 1), y0: (52009, 1000000000), y1: (20805, 100000000000000), y2: (99995, 100000) }
    } else if i == 10 {
        ReferenceRow { t: (400000000, 1), y0: (52012, 10000000000), y1: (20805, 1000000000000000), y2: (99999, 100000) }
    } else if i == 11 {
        ReferenceRow { t: (4000000000, 1), y0: (5185, 10000000000), y1: (2074, 1000000000000000), y2: (1, 1) }
    } else if i == 12 {
        ReferenceRow { t: (40000000000, 1), y0: (48641, 1000000000000), y1: (19456, 100000000000000000), y2: (1, 1) }
    } else {
        ReferenceRow { t: (0, 1), y0: (0, 1), y1: (0, 1), y2: (0, 1) }
    }
}

pub fn robertson_reference(i: usize) -> (r: ReferenceRow)
    ensures
        r == robertson_reference_spec(i as int),
{
    if i == 0 {
        ReferenceRow { t: (0, 1), y0: (1, 1), y1: (0, 1), y2: (0, 1) }
    } else if i == 1 {
        ReferenceRow { t: (4, 10), y0: (98517, 100000), y1: (33864, 1000000000), y2: (14794, 1000000) }
    } else if i == 2 {
        ReferenceRow { t: (4, 1), y0: (90553, 100000), y1: (22406, 1000000000), y2: (94452, 1000000) }
    } else if i == 3 {
        ReferenceRow { t: (40, 1), y0: (71579, 100000), y1: (91838, 10000000000), y2: (2842, 10000) }
    } else if i == 4 {
        ReferenceRow { t: (400, 1), y0: (45044, 100000), y1: (32218, 10000000000), y2: (54956, 100000) }
    } else if i == 5 {
        ReferenceRow { t: (4000, 1), y0: (1832, 10000), y1: (89444, 100000000000), y2: (8168, 10000) }
    } else if i == 6 {
        ReferenceRow { t: (40000, 1), y0: (38992, 1000000), y1: (16221, 100000000000), y2: (96101, 100000) }
    } else if i == 7 {
        ReferenceRow { t: (400000, 1), y0: (49369, 10000000), y1: (19842, 1000000000000), y2: (99506, 100000) }
    } else if i == 8 {
        ReferenceRow { t: (4000000, 1), y0: (51674, 100000000), y1: (20684, 10000000000000), y2: (99948, 100000) }
    } else if i == 9 {
        ReferenceRow { t: (40000000, 1), y0: (52009, 1000000000), y1: (20805, 100000000000000), y2: (99995, 100000) }
    } else if i == 10 {
        ReferenceRow { t: (400000000, 1), y0: (52012, 10000000000), y1: (20805, 1000000000000000), y2: (99999, 100000) }
    } else if i == 11 {
        ReferenceRow { t: (4000000000, 1), y0: (5185, 10000000000), y1: (2074, 1000000000000000), y2: (1, 1) }
    } else if i == 12 {
        ReferenceRow { t: (40000000000, 1), y0: (48641, 1000000000000), y1: (19456, 100000000000000000), y2: (1, 1) }
    } else {
        ReferenceRow { t: (0, 1), y0: (0, 1), y1: (0, 1), y2: (0, 1) }
    }
}

/// The kinetics with the rate constants 0.04, 1e4 and 3e7 from time zero,
/// with the relative tolerance 1e-4, the absolute tolerances 1e-8, 1e-6 and
/// 1e-6 and a first step size of one, and its reference solution.
pub fn robertson<T: Scalar>() -> (r: (OdeSolverProblem<T, Robertson<T>>, OdeSolverSolution<T>))
    ensures
        r.0.wf(),
        r.0.eqn.k1 == T::ratio_spec(4, 100),
        r.0.eqn.k2 == T::ratio_spec(10000, 1),
        r.0.eqn.k3 == T::ratio_spec(30000000, 1),
        r.0.rtol == T::ratio_spec(1, 10000),
        r.0.atol@ == seq![
            T::ratio_spec(1, 100000000),
            T::ratio_spec(1, 1000000),
            T::ratio_spec(1, 1000000),
        ],
        r.0.t0 == T::zero_spec(),
        r.0.h0 == T::one_spec(),
        r.1.solution_points@.len() == 13,
        forall|i: int|
            0 <= i < 13 ==> {
                &&& (#[trigger] r.1.solution_points@[i]).t == row_time_spec::<T>(
                    robertson_reference_spec(i),
                )
                &&& r.1.solution_points@[i].state@ == row_state_spec::<T>(robertson_reference_spec(i))
            },
{
    let mut atol: Vec<T> = Vec::new();
    atol.push(T::ratio(1, 100000000));
    atol.push(T::ratio(1, 1000000));
    atol.push(T::ratio(1, 1000000));
    assert(atol@ =~= seq![
        T::ratio_spec(1, 100000000),
        T::ratio_spec(1, 1000000),
        T::ratio_spec(1, 1000000),
    ]);
    let problem = OdeSolverProblem {
        eqn: Rc::new(
            Robertson {
                k1: T::ratio(4, 100),
                k2: T::ratio(10000, 1),
                k3: T::ratio(30000000, 1),
            },
        ),
        rtol: T::ratio(1, 10000),
        atol,
        t0: T::zero(),
        h0: T::one(),
    };
    let mut soln = OdeSolverSolution::new();
    let mut i: usize = 0;
    while i < 13
        invariant
            i <= 13,
            soln.solution_points@.len() == i,
            forall|j: int|
                0 <= j < i ==> {
                    &&& (#[trigger] soln.solution_points@[j]).t == row_time_spec::<T>(
                        robertson_reference_spec(j),
                    )
                    &&& soln.solution_points@[j].state@ == row_state_spec::<T>(robertson_reference_spec(j))
                },
        decreases 13 - i,
    {
        let point = row_point::<T>(robertson_reference(i));
        soln.push(point.state, point.t);
        i = i + 1;
    }
    (problem, soln)
}

} // verus!
