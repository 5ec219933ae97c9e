//! The coefficients of the Dormand-Prince 4(5) pair, as exact fractions.
//!
//! Seven stages share their derivative evaluations between two formulas: the
//! weights `BHAT` give the solution that is propagated, of fifth order, and the
//! weights `B` give the fourth-order solution whose distance from the first is
//! the error estimate. Each coefficient is kept as the quotient of two
//! integers that it is defined as; a caller divides the one by the other.

use vstd::prelude::*;

verus! {

/// The number of stages of one trial step.
pub const STAGES: usize = 7;

/// A coefficient: `num / den`, with `den` above zero.
#[derive(Clone, Copy, Debug, PartialEq, Eq, Structural)]
pub struct Fraction {
    pub num: i64,
    pub den: i64,
}

/// A rational number `num / den`, with `den` above zero.
pub struct Rational {
    pub num: int,
    pub den: int,
}

impl Rational {
    pub open spec fn plus(self, other: Rational) -> Rational {
        Rational { num: self.num * other.den + other.num * self.den, den: self.den * other.den }
    }

    pub open spec fn times(self, other: Rational) -> Rational {
        Rational { num: self.num * other.num, den: self.den * other.den }
    }

    /// The two are the same number.
    pub open spec fn same(self, other: Rational) -> bool {
        self.num * other.den == other.num * self.den
    }
}

impl View for Fraction {
    type V = Rational;

    open spec fn view(&self) -> Rational {
        Rational { num: self.num as int, den: self.den as int }
    }
}

/// The stage time fractions `C`: stage `i` is evaluated at `t + h * C[i]`.
pub open spec fn spec_c() -> Seq<Rational> {
    seq![
        Rational { num: 0, den: 1 },
        Rational { num: 1, den: 5 },
        Rational { num: 3, den: 10 },
        Rational { num: 4, den: 5 },
        Rational { num: 8, den: 9 },
        Rational { num: 1, den: 1 },
        Rational { num: 1, den: 1 },
    ]
}

/// The weights `BHAT` of the fifth-order solution.
pub open spec fn spec_bhat() -> Seq<Rational> {
    seq![
        Rational { num: 35, den: 384 },
        Rational { num: 0, den: 1 },
        Rational { num: 500, den: 1113 },
        Rational { num: 125, den: 192 },
        Rational { num: -2187, den: 6784 },
        Rational { num: 11, den: 84 },
        Rational { num: 0, den: 1 },
    ]
}

/// The weights `B` of the fourth-order solution.
pub open spec fn spec_b() -> Seq<Rational> {
    seq![
        Rational { num: 5179, den: 57600 },
        Rational { num: 0, den: 1 },
        Rational { num: 7571, den: 16695 },
        Rational { num: 393, den: 640 },
        Rational { num: -92097, den: 339200 },
        Rational { num: 187, den: 2100 },
        Rational { num: 1, den: 40 },
    ]
}

/// Row `i` of the stage-coupling matrix `A`, as far as it is not zero: the
/// state of stage `i` is the current state plus `h` times the sum of
/// `A[i][j]` times the derivative of stage `j`, over the stages `j` before `i`.
pub open spec fn spec_a_row(i: int) -> Seq<Rational> {
    if i == 1 {
        seq![Rational { num: 1, den: 5 }]
    } else if i == 2 {
        seq![Rational { num: 3, den: 40 }, Rational { num: 9, den: 40 }]
    } else if i == 3 {
        seq![
            Rational { num: 44, den: 45 },
            Rational { num: -56, den: 15 },
            Rational { num: 32, den: 9 },
        ]
    } else if i == 4 {
        seq![
            Rational { num: 19372, den: 6561 },
            Rational { num: -25360, den: 2187 },
            Rational { num: 64448, den: 6561 },
            Rational { num: -212, den: 729 },
        ]
    } else if i == 5 {
        seq![
            Rational { num: 9017, den: 3168 },
            Rational { num: -355, den: 33 },
            Rational { num: 46732, den: 5247 },
            Rational { num: 49, den: 176 },
            Rational { num: -5103, den: 18656 },
        ]
    } else if i == 6 {
        seq![
            Rational { num: 35, den: 384 },
            Rational { num: 0, den: 1 },
            Rational { num: 500, den: 1113 },
            Rational { num: 125, den: 192 },
            Rational { num: -2187, den: 6784 },
            Rational { num: 11, den: 84 },
        ]
    } else {
        seq![]
    }
}

/// The entry `A[i][j]`: zero on and above the diagonal.
pub open spec fn spec_a(i: int, j: int) -> Rational {
    if 0 <= j < i {
        spec_a_row(i)[j]
    } else {
        Rational { num: 0, den: 1 }
    }
}

/// The sum of the first `n` of the terms.
pub open spec fn sum(terms: Seq<Rational>, n: nat) -> Rational
    decreases n,
{
    if n == 0 {
        Rational { num: 0, den: 1 }
    } else {
        sum(terms, (n - 1) as nat).plus(terms[n - 1])
    }
}

/// `base` to the power `k`.
pub open spec fn power(base: Rational, k: nat) -> Rational
    decreases k,
{
    if k == 0 {
        Rational { num: 1, den: 1 }
    } else {
        power(base, (k - 1) as nat).times(base)
    }
}

/// For each stage, its weight times the `k`-th power of its time fraction.
pub open spec fn moments(weights: Seq<Rational>, k: nat) -> Seq<Rational> {
    Seq::new(STAGES as nat, |i: int| weights[i].times(power(spec_c()[i], k)))
}

/// The stage time fraction `C[i]`.
pub fn c(i: usize) -> (r: Fraction)
    requires
        i < STAGES,
    ensures
        r@ == spec_c()[i as int],
{
    match i {
        0 => Fraction { num: 0, den: 1 },
        1 => Fraction { num: 1, den: 5 },
        2 => Fraction { num: 3, den: 10 },
        3 => Fraction { num: 4, den: 5 },
        4 => Fraction { num: 8, den: 9 },
        _ => Fraction { num: 1, den: 1 },
    }
}

/// The fifth-order weight `BHAT[i]`.
pub fn bhat(i: usize) -> (r: Fraction)
    requires
        i < STAGES,
    ensures
        r@ == spec_bhat()[i as int],
{
    match i {
        0 => Fraction { num: 35, den: 384 },
        2 => Fraction { num: 500, den: 1113 },
        3 => Fraction { num: 125, den: 192 },
        4 => Fraction { num: -2187, den: 6784 },
        5 => Fraction { num: 11, den: 84 },
        _ => Fraction { num: 0, den: 1 },
    }
}

/// The fourth-order weight `B[i]`.
pub fn b(i: usize) -> (r: Fraction)
    requires
        i < STAGES,
    ensures
        r@ == spec_b()[i as int],
{
    match i {
        0 => Fraction { num: 5179, den: 57600 },
        2 => Fraction { num: 7571, den: 16695 },
        3 => Fraction { num: 393, den: 640 },
        4 => Fraction { num: -92097, den: 339200 },
        5 => Fraction { num: 187, den: 2100 },
        6 => Fraction { num: 1, den: 40 },
        _ => Fraction { num: 0, den: 1 },
    }
}

/// The coupling coefficient `A[i][j]`.
pub fn a(i: usize, j: usize) -> (r: Fraction)
    requires
        i < STAGES,
        j < STAGES,
    ensures
        r@ == spec_a(i as int, j as int),
{
    if j >= i {
        return Fraction { num: 0, den: 1 };
    }
    match i {
        1 => Fraction { num: 1, den: 5 },
        2 => match j {
            0 => Fraction { num: 3, den: 40 },
            _ => Fraction { num: 9, den: 40 },
        },
        3 => match j {
            0 => Fraction { num: 44, den: 45 },
            1 => Fraction { num: -56, den: 15 },
            _ => Fraction { num: 32, den: 9 },
        },
        4 => match j {
            0 => Fraction { num: 19372, den: 6561 },
            1 => Fraction { num: -25360, den: 2187 },
            2 => Fraction { num: 64448, den: 6561 },
            _ => Fraction { num: -212, den: 729 },
        },
        5 => match j {
            0 => Fraction { num: 9017, den: 3168 },
            1 => Fraction { num: -355, den: 33 },
            2 => Fraction { num: 46732, den: 5247 },
            3 => Fraction { num: 49, den: 176 },
            _ => Fraction { num: -5103, den: 18656 },
        },
        _ => match j {
            0 => Fraction { num: 35, den: 384 },
            1 => Fraction { num: 0, den: 1 },
            2 => Fraction { num: 500, den: 1113 },
            3 => Fraction { num: 125, den: 192 },
            4 => Fraction { num: -2187, den: 6784 },
            _ => Fraction { num: 11, den: 84 },
        },
    }
}

/// Every coefficient has a denominator above zero, and row `i` of `A` has its
/// `i` entries before the diagonal.
pub proof fn lemma_coefficients_in_order(i: int, j: int)
    requires
        0 <= i < STAGES,
        0 <= j < STAGES,
    ensures
        spec_c().len() == STAGES,
        spec_b().len() == STAGES,
        spec_bhat().len() == STAGES,
        spec_a_row(i).len() == i,
        spec_c()[i].den > 0,
        spec_b()[i].den > 0,
        spec_bhat()[i].den > 0,
        spec_a(i, j).den > 0,
{
}

/// `A` is strictly lower triangular: a stage couples to earlier stages only.
pub proof fn lemma_lower_triangular(i: int, j: int)
    requires
        0 <= i <= j < STAGES,
    ensures
        spec_a(i, j).num == 0,
{
}

/// The last row of `A` holds the fifth-order weights, and the last stage is
/// timed at the end of the step: the seventh stage is evaluated at the sample
/// that the step propagates to.
pub proof fn lemma_last_row_is_bhat(j: int)
    requires
        0 <= j < STAGES,
    ensures
        spec_a(STAGES - 1, j) == spec_bhat()[j],
        spec_c()[STAGES - 1] == (Rational { num: 1, den: 1 }),
{
}

/// The stage times lie within the step: the first fraction is zero, and each
/// is between zero and one.
pub proof fn lemma_stage_times_within_step(i: int)
    requires
        0 <= i < STAGES,
    ensures
        spec_c()[0].num == 0,
        0 <= spec_c()[i].num <= spec_c()[i].den,
{
}

/// Each row of `A` sums to the time fraction of its stage: a derivative that
/// does not change puts every stage on the line through the current state.
#[verifier::nonlinear]
pub proof fn lemma_rows_sum_to_c(i: int)
    requires
        0 <= i < STAGES,
    ensures
        sum(spec_a_row(i), i as nat).same(spec_c()[i]),
{
    reveal_with_fuel(sum, 7);
    if i == 1 {
        assert(sum(spec_a_row(1), 1).same(spec_c()[1]));
    } else if i == 2 {
        assert(sum(spec_a_row(2), 2).same(spec_c()[2]));
    } else if i == 3 {
        assert(sum(spec_a_row(3), 3).same(spec_c()[3]));
    } else if i == 4 {
        assert(sum(spec_a_row(4), 4).same(spec_c()[4]));
    } else if i == 5 {
        assert(sum(spec_a_row(5), 5).same(spec_c()[5]));
    } else if i == 6 {
        assert(sum(spec_a_row(6), 6).same(spec_c()[6]));
    }
}

/// Both sets of weights sum to one, so the error weights `B - BHAT` sum to
/// zero: a derivative that does not change is integrated without error.
#[verifier::nonlinear]
pub proof fn lemma_weights_sum_to_one()
    ensures
        sum(spec_bhat(), STAGES as nat).same(Rational { num: 1, den: 1 }),
        sum(spec_b(), STAGES as nat).same(Rational { num: 1, den: 1 }),
{
    reveal_with_fuel(sum, 8);
}

/// The powers of the stage time fractions, worked out.
#[verifier::nonlinear]
proof fn lemma_powers_of_c()
    ensures
        power(Rational { num: 0, den: 1 }, 1) == (Rational { num: 0, den: 1 }),
        power(Rational { num: 0, den: 1 }, 2) == (Rational { num: 0, den: 1 }),
        power(Rational { num: 0, den: 1 }, 3) == (Rational { num: 0, den: 1 }),
        power(Rational { num: 0, den: 1 }, 4) == (Rational { num: 0, den: 1 }),
        power(Rational { num: 1, den: 5 }, 1) == (Rational { num: 1, den: 5 }),
        power(Rational { num: 1, den: 5 }, 2) == (Rational { num: 1, den: 25 }),
        power(Rational { num: 1, den: 5 }, 3) == (Rational { num: 1, den: 125 }),
        power(Rational { num: 1, den: 5 }, 4) == (Rational { num: 1, den: 625 }),
        power(Rational { num: 3, den: 10 }, 1) == (Rational { num: 3, den: 10 }),
        power(Rational { num: 3, den: 10 }, 2) == (Rational { num: 9, den: 100 }),
        power(Rational { num: 3, den: 10 }, 3) == (Rational { num: 27, den: 1000 }),
        power(Rational { num: 3, den: 10 }, 4) == (Rational { num: 81, den: 10000 }),
        power(Rational { num: 4, den: 5 }, 1) == (Rational { num: 4, den: 5 }),
        power(Rational { num: 4, den: 5 }, 2) == (Rational { num: 16, den: 25 }),
        power(Rational { num: 4, den: 5 }, 3) == (Rational { num: 64, den: 125 }),
        power(Rational { num: 4, den: 5 }, 4) == (Rational { num: 256, den: 625 }),
        power(Rational { num: 8, den: 9 }, 1) == (Rational { num: 8, den: 9 }),
        power(Rational { num: 8, den: 9 }, 2) == (Rational { num: 64, den: 81 }),
        power(Rational { num: 8, den: 9 }, 3) == (Rational { num: 512, den: 729 }),
        power(Rational { num: 8, den: 9 }, 4) == (Rational { num: 4096, den: 6561 }),
        power(Rational { num: 1, den: 1 }, 1) == (Rational { num: 1, den: 1 }),
        power(Rational { num: 1, den: 1 }, 2) == (Rational { num: 1, den: 1 }),
        power(Rational { num: 1, den: 1 }, 3) == (Rational { num: 1, den: 1 }),
        power(Rational { num: 1, den: 1 }, 4) == (Rational { num: 1, den: 1 }),
{
    reveal_with_fuel(power, 5);
}

/// The moment of degree 0 of the fifth-order weights, term by term.
#[verifier::nonlinear]
proof fn lemma_bhat_moment_0()
    ensures
        sum(moments(spec_bhat(), 0), STAGES as nat).same(Rational { num: 1, den: 1 }),
{
    let terms = moments(spec_bhat(), 0);
    assert(terms[0] == Rational { num: 35, den: 384 });
    assert(terms[1] == Rational { num: 0, den: 1 });
    assert(terms[2] == Rational { num: 500, den: 1113 });
    assert(terms[3] == Rational { num: 125, den: 192 });
    assert(terms[4] == Rational { num: -2187, den: 6784 });
    assert(terms[5] == Rational { num: 11, den: 84 });
    assert(terms[6] == Rational { num: 0, den: 1 });
    reveal_with_fuel(sum, 8);
}

/// The moment of degree 1 of the fifth-order weights, term by term.
#[verifier::nonlinear]
proof fn lemma_bhat_moment_1()
    ensures
        sum(moments(spec_bhat(), 1), STAGES as nat).same(Rational { num: 1, den: 2 }),
{
    lemma_powers_of_c();
    let terms = moments(spec_bhat(), 1);
    assert(terms[0] == Rational { num: 0, den: 384 });
    assert(terms[1] == Rational { num: 0, den: 5 });
    assert(terms[2] == Rational { num: 1500, den: 11130 });
    assert(terms[3] == Rational { num: 500, den: 960 });
    assert(terms[4] == Rational { num: -17496, den: 61056 });
    assert(terms[5] == Rational { num: 11, den: 84 });
    assert(terms[6] == Rational { num: 0, den: 1 });
    reveal_with_fuel(sum, 8);
}

/// The moment of degree 2 of the fifth-order weights, term by term.
#[verifier::nonlinear]
proof fn lemma_bhat_moment_2()
    ensures
        sum(moments(spec_bhat(), 2), STAGES as nat).same(Rational { num: 1, den: 3 }),
{
    lemma_powers_of_c();
    let terms = moments(spec_bhat(), 2);
    assert(terms[0] == Rational { num: 0, den: 384 });
    assert(terms[1] == Rational { num: 0, den: 25 });
    assert(terms[2] == Rational { num: 4500, den: 111300 });
    assert(terms[3] == Rational { num: 2000, den: 4800 });
    assert(terms[4] == Rational { num: -139968, den: 549504 });
    assert(terms[5] == Rational { num: 11, den: 84 });
    assert(terms[6] == Rational { num: 0, den: 1 });
    reveal_with_fuel(sum, 8);
}

/// The moment of degree 3 of the fifth-order weights, term by term.
#[verifier::nonlinear]
proof fn lemma_bhat_moment_3()
    ensures
        sum(moments(spec_bhat(), 3), STAGES as nat).same(Rational { num: 1, den: 4 }),
{
    lemma_powers_of_c();
    let terms = moments(spec_bhat(), 3);
    assert(terms[0] == Rational { num: 0, den: 384 });
    assert(terms[1] == Rational { num: 0, den: 125 });
    assert(terms[2] == Rational { num: 13500, den: 1113000 });
    assert(terms[3] == Rational { num: 8000, den: 24000 });
    assert(terms[4] == Rational { num: -1119744, den: 4945536 });
    assert(terms[5] == Rational { num: 11, den: 84 });
    assert(terms[6] == Rational { num: 0, den: 1 });
    reveal_with_fuel(sum, 8);
}

/// The moment of degree 4 of the fifth-order weights, term by term.
#[verifier::nonlinear]
proof fn lemma_bhat_moment_4()
    ensures
        sum(moments(spec_bhat(), 4), STAGES as nat).same(Rational { num: 1, den: 5 }),
{
    lemma_powers_of_c();
    let terms = moments(spec_bhat(), 4);
    assert(terms[0] == Rational { num: 0, den: 384 });
    assert(terms[1] == Rational { num: 0, den: 625 });
    assert(terms[2] == Rational { num: 40500, den: 11130000 });
    assert(terms[3] == Rational { num: 32000, den: 120000 });
    assert(terms[4] == Rational { num: -8957952, den: 44509824 });
    assert(terms[5] == Rational { num: 11, den: 84 });
    assert(terms[6] == Rational { num: 0, den: 1 });
    reveal_with_fuel(sum, 8);
}

/// The moment of degree 0 of the fourth-order weights, term by term.
#[verifier::nonlinear]
proof fn lemma_b_moment_0()
    ensures
        sum(moments(spec_b(), 0), STAGES as nat).same(Rational { num: 1, den: 1 }),
{
    let terms = moments(spec_b(), 0);
    assert(terms[0] == Rational { num: 5179, den: 57600 });
    assert(terms[1] == Rational { num: 0, den: 1 });
    assert(terms[2] == Rational { num: 7571, den: 16695 });
    assert(terms[3] == Rational { num: 393, den: 640 });
    assert(terms[4] == Rational { num: -92097, den: 339200 });
    assert(terms[5] == Rational { num: 187, den: 2100 });
    assert(terms[6] == Rational { num: 1, den: 40 });
    reveal_with_fuel(sum, 8);
}

/// The moment of degree 1 of the fourth-order weights, term by term.
#[verifier::nonlinear]
proof fn lemma_b_moment_1()
    ensures
        sum(moments(spec_b(), 1), STAGES as nat).same(Rational { num: 1, den: 2 }),
{
    lemma_powers_of_c();
    let terms = moments(spec_b(), 1);
    assert(terms[0] == Rational { num: 0, den: 57600 });
    assert(terms[1] == Rational { num: 0, den: 5 });
    assert(terms[2] == Rational { num: 22713, den: 166950 });
    assert(terms[3] == Rational { num: 1572, den: 3200 });
    assert(terms[4] == Rational { num: -736776, den: 3052800 });
    assert(terms[5] == Rational { num: 187, den: 2100 });
    assert(terms[6] == Rational { num: 1, den: 40 });
    reveal_with_fuel(sum, 8);
}

/// The moment of degree 2 of the fourth-order weights, term by term.
#[verifier::nonlinear]
proof fn lemma_b_moment_2()
    ensures
        sum(moments(spec_b(), 2), STAGES as nat).same(Rational { num: 1, den: 3 }),
{
    lemma_powers_of_c();
    let terms = moments(spec_b(), 2);
    assert(terms[0] == Rational { num: 0, den: 57600 });
    assert(terms[1] == Rational { num: 0, den: 25 });
    assert(terms[2] == Rational { num: 68139, den: 1669500 });
    assert(terms[3] == Rational { num: 6288, den: 16000 });
    assert(terms[4] == Rational { num: -5894208, den: 27475200 });
    assert(terms[5] == Rational { num: 187, den: 2100 });
    assert(terms[6] == Rational { num: 1, den: 40 });
    reveal_with_fuel(sum, 8);
}

/// The moment of degree 3 of the fourth-order weights, term by term.
#[verifier::nonlinear]
proof fn lemma_b_moment_3()
    ensures
        sum(moments(spec_b(), 3), STAGES as nat).same(Rational { num: 1, den: 4 }),
{
    lemma_powers_of_c();
    let terms = moments(spec_b(), 3);
    assert(terms[0] == Rational { num: 0, den: 57600 });
    assert(terms[1] == Rational { num: 0, den: 125 });
    assert(terms[2] == Rational { num: 204417, den: 16695000 });
    assert(terms[3] == Rational { num: 25152, den: 80000 });
    assert(terms[4] == Rational { num: -47153664, den: 247276800 });
    assert(terms[5] == Rational { num: 187, den: 2100 });
    assert(terms[6] == Rational { num: 1, den: 40 });
    reveal_with_fuel(sum, 8);
}

/// The weights integrate the powers of the time as far as their order asks:
/// the sum of `BHAT[i] * C[i]^k` is `1 / (k + 1)` up to the fourth power, that
/// of `B[i] * C[i]^k` up to the third.
pub proof fn lemma_quadrature(k: nat)
    requires
        k <= 4,
    ensures
        sum(moments(spec_bhat(), k), STAGES as nat).same(Rational { num: 1, den: k as int + 1 }),
        k <= 3 ==> sum(moments(spec_b(), k), STAGES as nat).same(
            Rational { num: 1, den: k as int + 1 },
        ),
{
    if k == 0 {
        lemma_bhat_moment_0();
        lemma_b_moment_0();
    } else if k == 1 {
        lemma_bhat_moment_1();
        lemma_b_moment_1();
    } else if k == 2 {
        lemma_bhat_moment_2();
        lemma_b_moment_2();
    } else if k == 3 {
        lemma_bhat_moment_3();
        lemma_b_moment_3();
    } else {
        lemma_bhat_moment_4();
    }
}

} // verus!
