//! The Dormand-Prince 5(4) Butcher tableau, held as exact rationals.
//!
//! Each row of the stage matrix, and each weight vector, is written over one
//! common denominator, so that the consistency and order conditions of the
//! method are statements about integers.
use vstd::prelude::*;

verus! {

/// An exact rational number `num / den` (not necessarily in lowest terms).
#[derive(Clone, Copy, Debug, PartialEq, Eq, Structural)]
pub struct Ratio {
    pub num: i64,
    pub den: u64,
}

/// Number of stages of the method.
pub const STAGES: usize = 7;

/// Common denominator of the stage abscissas.
pub const C_DEN: u64 = 90;

/// Common denominator of the fifth-order weights.
pub const B5_DEN: u64 = 142464;

/// Common denominator of the fourth-order weights and of the error weights.
pub const B4_DEN: u64 = 21369600;

/// Numerator of the stage abscissa `c[i]` over `C_DEN`.
pub open spec fn c_num(i: int) -> int {
    if i == 0 { 0 }
    else if i == 1 { 18 }
    else if i == 2 { 27 }
    else if i == 3 { 72 }
    else if i == 4 { 80 }
    else { 90 }
}

/// Common denominator of row `i` of the stage matrix.
pub open spec fn a_den(i: int) -> int {
    if i == 1 { 5 }
    else if i == 2 { 40 }
    else if i == 3 { 45 }
    else if i == 4 { 6561 }
    else if i == 5 { 167904 }
    else if i == 6 { B5_DEN as int }
    else { 1 }
}

/// Numerator of the stage coefficient `a[i][j]` over `a_den(i)`; zero on and
/// above the diagonal.
pub open spec fn a_num(i: int, j: int) -> int {
    if j < 0 || j >= i { 0 }
    else if i == 1 { 1 }
    else if i == 2 {
        if j == 0 { 3 } else { 9 }
    } else if i == 3 {
        if j == 0 { 44 } else if j == 1 { -168 } else { 160 }
    } else if i == 4 {
        if j == 0 { 19372 } else if j == 1 { -76080 } else if j == 2 { 64448 } else { -1908 }
    } else if i == 5 {
        if j == 0 { 477901 }
        else if j == 1 { -1806240 }
        else if j == 2 { 1495424 }
        else if j == 3 { 46746 }
        else { -45927 }
    } else if i == 6 {
        b5_num(j)
    } else {
        0
    }
}

/// Numerator of the fifth-order weight `b5[i]` over `B5_DEN`.
pub open spec fn b5_num(i: int) -> int {
    if i == 0 { 12985 }
    else if i == 2 { 64000 }
    else if i == 3 { 92750 }
    else if i == 4 { -45927 }
    else if i == 5 { 18656 }
    else { 0 }
}

/// Numerator of the fourth-order weight `b4[i]` over `B4_DEN`.
pub open spec fn b4_num(i: int) -> int {
    if i == 0 { 1921409 }
    else if i == 2 { 9690880 }
    else if i == 3 { 13122270 }
    else if i == 4 { -5802111 }
    else if i == 5 { 1902912 }
    else if i == 6 { 534240 }
    else { 0 }
}

/// `w(0) + ... + w(6)` for a weight `w` given stage by stage.
pub open spec fn sum7(x0: int, x1: int, x2: int, x3: int, x4: int, x5: int, x6: int) -> int {
    x0 + x1 + x2 + x3 + x4 + x5 + x6
}

/// Sum of the numerators of row `i` of the stage matrix.
pub open spec fn row_sum(i: int) -> int {
    sum7(a_num(i, 0), a_num(i, 1), a_num(i, 2), a_num(i, 3), a_num(i, 4), a_num(i, 5), a_num(i, 6))
}

/// Numerator of `sum_i b5[i] * c[i]^k` over `B5_DEN * C_DEN^k`.
pub open spec fn b5_moment(k: nat) -> int {
    sum7(
        b5_num(0) * pow(c_num(0), k), b5_num(1) * pow(c_num(1), k), b5_num(2) * pow(c_num(2), k),
        b5_num(3) * pow(c_num(3), k), b5_num(4) * pow(c_num(4), k), b5_num(5) * pow(c_num(5), k),
        b5_num(6) * pow(c_num(6), k),
    )
}

/// Numerator of `sum_i b4[i] * c[i]^k` over `B4_DEN * C_DEN^k`.
pub open spec fn b4_moment(k: nat) -> int {
    sum7(
        b4_num(0) * pow(c_num(0), k), b4_num(1) * pow(c_num(1), k), b4_num(2) * pow(c_num(2), k),
        b4_num(3) * pow(c_num(3), k), b4_num(4) * pow(c_num(4), k), b4_num(5) * pow(c_num(5), k),
        b4_num(6) * pow(c_num(6), k),
    )
}

/// `x^k` on integers.
pub open spec fn pow(x: int, k: nat) -> int
    decreases k,
{
    if k == 0 { 1 } else { x * pow(x, (k - 1) as nat) }
}

/// The powers of the abscissa numerators that the quadrature conditions use.
proof fn lemma_small_powers(k: nat)
    requires
        k < 5,
    ensures
        pow(0, k) == if k == 0 { 1int } else { 0int },
        pow(18, k) == if k == 0 { 1int } else if k == 1 { 18int } else if k == 2 { 324int } else if k == 3 { 5832int } else { 104976int },
        pow(27, k) == if k == 0 { 1int } else if k == 1 { 27int } else if k == 2 { 729int } else if k == 3 { 19683int } else { 531441int },
        pow(72, k) == if k == 0 { 1int } else if k == 1 { 72int } else if k == 2 { 5184int } else if k == 3 { 373248int } else { 26873856int },
        pow(80, k) == if k == 0 { 1int } else if k == 1 { 80int } else if k == 2 { 6400int } else if k == 3 { 512000int } else { 40960000int },
        pow(90, k) == if k == 0 { 1int } else if k == 1 { 90int } else if k == 2 { 8100int } else if k == 3 { 729000int } else { 65610000int },
{
    reveal_with_fuel(pow, 5);
}

/// Every stage's coefficients sum to its abscissa: `sum_j a[i][j] == c[i]`.
pub proof fn lemma_row_sums()
    ensures
        forall|i: int| 0 <= i < 7 ==> #[trigger] row_sum(i) * C_DEN == c_num(i) * a_den(i),
{
    assert(row_sum(0) * C_DEN == c_num(0) * a_den(0));
    assert(row_sum(1) * C_DEN == c_num(1) * a_den(1));
    assert(row_sum(2) * C_DEN == c_num(2) * a_den(2));
    assert(row_sum(3) * C_DEN == c_num(3) * a_den(3));
    assert(row_sum(4) * C_DEN == c_num(4) * a_den(4));
    assert(row_sum(5) * C_DEN == c_num(5) * a_den(5));
    assert(row_sum(6) * C_DEN == c_num(6) * a_den(6));
}

/// The fifth-order weights integrate `t^k` exactly on `[0, 1]` for `k < 5`:
/// `sum_i b5[i] * c[i]^k == 1 / (k + 1)`.
pub proof fn lemma_b5_quadrature(k: nat)
    requires
        k < 5,
    ensures
        b5_moment(k) * (k + 1) == B5_DEN * pow(C_DEN as int, k),
{
    reveal_with_fuel(pow, 5);
    lemma_small_powers(k);
    if k == 0 {
        assert(b5_moment(0) * 1 == B5_DEN * pow(C_DEN as int, 0));
    } else if k == 1 {
        assert(b5_moment(1) * 2 == B5_DEN * pow(C_DEN as int, 1));
    } else if k == 2 {
        assert(b5_moment(2) * 3 == B5_DEN * pow(C_DEN as int, 2));
    } else if k == 3 {
        assert(b5_moment(3) * 4 == B5_DEN * pow(C_DEN as int, 3));
    } else if k == 4 {
        assert(b5_moment(4) * 5 == B5_DEN * pow(C_DEN as int, 4));
    }
}

/// The fourth-order weights integrate `t^k` exactly on `[0, 1]` for `k < 4`:
/// `sum_i b4[i] * c[i]^k == 1 / (k + 1)`.
pub proof fn lemma_b4_quadrature(k: nat)
    requires
        k < 4,
    ensures
        b4_moment(k) * (k + 1) == B4_DEN * pow(C_DEN as int, k),
{
    reveal_with_fuel(pow, 4);
    lemma_small_powers(k);
    if k == 0 {
        assert(b4_moment(0) * 1 == B4_DEN * pow(C_DEN as int, 0));
    } else if k == 1 {
        assert(b4_moment(1) * 2 == B4_DEN * pow(C_DEN as int, 1));
    } else if k == 2 {
        assert(b4_moment(2) * 3 == B4_DEN * pow(C_DEN as int, 2));
    } else if k == 3 {
        assert(b4_moment(3) * 4 == B4_DEN * pow(C_DEN as int, 3));
    }
}

/// First same as last: the last stage is evaluated at the step's end point
/// with the fifth-order weights, so its derivative starts the next step.
pub proof fn lemma_first_same_as_last()
    ensures
        c_num(6) == C_DEN,
        a_den(6) == B5_DEN,
        forall|j: int| 0 <= j < 7 ==> #[trigger] a_num(6, j) == b5_num(j),
        b5_num(6) == 0,
{
}

/// Numerator of `sum_j a[i][j] * c[j]^m` over `a_den(i) * C_DEN^m`.
pub open spec fn row_moment(i: int, m: nat) -> int {
    sum7(
        a_num(i, 0) * pow(c_num(0), m), a_num(i, 1) * pow(c_num(1), m),
        a_num(i, 2) * pow(c_num(2), m), a_num(i, 3) * pow(c_num(3), m),
        a_num(i, 4) * pow(c_num(4), m), a_num(i, 5) * pow(c_num(5), m),
        a_num(i, 6) * pow(c_num(6), m),
    )
}

/// From the third stage on, each stage integrates `t` and `t^2` exactly on
/// `[0, c[i]]`: `sum_j a[i][j] * c[j] == c[i]^2 / 2` and
/// `sum_j a[i][j] * c[j]^2 == c[i]^3 / 3`.
pub proof fn lemma_stage_conditions()
    ensures
        forall|i: int| 2 <= i < 7 ==> #[trigger] row_moment(i, 1) * 180 == c_num(i) * c_num(i) * a_den(i),
        forall|i: int| 2 <= i < 7 ==> #[trigger] row_moment(i, 2) * 270 == c_num(i) * c_num(i) * c_num(i) * a_den(i),
{
    reveal_with_fuel(pow, 3);
    lemma_small_powers(1);
    lemma_small_powers(2);
    assert(row_moment(2, 1) * 180 == c_num(2) * c_num(2) * a_den(2));
    assert(row_moment(3, 1) * 180 == c_num(3) * c_num(3) * a_den(3));
    assert(row_moment(4, 1) * 180 == c_num(4) * c_num(4) * a_den(4));
    assert(row_moment(5, 1) * 180 == c_num(5) * c_num(5) * a_den(5));
    assert(row_moment(6, 1) * 180 == c_num(6) * c_num(6) * a_den(6));
    assert(row_moment(2, 2) * 270 == c_num(2) * c_num(2) * c_num(2) * a_den(2));
    assert(row_moment(3, 2) * 270 == c_num(3) * c_num(3) * c_num(3) * a_den(3));
    assert(row_moment(4, 2) * 270 == c_num(4) * c_num(4) * c_num(4) * a_den(4));
    assert(row_moment(5, 2) * 270 == c_num(5) * c_num(5) * c_num(5) * a_den(5));
    assert(row_moment(6, 2) * 270 == c_num(6) * c_num(6) * c_num(6) * a_den(6));
}

/// A common multiple of all row denominators.
pub open spec fn rows_lcm() -> int {
    17136282240
}

/// `rows_lcm() / a_den(i)`.
pub open spec fn row_scale(i: int) -> int {
    if i == 1 { 3427256448 }
    else if i == 2 { 428407056 }
    else if i == 3 { 380806272 }
    else if i == 4 { 2611840 }
    else if i == 5 { 102060 }
    else if i == 6 { 120285 }
    else { rows_lcm() }
}

/// Numerator, over `rows_lcm() * B5_DEN`, of `sum_i b5[i] * a[i][1]`.
pub open spec fn b5_second_stage_coupling() -> int {
    sum7(
        b5_num(0) * a_num(0, 1) * row_scale(0), b5_num(1) * a_num(1, 1) * row_scale(1),
        b5_num(2) * a_num(2, 1) * row_scale(2), b5_num(3) * a_num(3, 1) * row_scale(3),
        b5_num(4) * a_num(4, 1) * row_scale(4), b5_num(5) * a_num(5, 1) * row_scale(5),
        b5_num(6) * a_num(6, 1) * row_scale(6),
    )
}

/// Numerator, over `rows_lcm() * B4_DEN`, of `sum_i b4[i] * a[i][1]`.
pub open spec fn b4_second_stage_coupling() -> int {
    sum7(
        b4_num(0) * a_num(0, 1) * row_scale(0), b4_num(1) * a_num(1, 1) * row_scale(1),
        b4_num(2) * a_num(2, 1) * row_scale(2), b4_num(3) * a_num(3, 1) * row_scale(3),
        b4_num(4) * a_num(4, 1) * row_scale(4), b4_num(5) * a_num(5, 1) * row_scale(5),
        b4_num(6) * a_num(6, 1) * row_scale(6),
    )
}

/// The second stage, which alone breaks the stage conditions, carries no
/// weight in either solution, directly or through a later stage:
/// `b[1] == 0` and `sum_i b[i] * a[i][1] == 0` for both weight vectors.
pub proof fn lemma_second_stage_unused()
    ensures
        forall|i: int| 0 <= i < 7 ==> #[trigger] row_scale(i) * a_den(i) == rows_lcm(),
        b5_num(1) == 0,
        b4_num(1) == 0,
        b5_second_stage_coupling() == 0,
        b4_second_stage_coupling() == 0,
{
    assert(row_scale(0) * a_den(0) == rows_lcm());
    assert(row_scale(1) * a_den(1) == rows_lcm());
    assert(row_scale(2) * a_den(2) == rows_lcm());
    assert(row_scale(3) * a_den(3) == rows_lcm());
    assert(row_scale(4) * a_den(4) == rows_lcm());
    assert(row_scale(5) * a_den(5) == rows_lcm());
    assert(row_scale(6) * a_den(6) == rows_lcm());
}

/// Numerator, over `B5_DEN * rows_lcm() * C_DEN`, of `sum_{i,j} b5[i] * a[i][j] * c[j]`.
pub open spec fn b5_tree3() -> int {
    sum7(
        b5_num(0) * row_moment(0, 1) * row_scale(0),
        b5_num(1) * row_moment(1, 1) * row_scale(1),
        b5_num(2) * row_moment(2, 1) * row_scale(2),
        b5_num(3) * row_moment(3, 1) * row_scale(3),
        b5_num(4) * row_moment(4, 1) * row_scale(4),
        b5_num(5) * row_moment(5, 1) * row_scale(5),
        b5_num(6) * row_moment(6, 1) * row_scale(6),
    )
}

/// Numerator, over `B4_DEN * rows_lcm() * C_DEN`, of `sum_{i,j} b4[i] * a[i][j] * c[j]`.
pub open spec fn b4_tree3() -> int {
    sum7(
        b4_num(0) * row_moment(0, 1) * row_scale(0),
        b4_num(1) * row_moment(1, 1) * row_scale(1),
        b4_num(2) * row_moment(2, 1) * row_scale(2),
        b4_num(3) * row_moment(3, 1) * row_scale(3),
        b4_num(4) * row_moment(4, 1) * row_scale(4),
        b4_num(5) * row_moment(5, 1) * row_scale(5),
        b4_num(6) * row_moment(6, 1) * row_scale(6),
    )
}

/// Both solutions meet the third-order condition that involves the stage
/// matrix: `sum_{i,j} b[i] * a[i][j] * c[j] == 1 / 6`.
pub proof fn lemma_third_order_tree()
    ensures
        b5_tree3() * 6 == B5_DEN * rows_lcm() * C_DEN,
        b4_tree3() * 6 == B4_DEN * rows_lcm() * C_DEN,
{
    reveal_with_fuel(pow, 2);
    lemma_small_powers(1);
    assert(row_moment(0, 1) == 0);
    assert(row_moment(1, 1) == 0);
    assert(row_moment(2, 1) == 162);
    assert(row_moment(3, 1) == 1296);
    assert(row_moment(4, 1) == 233280);
    assert(row_moment(5, 1) == 7555680);
    assert(row_moment(6, 1) == 6410880);
    assert(b5_tree3() == 36619549695590400);
}

/// The stage abscissa `c[i]`, over `C_DEN`.
pub fn abscissa(i: usize) -> (r: Ratio)
    requires
        i < STAGES,
    ensures
        r.num == c_num(i as int),
        r.den == C_DEN,
{
    let num: i64 = match i {
        0 => 0,
        1 => 18,
        2 => 27,
        3 => 72,
        4 => 80,
        _ => 90,
    };
    Ratio { num, den: C_DEN }
}

/// The fifth-order weight `b5[i]`, over `B5_DEN`.
pub fn weight5(i: usize) -> (r: Ratio)
    requires
        i < STAGES,
    ensures
        r.num == b5_num(i as int),
        r.den == B5_DEN,
{
    let num: i64 = match i {
        0 => 12985,
        2 => 64000,
        3 => 92750,
        4 => -45927,
        5 => 18656,
        _ => 0,
    };
    Ratio { num, den: B5_DEN }
}

/// The fourth-order weight `b4[i]`, over `B4_DEN`.
pub fn weight4(i: usize) -> (r: Ratio)
    requires
        i < STAGES,
    ensures
        r.num == b4_num(i as int),
        r.den == B4_DEN,
{
    let num: i64 = match i {
        0 => 1921409,
        2 => 9690880,
        3 => 13122270,
        4 => -5802111,
        5 => 1902912,
        6 => 534240,
        _ => 0,
    };
    Ratio { num, den: B4_DEN }
}

/// The error weight `b5[i] - b4[i]`, over `B4_DEN` (a multiple of `B5_DEN`).
pub fn error_weight(i: usize) -> (r: Ratio)
    requires
        i < STAGES,
    ensures
        r.num * B5_DEN == (b5_num(i as int) * B4_DEN - b4_num(i as int) * B5_DEN),
        r.den == B4_DEN,
{
    let b5 = weight5(i);
    let b4 = weight4(i);
    Ratio { num: b5.num * 150 - b4.num, den: B4_DEN }
}

/// The stage coefficient `a[i][j]`, over `a_den(i)`; zero where `j >= i`.
pub fn stage_coefficient(i: usize, j: usize) -> (r: Ratio)
    requires
        i < STAGES,
        j < STAGES,
    ensures
        r.num == a_num(i as int, j as int),
        r.den == a_den(i as int),
{
    let den: u64 = match i {
        1 => 5,
        2 => 40,
        3 => 45,
        4 => 6561,
        5 => 167904,
        6 => B5_DEN,
        _ => 1,
    };
    if j >= i {
        return Ratio { num: 0, den };
    }
    let num: i64 = match i {
        1 => 1,
        2 => if j == 0 { 3 } else { 9 },
        3 => match j {
            0 => 44,
            1 => -168,
            _ => 160,
        },
        4 => match j {
            0 => 19372,
            1 => -76080,
            2 => 64448,
            _ => -1908,
        },
        5 => match j {
            0 => 477901,
            1 => -1806240,
            2 => 1495424,
            3 => 46746,
            _ => -45927,
        },
        _ => weight5(j).num,
    };
    Ratio { num, den }
}

} // verus!
