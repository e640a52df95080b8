use logistic_ode::tableau::{
    abscissa, error_weight, stage_coefficient, weight4, weight5, Ratio, B4_DEN, B5_DEN, C_DEN,
    STAGES,
};

fn value(r: Ratio) -> f64 {
    r.num as f64 / r.den as f64
}

#[test]
fn stage_coefficients_match_published_values() {
    assert_eq!(stage_coefficient(1, 0), Ratio { num: 1, den: 5 });
    assert_eq!(stage_coefficient(3, 1), Ratio { num: -168, den: 45 });
    assert_eq!(stage_coefficient(4, 1), Ratio { num: -76080, den: 6561 });
    assert_eq!(stage_coefficient(5, 4), Ratio { num: -45927, den: 167904 });
    assert!((value(stage_coefficient(5, 4)) - (-5103.0 / 18656.0)).abs() < 1e-15);
    assert!((value(stage_coefficient(4, 1)) - (-25360.0 / 2187.0)).abs() < 1e-13);
    assert_eq!(stage_coefficient(2, 2).num, 0);
    assert_eq!(stage_coefficient(0, 3).num, 0);
}

#[test]
fn rows_sum_to_abscissas() {
    for i in 0..STAGES {
        let row: f64 = (0..STAGES).map(|j| value(stage_coefficient(i, j))).sum();
        assert!((row - value(abscissa(i))).abs() < 1e-12, "row {}", i);
    }
    assert_eq!(abscissa(4), Ratio { num: 80, den: C_DEN });
}

#[test]
fn weights_sum_to_one() {
    let b5: i64 = (0..STAGES).map(|i| weight5(i).num).sum();
    let b4: i64 = (0..STAGES).map(|i| weight4(i).num).sum();
    assert_eq!(b5 as u64, B5_DEN);
    assert_eq!(b4 as u64, B4_DEN);
    let e: i64 = (0..STAGES).map(|i| error_weight(i).num).sum();
    assert_eq!(e, 0);
}

#[test]
fn quadrature_conditions_hold() {
    for k in 0..5 {
        let s: f64 = (0..STAGES)
            .map(|i| value(weight5(i)) * value(abscissa(i)).powi(k))
            .sum();
        assert!((s - 1.0 / (k as f64 + 1.0)).abs() < 1e-14, "k = {}", k);
    }
}

#[test]
fn last_stage_uses_fifth_order_weights() {
    for j in 0..STAGES {
        assert_eq!(stage_coefficient(6, j), weight5(j));
    }
    assert_eq!(abscissa(6), Ratio { num: 90, den: C_DEN });
}

#[test]
fn error_weights_are_differences() {
    assert_eq!(error_weight(0), Ratio { num: 26341, den: B4_DEN });
    assert_eq!(error_weight(4), Ratio { num: -1086939, den: B4_DEN });
    assert_eq!(error_weight(6), Ratio { num: -534240, den: B4_DEN });
    assert!((value(error_weight(6)) - (-1.0 / 40.0)).abs() < 1e-15);
}

#[test]
fn later_stages_integrate_low_powers_exactly() {
    for i in 2..STAGES {
        let ci = value(abscissa(i));
        let m1: f64 = (0..STAGES).map(|j| value(stage_coefficient(i, j)) * value(abscissa(j))).sum();
        let m2: f64 = (0..STAGES)
            .map(|j| value(stage_coefficient(i, j)) * value(abscissa(j)).powi(2))
            .sum();
        assert!((m1 - ci * ci / 2.0).abs() < 1e-12, "stage {}", i);
        assert!((m2 - ci * ci * ci / 3.0).abs() < 1e-12, "stage {}", i);
    }
}

#[test]
fn third_order_condition_holds() {
    for weight in [weight5 as fn(usize) -> Ratio, weight4] {
        let mut s = 0.0;
        let mut coupling = 0.0;
        for i in 0..STAGES {
            for j in 0..STAGES {
                s += value(weight(i)) * value(stage_coefficient(i, j)) * value(abscissa(j));
            }
            coupling += value(weight(i)) * value(stage_coefficient(i, 1));
        }
        assert!((s - 1.0 / 6.0).abs() < 1e-14);
        assert!(coupling.abs() < 1e-14);
        assert_eq!(weight(1).num, 0);
    }
}
