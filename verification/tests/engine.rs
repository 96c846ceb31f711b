use iterative_stability::is_stable;
use num_complex::Complex64;

#[test]
fn unstable_positive_integer() {
    let (_, stable) = is_stable(
        |q: Complex64| q.powu(2),
        Complex64::new(2.0, 0.0),
        |s: &Complex64| s.re < 999999.0,
        50000,
    );
    assert_eq!(stable, false);
}

#[test]
fn stable_positive_float() {
    let (_, stable) = is_stable(
        |q: Complex64| q.powu(2),
        Complex64::new(0.5, 0.0),
        |s: &Complex64| s.re < 999999.0,
        50000,
    );
    assert_eq!(stable, true);
}

#[test]
fn halving_reaches_its_fixed_point() {
    let result = is_stable(|x: u64| x / 2, 8u64, |x: &u64| *x < 100, 50);
    assert_eq!(result, (4, true));
}

#[test]
fn rejected_initial_value_is_unstable_at_once() {
    let result = is_stable(|x: u64| x + 1, 100u64, |x: &u64| *x < 100, 50);
    assert_eq!(result, (0, false));
}

#[test]
fn growth_is_rejected_at_the_first_value_out_of_bounds() {
    let result = is_stable(|x: u64| x * 2, 1u64, |x: &u64| *x < 100, 50);
    assert_eq!(result, (7, false));
}

#[test]
fn zero_budget_accepts_without_a_step() {
    let calls = std::cell::Cell::new(0u32);
    let result = is_stable(
        |x: u64| {
            calls.set(calls.get() + 1);
            x + 1
        },
        3u64,
        |x: &u64| *x < 100,
        0,
    );
    assert_eq!(result, (0, true));
    assert_eq!(calls.get(), 0);
}

#[test]
fn cycle_of_period_two_runs_to_the_cap() {
    let result = is_stable(|x: i64| 1 - x, 0i64, |x: &i64| *x < 100, 30);
    assert_eq!(result, (30, true));
}

#[test]
fn fixed_point_is_found_in_the_second_round() {
    let result = is_stable(|x: u64| x, 5u64, |x: &u64| *x < 100, 30);
    assert_eq!(result, (1, true));
}

#[test]
fn fixed_point_is_not_looked_for_with_a_budget_of_one() {
    let result = is_stable(|x: u64| x, 5u64, |x: &u64| *x < 100, 1);
    assert_eq!(result, (1, true));
}

#[test]
fn transition_is_applied_no_more_often_than_the_budget() {
    let budgets: [u64; 5] = [0, 1, 2, 7, 40];
    for max in budgets {
        let calls = std::cell::Cell::new(0u64);
        let (count, _) = is_stable(
            |x: i64| {
                calls.set(calls.get() + 1);
                1 - x
            },
            0i64,
            |x: &i64| *x < 100,
            max,
        );
        assert!(count <= max);
        assert!(calls.get() <= max);
        assert!(calls.get() <= max + 1);
    }
    let calls = std::cell::Cell::new(0u64);
    let (count, stable) = is_stable(
        |x: u64| {
            calls.set(calls.get() + 1);
            x / 2
        },
        8u64,
        |x: &u64| *x < 100,
        50,
    );
    assert_eq!((count, stable), (4, true));
    assert_eq!(calls.get(), 5);
}

#[test]
fn equal_configurations_give_equal_results() {
    let first = is_stable(|x: u64| x * x % 1000, 7u64, |x: &u64| *x != 401, 500);
    let second = is_stable(|x: u64| x * x % 1000, 7u64, |x: &u64| *x != 401, 500);
    assert_eq!(first, second);
}
