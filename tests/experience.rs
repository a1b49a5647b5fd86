use hns_users::calculate_exp_need;

#[test]
fn exp_needed_calculates_correctly_for_level_1() {
    let result = calculate_exp_need(1, 50) as f64;
    assert_eq!(result, 1000.0);
}

#[test]
fn exp_needed_calculates_correctly_for_level_7() {
    let result = calculate_exp_need(7, 25) as f64;
    assert_eq!(result, 67200.0);
}

#[test]
fn exp_needed_matches_formula_over_all_inputs() {
    for level in 1u8..=99 {
        for int in 0u8..=255 {
            let expected = 2f64.powf(level as f64 - 1.0) * (1100.0 - 2.0 * int as f64);
            assert_eq!(calculate_exp_need(level, int) as f64, expected);
        }
    }
}

#[test]
fn exp_needed_at_level_zero_is_half_the_base() {
    assert_eq!(calculate_exp_need(0, 0), 550);
    assert_eq!(calculate_exp_need(0, 255), 295);
}

#[test]
fn exp_needed_at_level_99_with_no_intelligence() {
    assert_eq!(calculate_exp_need(99, 0), 1100u128 << 98);
}
