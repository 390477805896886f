use euler::series::arith_sum;

fn add_terms(a: u32, d: u32, n: u32) -> u32 {
    let mut total = 0;
    for i in 0..n {
        total += a + i * d;
    }
    total
}

#[test]
fn sum_test() {
    assert_eq!(arith_sum(1, 1, 50), 1275);
    assert_eq!(arith_sum(1, 1, 100), 5050);
}

#[test]
fn no_terms_sum_to_zero() {
    assert_eq!(arith_sum(3, 7, 0), 0);
    assert_eq!(arith_sum(0, 0, 0), 0);
    assert_eq!(arith_sum(4_000_000_000, 4_000_000_000, 0), 0);
    assert_eq!(arith_sum(u32::MAX, u32::MAX, 0), 0);
}

#[test]
fn zero_step_sums_to_start_times_count() {
    assert_eq!(arith_sum(9, 0, 4), 36);
    assert_eq!(arith_sum(0, 0, 1000), 0);
    assert_eq!(arith_sum(1000, 0, 1000), 1_000_000);
}

#[test]
fn one_term_is_the_start() {
    assert_eq!(arith_sum(7, 1000, 1), 7);
    assert_eq!(arith_sum(0, 5, 1), 0);
}

#[test]
fn closed_form_values() {
    assert_eq!(arith_sum(3, 3, 333), 166_833);
    assert_eq!(arith_sum(5, 5, 199), 99_500);
    assert_eq!(arith_sum(15, 15, 66), 33_165);
    assert_eq!(arith_sum(2, 3, 4), 2 + 5 + 8 + 11);
    assert_eq!(arith_sum(0, 1, 10), 45);
}

#[test]
fn three_series_combine_to_233168() {
    assert_eq!(
        arith_sum(3, 3, 333) + arith_sum(5, 5, 199) - arith_sum(15, 15, 66),
        233_168
    );
}

#[test]
fn closed_form_agrees_with_adding_term_by_term() {
    for a in 0..12 {
        for d in 0..12 {
            for n in 0..40 {
                assert_eq!(arith_sum(a, d, n), add_terms(a, d, n));
            }
        }
    }
    assert_eq!(arith_sum(1, 1, 50), add_terms(1, 1, 50));
    assert_eq!(arith_sum(15, 15, 66), add_terms(15, 15, 66));
}

#[test]
fn largest_products_still_fit() {
    // 1 * (2 * 2147483647) is 4294967294, one below the largest even u32.
    assert_eq!(arith_sum(2_147_483_647, 0, 1), 2_147_483_647);
    // 65535 * (2 + 65534) is 4294901760.
    assert_eq!(arith_sum(1, 1, 65_535), 2_147_450_880);
}

#[test]
fn arith_sum_repeats_its_result() {
    assert_eq!(arith_sum(3, 3, 333), arith_sum(3, 3, 333));
    assert_eq!(arith_sum(1, 1, 50), arith_sum(1, 1, 50));
}
