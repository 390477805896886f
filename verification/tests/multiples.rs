use euler::multiples::sum_of_multiples_below_1000;

#[test]
fn total_is_233168() {
    assert_eq!(sum_of_multiples_below_1000(), 233_168);
}

#[test]
fn total_agrees_with_checking_every_number() {
    let mut expected = 0;
    for i in 0..1000 {
        if i % 3 == 0 || i % 5 == 0 {
            expected += i;
        }
    }
    assert_eq!(sum_of_multiples_below_1000(), expected);
}

#[test]
fn total_repeats_its_result() {
    assert_eq!(sum_of_multiples_below_1000(), sum_of_multiples_below_1000());
}
