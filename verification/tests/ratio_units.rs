use pulsewave::ratio::Ratio;

#[test]
fn at_least_one() {
    assert!(Ratio { num: 5, den: 5 }.at_least_one());
    assert!(Ratio { num: 1_500_000, den: 1_000_000 }.at_least_one());
    assert!(!Ratio { num: 999_999, den: 1_000_000 }.at_least_one());
    assert!(!Ratio::zero().at_least_one());
}
