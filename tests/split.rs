use fund_split::split::{split_amounts, SplitAmounts};

fn shares(amount: u64) -> (u64, u64) {
    let s: SplitAmounts = split_amounts(amount).expect("every u64 amount splits");
    (s.author_amount, s.platform_amount)
}

#[test]
fn zero_amount_splits_into_zeros() {
    assert_eq!(shares(0), (0, 0));
}

#[test]
fn one_unit_goes_to_the_platform() {
    assert_eq!(shares(1), (0, 1));
}

#[test]
fn nine_units() {
    assert_eq!(shares(9), (8, 1));
}

#[test]
fn ten_units() {
    assert_eq!(shares(10), (9, 1));
}

#[test]
fn ninety_nine_units() {
    assert_eq!(shares(99), (89, 10));
}

#[test]
fn hundred_units() {
    assert_eq!(shares(100), (90, 10));
}

#[test]
fn thousand_units() {
    assert_eq!(shares(1_000), (900, 100));
}

#[test]
fn seven_units() {
    assert_eq!(shares(7), (6, 1));
}

#[test]
fn largest_amount_without_wide_product() {
    // 204963823041217240 * 90 still fits in 64 bits.
    assert_eq!(shares(204_963_823_041_217_240), (184_467_440_737_095_516, 20_496_382_304_121_724));
}

#[test]
fn first_amount_needing_wide_product() {
    // 204963823041217241 * 90 no longer fits in 64 bits.
    assert_eq!(shares(204_963_823_041_217_241), (184_467_440_737_095_516, 20_496_382_304_121_725));
}

#[test]
fn past_the_wide_product_threshold() {
    assert_eq!(shares(204_963_823_041_217_340), (184_467_440_737_095_606, 20_496_382_304_121_734));
}

#[test]
fn largest_amount_splits_exactly() {
    assert_eq!(shares(u64::MAX), (16_602_069_666_338_596_453, 1_844_674_407_370_955_162));
}

#[test]
fn shares_add_up_to_the_amount() {
    let amounts: [u64; 10] = [0, 1, 2, 3, 11, 19, 123_456_789, 1 << 40, u64::MAX / 90 + 1, u64::MAX];
    for amount in amounts {
        let (author, platform) = shares(amount);
        assert_eq!(author as u128 + platform as u128, amount as u128);
        assert_eq!(author as u128, amount as u128 * 90 / 100);
    }
}

#[test]
fn additivity_when_floors_agree() {
    let (a_author, a_platform) = shares(10);
    let (b_author, b_platform) = shares(20);
    let (j_author, j_platform) = shares(30);
    assert_eq!(a_author + b_author, j_author);
    assert_eq!(a_platform + b_platform, j_platform);
}

#[test]
fn additivity_fails_when_floors_disagree() {
    let (a_author, a_platform) = shares(1);
    let (j_author, j_platform) = shares(2);
    assert_eq!(a_author + a_author, 0);
    assert_eq!(j_author, 1);
    assert_ne!(a_platform + a_platform, j_platform);
}
