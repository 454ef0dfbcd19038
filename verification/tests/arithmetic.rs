use auction::errors::AuctionError;
use auction::utils::{
    calculate_fee, calculate_minimum_bid_increase, calculate_minimum_starting_bid,
    calculate_redeem_payment,
};

#[test]
fn minimum_starting_bid_grosses_up_reserve() {
    // reserve 100 at a 5% fee: 100 * 1e9 / 0.95e9 is about 105.27, rounded up.
    assert_eq!(calculate_minimum_starting_bid(100, 50_000_000), Ok(106));
}

#[test]
fn minimum_starting_bid_is_exact_on_even_division() {
    // 19 * 1e9 / 0.95e9 == 20 exactly: no rounding is added.
    assert_eq!(calculate_minimum_starting_bid(19, 50_000_000), Ok(20));
    assert_eq!(calculate_minimum_starting_bid(95, 50_000_000), Ok(100));
}

#[test]
fn minimum_starting_bid_rounds_up_any_remainder() {
    // 96 * 1e9 / 0.95e9 is about 101.05: any remainder rounds up.
    assert_eq!(calculate_minimum_starting_bid(96, 50_000_000), Ok(102));
}

#[test]
fn minimum_starting_bid_zero_fee_is_reserve() {
    assert_eq!(calculate_minimum_starting_bid(12345, 0), Ok(12345));
}

#[test]
fn minimum_starting_bid_full_fee_overflows() {
    // A 100% fee leaves no margin for the fraction holders: no finite
    // minimum exists.
    assert_eq!(
        calculate_minimum_starting_bid(100, 1_000_000_000),
        Err(AuctionError::NumericalOverflowError)
    );
}

#[test]
fn minimum_starting_bid_beyond_ledger_overflows() {
    // The grossed-up minimum exceeds u64::MAX.
    assert_eq!(
        calculate_minimum_starting_bid(u64::MAX, 500_000_000),
        Err(AuctionError::NumericalOverflowError)
    );
}

#[test]
fn minimum_bid_increase_floors() {
    // 106 * 10% == 10.6, floored.
    assert_eq!(calculate_minimum_bid_increase(106, 100_000_000), Ok(10));
}

#[test]
fn minimum_bid_increase_small_bid_floors_to_zero() {
    // 5 * 10% == 0.5, floored to 0.
    assert_eq!(calculate_minimum_bid_increase(5, 100_000_000), Ok(0));
}

#[test]
fn minimum_bid_increase_beyond_ledger_overflows() {
    // An increment ratio of 200% on the largest bid leaves the 64-bit range.
    assert_eq!(
        calculate_minimum_bid_increase(u64::MAX, 2_000_000_000),
        Err(AuctionError::NumericalOverflowError)
    );
}

#[test]
fn fee_floors() {
    // 5% of 1000 is 50.
    assert_eq!(calculate_fee(1000, 50_000_000), Ok(50));
    // 5% of 106 is 5.3, floored.
    assert_eq!(calculate_fee(106, 50_000_000), Ok(5));
}

#[test]
fn fee_of_whole_ratio_is_whole_bid() {
    assert_eq!(calculate_fee(1000, 1_000_000_000), Ok(1000));
}

#[test]
fn redeem_payment_is_pro_rata() {
    // 10 of 100 fractions against a treasury of 950.
    assert_eq!(calculate_redeem_payment(950, 10, 100), Ok(95));
}

#[test]
fn redeem_payment_floors_in_treasury_favor() {
    // 1 of 3 fractions against 100: 33.33 floored.
    assert_eq!(calculate_redeem_payment(100, 1, 3), Ok(33));
}

#[test]
fn redeem_payment_zero_supply_overflows() {
    assert_eq!(
        calculate_redeem_payment(950, 10, 0),
        Err(AuctionError::NumericalOverflowError)
    );
}

#[test]
fn redeem_payment_whole_supply_takes_all() {
    assert_eq!(calculate_redeem_payment(570, 60, 60), Ok(570));
}
