use cetra_chamber::error::ChamberError;
use cetra_chamber::sizing::{size_legs, LegFunding, BASE_DECIMALS, QUOTE_DECIMALS};

const WAD: u128 = 1_000_000_000_000_000_000;

#[test]
fn golden_deposit_sizing() {
    let legs = size_legs(2_500_000_000, 100_000_000, 100 * WAD, WAD).unwrap();
    assert_eq!(legs.len(), 2);
    assert_eq!(
        legs[0],
        LegFunding { base_amount: 625_000_000, quote_amount: 25_000_000, base_borrow: 0, quote_borrow: 175_000_000 }
    );
    assert_eq!(
        legs[1],
        LegFunding { base_amount: 1_875_000_000, quote_amount: 75_000_000, base_borrow: 5_250_000_000, quote_borrow: 0 }
    );
}

#[test]
fn sizing_is_reproducible() {
    let a = size_legs(2_500_000_000, 100_000_000, 100 * WAD, WAD).unwrap();
    let b = size_legs(2_500_000_000, 100_000_000, 100 * WAD, WAD).unwrap();
    assert_eq!(a, b);
}

#[test]
fn legs_add_up_to_deposit() {
    for &(base, quote) in &[(0u64, 0u64), (1, 2), (3, 7), (2_500_000_000, 100_000_000), (999_999_999, 5)] {
        let legs = size_legs(base, quote, 37 * WAD / 10, 3 * WAD).unwrap();
        assert_eq!(legs[0].base_amount + legs[1].base_amount, base);
        assert_eq!(legs[0].quote_amount + legs[1].quote_amount, quote);
        assert_eq!(legs[0].base_amount, base / 4);
        assert_eq!(legs[0].quote_amount, quote / 4);
    }
}

#[test]
fn zero_deposit_borrows_nothing() {
    let legs = size_legs(0, 0, 100 * WAD, WAD).unwrap();
    assert_eq!(legs[0], LegFunding { base_amount: 0, quote_amount: 0, base_borrow: 0, quote_borrow: 0 });
    assert_eq!(legs[1], LegFunding { base_amount: 0, quote_amount: 0, base_borrow: 0, quote_borrow: 0 });
}

#[test]
fn quote_only_deposit() {
    // 4 quote tokens: one funds the first leg, three the second.
    let legs = size_legs(0, 4 * QUOTE_DECIMALS, 50 * WAD, WAD).unwrap();
    assert_eq!(legs[0].quote_borrow, 2 * QUOTE_DECIMALS);
    // Three quote tokens worth 3, doubled, at a base price of 50: 0.12 base tokens.
    assert_eq!(legs[1].base_borrow, 120_000_000);
    assert_eq!(legs[1].base_borrow, 12 * BASE_DECIMALS / 100);
}

#[test]
fn zero_price_overflows() {
    assert_eq!(size_legs(100, 100, 0, WAD), Err(ChamberError::MathOverflow));
    assert_eq!(size_legs(100, 100, WAD, 0), Err(ChamberError::MathOverflow));
}

#[test]
fn huge_price_overflows() {
    assert_eq!(size_legs(u64::MAX, u64::MAX, u128::MAX, u128::MAX), Err(ChamberError::MathOverflow));
}
