use gold_city::accrual::{accrue, next_level_price, BUILDING_PRICE, LEVEL_PRICE_FACTOR, STARTING_GOLD};

#[test]
fn accrue_adds_whole_periods() {
    assert_eq!(accrue(0, 1, 1, 150), Some(150));
    assert_eq!(accrue(5, 3, 10, 40), Some(17));
}

#[test]
fn accrue_floors_partial_periods() {
    assert_eq!(accrue(42, 7, 10, 9), Some(42));
    assert_eq!(accrue(42, 7, 10, 19), Some(49));
}

#[test]
fn accrue_whole_periods_law() {
    for k in 0u64..20 {
        assert_eq!(accrue(11, 4, 6, 6 * k), Some(11 + 4 * k));
    }
}

#[test]
fn accrue_reports_overflow() {
    assert_eq!(accrue(u64::MAX, 1, 1, 1), None);
    assert_eq!(accrue(u64::MAX - 2, 1, 1, 2), Some(u64::MAX));
    assert_eq!(accrue(0, u64::MAX, 1, u64::MAX), None);
}

#[test]
fn level_price_formula() {
    assert_eq!(next_level_price(1, 1, 1), Some(100));
    assert_eq!(next_level_price(1, 10, 1), Some(1000));
    assert_eq!(next_level_price(3, 10, 4), Some(12000));
    assert_eq!(next_level_price(7, 0, 9), Some(0));
    assert_eq!(next_level_price(7, 5, 0), Some(0));
}

#[test]
fn level_price_reports_overflow() {
    assert_eq!(next_level_price(u64::MAX, 1, 1), None);
    assert_eq!(next_level_price(u64::MAX, u32::MAX, 0), Some(0));
    assert_eq!(next_level_price(1, 1, u64::MAX / 100), Some((u64::MAX / 100) * 100));
    assert_eq!(next_level_price(2, 1, u64::MAX / 100), None);
}

#[test]
fn constants() {
    assert_eq!(BUILDING_PRICE, 100);
    assert_eq!(STARTING_GOLD, 100);
    assert_eq!(LEVEL_PRICE_FACTOR, 100);
}
