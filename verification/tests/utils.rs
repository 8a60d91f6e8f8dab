use venear::token::{near_add, near_sub, truncate_near_to_millis, truncate_to_seconds, NearToken};

#[test]
fn test_near_add() {
    let a = NearToken::from_yoctonear(100);
    let b = NearToken::from_yoctonear(200);
    let c = NearToken::from_yoctonear(300);
    assert_eq!(near_add(a, b), c);
}

#[test]
fn test_near_sub() {
    let a = NearToken::from_yoctonear(300);
    let b = NearToken::from_yoctonear(200);
    let c = NearToken::from_yoctonear(100);
    assert_eq!(near_sub(a, b), c);
}

#[test]
fn truncate_to_seconds_drops_the_nanoseconds() {
    assert_eq!(truncate_to_seconds(1_999_999_999), 1_000_000_000);
    assert_eq!(truncate_to_seconds(2_000_000_000), 2_000_000_000);
    assert_eq!(truncate_to_seconds(0), 0);
}

#[test]
fn truncate_near_to_millis_drops_the_rest() {
    let n = NearToken::from_yoctonear(1_234_567_000_000_000_000_000_001);
    assert_eq!(truncate_near_to_millis(n).as_yoctonear(), 1_234_000_000_000_000_000_000_000);
    assert_eq!(truncate_near_to_millis(n).as_millinear(), 1_234);
}

#[test]
fn token_units() {
    assert_eq!(NearToken::from_near(2).as_yoctonear(), 2_000_000_000_000_000_000_000_000);
    assert_eq!(NearToken::from_millinear(15).as_yoctonear(), 15_000_000_000_000_000_000_000);
    assert_eq!(NearToken::from_yoctonear(2_500_000_000_000_000_000_000_000).as_near(), 2);
    assert!(NearToken::from_yoctonear(0).is_zero());
    assert_eq!(NearToken::from_yoctonear(u128::MAX).checked_add(NearToken::from_yoctonear(1)), None);
    assert_eq!(NearToken::from_yoctonear(1).checked_sub(NearToken::from_yoctonear(2)), None);
    assert_eq!(NearToken::from_yoctonear(1).saturating_sub(NearToken::from_yoctonear(2)).as_yoctonear(), 0);
}
