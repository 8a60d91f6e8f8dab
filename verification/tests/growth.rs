use venear::fraction::Fraction;
use venear::token::NearToken;
use venear::venear::{VenearBalance, VenearGrowthConfig, VenearGrowthConfigFixedRate};

fn config() -> VenearGrowthConfig {
    VenearGrowthConfig::FixedRate(Box::new(VenearGrowthConfigFixedRate {
        annual_growth_rate_ns: Fraction {
            numerator: 15854895991882,
            denominator: 10u128.pow(30),
        },
    }))
}

const ONE_YEAR_NS: u64 = 31_536_000_000_000_000;

#[test]
fn test_50_percent_apy_linear_growth_calculation() {
    let config = config();
    let base_balance = NearToken::from_near(100);
    let growth_1_year = config.calculate(0, ONE_YEAR_NS, base_balance);
    let actual_growth_1_year = growth_1_year.as_near();
    let growth_2_years = config.calculate(0, ONE_YEAR_NS * 2, base_balance);
    println!("Growth after 2 years: {} NEAR", growth_2_years.as_near());
    assert!(
        actual_growth_1_year > 48 && actual_growth_1_year < 50,
        "Growth should be positive and reasonable, got {} NEAR",
        actual_growth_1_year
    );
    let growth_4_years = config.calculate(0, ONE_YEAR_NS * 4, base_balance);
    println!("Growth after 4 years: {} NEAR", growth_4_years.as_near());
}

#[test]
fn test_incremental_growth_like_real_contract() {
    let config = config();
    let base_balance = NearToken::from_near(100);
    let growth_year_1 = config.calculate(0, ONE_YEAR_NS, base_balance);
    let growth_year_2 = config.calculate(ONE_YEAR_NS, ONE_YEAR_NS * 2, base_balance);
    let growth_year_3 = config.calculate(ONE_YEAR_NS * 2, ONE_YEAR_NS * 3, base_balance);
    let growth_year_4 = config.calculate(ONE_YEAR_NS * 3, ONE_YEAR_NS * 4, base_balance);
    assert_eq!(growth_year_1.as_near(), growth_year_2.as_near());
    assert_eq!(growth_year_2.as_near(), growth_year_3.as_near());
    assert_eq!(growth_year_3.as_near(), growth_year_4.as_near());
}

fn check_balance_update_over_four_years(year_4_low: u128) {
    let config = config();
    let base_balance = NearToken::from_near(100);
    let mut venear_balance = VenearBalance::from_near(base_balance);

    venear_balance.update(0, ONE_YEAR_NS, &config);
    assert_eq!(venear_balance.near_balance.as_near(), 100);
    assert!(
        venear_balance.extra_venear_balance.as_near() > 48 && venear_balance.extra_venear_balance.as_near() <= 50,
        "Year 1: extra_venear_balance should be > 48 and <= 50, got {}",
        venear_balance.extra_venear_balance.as_near()
    );

    venear_balance.update(ONE_YEAR_NS, ONE_YEAR_NS * 2, &config);
    assert_eq!(venear_balance.near_balance.as_near(), 100);
    assert!(
        venear_balance.extra_venear_balance.as_near() > 98 && venear_balance.extra_venear_balance.as_near() <= 100,
        "Year 2: extra_venear_balance should be > 98 and <= 100, got {}",
        venear_balance.extra_venear_balance.as_near()
    );

    venear_balance.update(ONE_YEAR_NS * 2, ONE_YEAR_NS * 3, &config);
    assert_eq!(venear_balance.near_balance.as_near(), 100);
    assert!(
        venear_balance.extra_venear_balance.as_near() > 148 && venear_balance.extra_venear_balance.as_near() <= 150,
        "Year 3: extra_venear_balance should be > 148 and <= 150, got {}",
        venear_balance.extra_venear_balance.as_near()
    );

    venear_balance.update(ONE_YEAR_NS * 3, ONE_YEAR_NS * 4, &config);
    assert_eq!(venear_balance.near_balance.as_near(), 100);
    assert!(
        venear_balance.extra_venear_balance.as_near() > year_4_low && venear_balance.extra_venear_balance.as_near() <= 200,
        "Year 4: extra_venear_balance should be > {} and <= 200, got {}",
        year_4_low,
        venear_balance.extra_venear_balance.as_near()
    );
}

#[test]
fn venear_test_venear_balance_update_function() {
    check_balance_update_over_four_years(195);
}

#[test]
fn test_venear_test_venear_balance_update_function() {
    check_balance_update_over_four_years(195);
}

#[test]
fn test_calculate_function() {
    let config = config();
    let base_balance = NearToken::from_near(100);
    let growth_1_year = config.calculate(0, ONE_YEAR_NS, base_balance);
    let actual_growth_1_year = growth_1_year.as_near();
    assert!(
        actual_growth_1_year > 48 && actual_growth_1_year < 50,
        "Growth should be positive and reasonable, got {} NEAR",
        actual_growth_1_year
    );
    let growth_2_years = config.calculate(0, ONE_YEAR_NS * 2, base_balance);
    println!("Growth after 2 years: {} NEAR", growth_2_years.as_near());
    assert!(
        actual_growth_1_year > 48 && actual_growth_1_year < 50,
        "Growth should be positive and reasonable, got {} NEAR",
        actual_growth_1_year
    );
    let growth_4_years = config.calculate(0, ONE_YEAR_NS * 4, base_balance);
    assert!(
        growth_4_years.as_near() > 198 && growth_4_years.as_near() < 200,
        "Growth should be positive and reasonable, got {} NEAR",
        actual_growth_1_year
    );
}

#[test]
fn test_incremental_growth_is_linear_not_compound() {
    let config = config();
    let base_balance = NearToken::from_near(100);
    let growth_year_1 = config.calculate(0, ONE_YEAR_NS, base_balance);
    let growth_year_2 = config.calculate(ONE_YEAR_NS, ONE_YEAR_NS * 2, base_balance);
    let growth_year_3 = config.calculate(ONE_YEAR_NS * 2, ONE_YEAR_NS * 3, base_balance);
    let growth_year_4 = config.calculate(ONE_YEAR_NS * 3, ONE_YEAR_NS * 4, base_balance);
    assert_eq!(growth_year_1.as_near(), growth_year_2.as_near());
    assert_eq!(growth_year_2.as_near(), growth_year_3.as_near());
    assert_eq!(growth_year_3.as_near(), growth_year_4.as_near());
}

#[test]
fn growth_has_an_exact_value() {
    // 15854895991882 * 31536000000000000 * 100 NEAR / 10^30, rounded down.
    let g = config().calculate(0, ONE_YEAR_NS, NearToken::from_near(100));
    assert_eq!(g.as_yoctonear(), 49_999_999_999_999_075_200_000_000);
}

#[test]
fn growth_ignores_sub_millinear_amounts() {
    let c = config();
    let a = c.calculate(0, ONE_YEAR_NS, NearToken::from_yoctonear(1_000_000_000_000_000_000_000));
    let b = c.calculate(0, ONE_YEAR_NS, NearToken::from_yoctonear(1_999_999_999_999_999_999_999));
    assert_eq!(a, b);
}

#[test]
fn growth_depends_on_elapsed_time_only() {
    let c = config();
    let b = NearToken::from_near(7);
    assert_eq!(c.calculate(0, 5_000_000_000, b), c.calculate(10_000_000_000, 15_000_000_000, b));
}

#[test]
fn growth_of_parts_adds_up_within_rounding() {
    let c = config();
    let b = NearToken::from_near(3);
    let whole = c.calculate(0, 7_000_000_000, b).as_yoctonear();
    let parts = c.calculate(0, 3_000_000_000, b).as_yoctonear() + c.calculate(3_000_000_000, 7_000_000_000, b).as_yoctonear();
    assert!(parts <= whole && whole <= parts + 1);
}

#[test]
fn no_growth_without_time() {
    let c = config();
    assert_eq!(c.calculate(5_000_000_000, 5_000_000_000, NearToken::from_near(10)).as_yoctonear(), 0);
}

#[test]
fn calculate_refuses_bad_timestamps() {
    let c = config();
    assert_eq!(c.try_calculate(2_000_000_000, 1_000_000_000, NearToken::from_near(1)), None);
    assert_eq!(c.try_calculate(1_000_000_001, 2_000_000_000, NearToken::from_near(1)), None);
    assert_eq!(c.try_calculate(1_000_000_000, 2_000_000_001, NearToken::from_near(1)), None);
}

#[test]
fn update_keeps_the_near_and_grows_the_extra() {
    let c = config();
    let mut b = VenearBalance::from_near(NearToken::from_near(100));
    b.update(0, ONE_YEAR_NS, &c);
    assert_eq!(b.near_balance.as_near(), 100);
    assert_eq!(b.extra_venear_balance.as_yoctonear(), 49_999_999_999_999_075_200_000_000);
    assert_eq!(b.total().as_yoctonear(), 149_999_999_999_999_075_200_000_000);
}
