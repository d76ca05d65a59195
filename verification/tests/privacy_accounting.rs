//! Accountant and budget behavior over exact nano-unit values.

use differential_privacy::budget::Budget;
use differential_privacy::budget::NANOS_PER_UNIT;
use differential_privacy::privacy_accounting::PrivacyAccountant;

/// Nearest exact budget to a floating-point parameter, as the front end
/// converts caller-supplied values.
fn budget_of(x: f64) -> Budget {
    Budget::from_nanos((x * NANOS_PER_UNIT as f64).round() as i64)
}

#[test]
fn test_privacy_accountant_initialization() {
    let accountant = PrivacyAccountant::new(budget_of(1.0), budget_of(1e-5));
    assert_eq!(accountant.total_epsilon, Budget::zero());
    assert_eq!(accountant.total_delta, Budget::zero());
}

#[test]
fn test_privacy_accountant_update() {
    let mut accountant = PrivacyAccountant::new(budget_of(0.0), budget_of(0.0));
    accountant.update(budget_of(0.5), budget_of(1e-6));
    accountant.update(budget_of(0.3), budget_of(2e-6));
    assert_eq!(accountant.total_epsilon, budget_of(0.8));
    assert_eq!(accountant.total_delta, budget_of(3e-6));
}

#[test]
fn test_update_accumulates_exact_sums() {
    let mut accountant = PrivacyAccountant::new(Budget::zero(), Budget::zero());
    let charges: [(i64, i64); 4] = [(500_000_000, 1_000), (300_000_000, 2_000), (1, 0), (0, 7)];
    let mut epsilon_sum: i64 = 0;
    let mut delta_sum: i64 = 0;
    for (e, d) in charges {
        accountant.update(Budget::from_nanos(e), Budget::from_nanos(d));
        epsilon_sum += e;
        delta_sum += d;
    }
    let (total_epsilon, total_delta) = accountant.get_privacy_loss();
    assert_eq!(total_epsilon.as_nanos(), epsilon_sum);
    assert_eq!(total_delta.as_nanos(), delta_sum);
    assert_eq!(epsilon_sum, 800_000_001);
    assert_eq!(delta_sum, 3_007);
}

#[test]
fn test_get_privacy_loss_is_idempotent() {
    let mut accountant = PrivacyAccountant::new(Budget::zero(), Budget::zero());
    accountant.update(budget_of(0.5), budget_of(1e-6));
    let first = accountant.get_privacy_loss();
    let second = accountant.get_privacy_loss();
    assert_eq!(first, second);
    assert_eq!(first.0.as_nanos(), 500_000_000);
}

#[test]
fn test_budget_construction_and_reads() {
    assert_eq!(Budget::from_units(2).as_nanos(), 2 * NANOS_PER_UNIT);
    assert_eq!(Budget::zero().as_nanos(), 0);
    assert_eq!(Budget::from_nanos(-5).as_nanos(), -5);
    assert!(Budget::from_nanos(1).is_strictly_positive());
    assert!(!Budget::from_nanos(0).is_strictly_positive());
    assert!(Budget::from_nanos(0).is_nonnegative());
    assert!(!Budget::from_nanos(-1).is_nonnegative());
    assert!(Budget::from_nanos(3).lt(&Budget::from_nanos(4)));
    assert!(!Budget::from_nanos(4).lt(&Budget::from_nanos(4)));
    assert_eq!(
        Budget::from_nanos(3).plus(&Budget::from_nanos(-4)).as_nanos(),
        -1
    );
}
