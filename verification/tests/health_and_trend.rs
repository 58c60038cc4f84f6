use reporting::health::compute_health_score;
use reporting::trend::compute_trend;
use reporting::types::{Bill, InsurancePolicy, ReportError, SavingsGoal};

fn goal(target_amount: i128, current_amount: i128) -> SavingsGoal {
    SavingsGoal {
        id: 0,
        owner: 1,
        name: String::from("goal"),
        target_amount,
        current_amount,
        target_date: 0,
        locked: false,
    }
}

fn unpaid_bill(due_date: u64) -> Bill {
    Bill {
        id: 0,
        owner: 1,
        name: String::from("bill"),
        amount: 100,
        due_date,
        recurring: false,
        frequency_days: 0,
        paid: false,
        created_at: 0,
        paid_at: None,
    }
}

fn policy() -> InsurancePolicy {
    InsurancePolicy {
        id: 0,
        owner: 1,
        name: String::from("policy"),
        coverage_type: String::from("health"),
        monthly_premium: 10,
        coverage_amount: 1000,
        active: true,
        next_payment_date: 0,
    }
}

fn no_goals() -> Vec<SavingsGoal> {
    vec![]
}

fn no_bills() -> Vec<Bill> {
    vec![]
}

fn no_policies() -> Vec<InsurancePolicy> {
    vec![]
}

#[test]
fn health_neutral_savings_no_bills_no_insurance() {
    let h = compute_health_score(&no_goals(), &no_bills(), &no_policies(), 0).unwrap();
    assert_eq!(h.savings_score, 20);
    assert_eq!(h.bills_score, 40);
    assert_eq!(h.insurance_score, 0);
    assert_eq!(h.score, 60);
    assert_eq!(h.score, h.savings_score + h.bills_score + h.insurance_score);
    assert!(h.score <= 100);
}

#[test]
fn health_savings_score_scales_progress_into_band() {
    let goals = vec![goal(1000, 500)];
    let h = compute_health_score(&goals, &no_bills(), &no_policies(), 0).unwrap();
    assert_eq!(h.savings_score, 20);
    let goals2 = vec![goal(1000, 990)];
    let h2 = compute_health_score(&goals2, &no_bills(), &no_policies(), 0).unwrap();
    assert_eq!(h2.savings_score, 39);
}

#[test]
fn health_savings_score_caps_overachievement_at_full_band() {
    let goals = vec![goal(100, 5000)];
    let h = compute_health_score(&goals, &no_bills(), &no_policies(), 0).unwrap();
    assert_eq!(h.savings_score, 40);
}

#[test]
fn health_full_score_is_100() {
    let goals = vec![goal(100, 100)];
    let policies = vec![policy()];
    let h = compute_health_score(&goals, &no_bills(), &policies, 0).unwrap();
    assert_eq!(h.savings_score, 40);
    assert_eq!(h.bills_score, 40);
    assert_eq!(h.insurance_score, 20);
    assert_eq!(h.score, 100);
}

#[test]
fn health_unpaid_but_not_overdue_scores_35() {
    let bills = vec![unpaid_bill(50)];
    let h = compute_health_score(&no_goals(), &bills, &no_policies(), 10).unwrap();
    assert_eq!(h.bills_score, 35);
}

#[test]
fn health_any_overdue_bill_scores_20() {
    let bills = vec![unpaid_bill(50), unpaid_bill(5)];
    let h = compute_health_score(&no_goals(), &bills, &no_policies(), 10).unwrap();
    assert_eq!(h.bills_score, 20);
}

#[test]
fn health_insurance_score_is_binary() {
    let policies = vec![policy(), policy()];
    let h = compute_health_score(&no_goals(), &no_bills(), &policies, 0).unwrap();
    assert_eq!(h.insurance_score, 20);
    let h2 = compute_health_score(&no_goals(), &no_bills(), &no_policies(), 0).unwrap();
    assert_eq!(h2.insurance_score, 0);
}

#[test]
fn health_negative_saved_total_is_fatal() {
    let goals = vec![goal(100, -1)];
    let r = compute_health_score(&goals, &no_bills(), &no_policies(), 0);
    assert_eq!(r, Err(ReportError::Overflow));
}

#[test]
fn trend_positive_growth() {
    let t = compute_trend(150, 100).unwrap();
    assert_eq!(t.current_amount, 150);
    assert_eq!(t.previous_amount, 100);
    assert_eq!(t.change_amount, 50);
    assert_eq!(t.change_percentage, 50);
}

#[test]
fn trend_from_zero_to_positive_is_exactly_100() {
    let t = compute_trend(50, 0).unwrap();
    assert_eq!(t.change_amount, 50);
    assert_eq!(t.change_percentage, 100);
    let t2 = compute_trend(7_000_000, 0).unwrap();
    assert_eq!(t2.change_percentage, 100);
}

#[test]
fn trend_zero_to_zero_is_zero() {
    let t = compute_trend(0, 0).unwrap();
    assert_eq!(t.change_amount, 0);
    assert_eq!(t.change_percentage, 0);
}

#[test]
fn trend_decline_truncates_toward_zero() {
    let t = compute_trend(29, 40).unwrap();
    assert_eq!(t.change_amount, -11);
    assert_eq!(t.change_percentage, -27);
    let t2 = compute_trend(94, 40).unwrap();
    assert_eq!(t2.change_percentage, 135);
}

#[test]
fn trend_percentage_beyond_i32_range_is_fatal() {
    let r = compute_trend(30_000_000_000, 1);
    assert_eq!(r, Err(ReportError::Overflow));
}

#[test]
fn trend_change_overflow_is_fatal() {
    let r = compute_trend(i128::MIN, 1);
    assert_eq!(r, Err(ReportError::Overflow));
    let r2 = compute_trend(i128::MAX, 1);
    assert_eq!(r2, Err(ReportError::Overflow));
}
