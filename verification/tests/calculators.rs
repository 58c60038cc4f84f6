use reporting::bills::compute_bill_compliance_report;
use reporting::insurance::compute_insurance_report;
use reporting::remittance::compute_remittance_summary;
use reporting::savings::compute_savings_report;
use reporting::types::{Bill, Category, InsurancePolicy, ReportError, SavingsGoal};

fn goal(target_amount: i128, current_amount: i128) -> SavingsGoal {
    SavingsGoal {
        id: 0,
        owner: 1,
        name: String::from("goal"),
        target_amount,
        current_amount,
        target_date: 0,
        locked: false,
    }
}

fn bill(owner: u64, amount: i128, due_date: u64, paid: bool, created_at: u64) -> Bill {
    Bill {
        id: 0,
        owner,
        name: String::from("bill"),
        amount,
        due_date,
        recurring: false,
        frequency_days: 0,
        paid,
        created_at,
        paid_at: None,
    }
}

fn policy(coverage_amount: i128) -> InsurancePolicy {
    InsurancePolicy {
        id: 0,
        owner: 1,
        name: String::from("policy"),
        coverage_type: String::from("health"),
        monthly_premium: 0,
        coverage_amount,
        active: true,
        next_payment_date: 0,
    }
}

#[test]
fn savings_empty_goal_list_is_all_zero() {
    let goals: Vec<SavingsGoal> = vec![];
    let rep = compute_savings_report(&goals, 0, 10).unwrap();
    assert_eq!(rep.total_goals, 0);
    assert_eq!(rep.completed_goals, 0);
    assert_eq!(rep.total_target, 0);
    assert_eq!(rep.total_saved, 0);
    assert_eq!(rep.completion_percentage, 0);
    assert_eq!(rep.period_start, 0);
    assert_eq!(rep.period_end, 10);
}

#[test]
fn savings_reduces_totals_and_counts() {
    let goals = vec![goal(100, 50), goal(200, 250)];
    let rep = compute_savings_report(&goals, 5, 15).unwrap();
    assert_eq!(rep.total_goals, 2);
    assert_eq!(rep.completed_goals, 1);
    assert_eq!(rep.total_target, 300);
    assert_eq!(rep.total_saved, 300);
    assert_eq!(rep.completion_percentage, 100);
    assert!(rep.completed_goals <= rep.total_goals);
}

#[test]
fn savings_percentage_truncates() {
    let goals = vec![goal(1000, 254)];
    let rep = compute_savings_report(&goals, 0, 0).unwrap();
    assert_eq!(rep.completion_percentage, 25);
    assert_eq!(rep.completed_goals, 0);
}

#[test]
fn savings_percentage_can_exceed_100_when_overachieving() {
    let goals = vec![goal(100, 250)];
    let rep = compute_savings_report(&goals, 0, 0).unwrap();
    assert_eq!(rep.completion_percentage, 250);
    assert_eq!(rep.completed_goals, 1);
}

#[test]
fn savings_zero_target_defaults_percentage_to_zero() {
    let goals = vec![goal(0, 50)];
    let rep = compute_savings_report(&goals, 0, 0).unwrap();
    assert_eq!(rep.total_target, 0);
    assert_eq!(rep.completion_percentage, 0);
}

#[test]
fn savings_negative_saved_total_is_fatal() {
    let goals = vec![goal(100, -50)];
    let r = compute_savings_report(&goals, 0, 0);
    assert_eq!(r, Err(ReportError::Overflow));
}

#[test]
fn savings_percentage_beyond_u32_range_is_fatal() {
    let goals = vec![goal(1, 50_000_000_000)];
    let r = compute_savings_report(&goals, 0, 0);
    assert_eq!(r, Err(ReportError::Overflow));
}

#[test]
fn savings_bounded_goals_keep_percentage_within_100() {
    let goals = vec![goal(300, 100), goal(700, 650)];
    let rep = compute_savings_report(&goals, 0, 0).unwrap();
    assert_eq!(rep.completion_percentage, 75);
    assert!(rep.completion_percentage <= 100);
}

#[test]
fn savings_accumulator_overflow_is_fatal() {
    let goals = vec![goal(i128::MAX, 0), goal(1, 0)];
    let r = compute_savings_report(&goals, 0, 0);
    assert_eq!(r, Err(ReportError::Overflow));
}

#[test]
fn bills_empty_list_is_vacuously_compliant() {
    let bills: Vec<Bill> = vec![];
    let rep = compute_bill_compliance_report(&bills, 1, 0, 10, 5).unwrap();
    assert_eq!(rep.total_bills, 0);
    assert_eq!(rep.compliance_percentage, 100);
}

#[test]
fn bills_reduction_counts_and_sums() {
    let bills = vec![
        bill(1, 100, 5, true, 2),
        bill(1, 200, 5, false, 3),
        bill(1, 300, 50, false, 4),
        bill(2, 999, 5, false, 4),
        bill(1, 999, 5, false, 100),
    ];
    let rep = compute_bill_compliance_report(&bills, 1, 0, 10, 10).unwrap();
    assert_eq!(rep.total_bills, 3);
    assert_eq!(rep.paid_bills, 1);
    assert_eq!(rep.unpaid_bills, 2);
    assert_eq!(rep.overdue_bills, 1);
    assert_eq!(rep.total_amount, 600);
    assert_eq!(rep.paid_amount, 100);
    assert_eq!(rep.unpaid_amount, 500);
    assert_eq!(rep.compliance_percentage, 33);
    assert_eq!(rep.paid_bills + rep.unpaid_bills, rep.total_bills);
    assert!(rep.overdue_bills <= rep.unpaid_bills);
    assert_eq!(rep.paid_amount + rep.unpaid_amount, rep.total_amount);
}

#[test]
fn bills_outside_period_are_excluded_even_if_owned_and_unpaid() {
    let bills = vec![bill(1, 500, 1, false, 20)];
    let rep = compute_bill_compliance_report(&bills, 1, 0, 10, 30).unwrap();
    assert_eq!(rep.total_bills, 0);
    assert_eq!(rep.unpaid_bills, 0);
    assert_eq!(rep.overdue_bills, 0);
    assert_eq!(rep.total_amount, 0);
    assert_eq!(rep.compliance_percentage, 100);
}

#[test]
fn bills_of_other_owners_are_excluded() {
    let bills = vec![bill(2, 500, 1, false, 5)];
    let rep = compute_bill_compliance_report(&bills, 1, 0, 10, 30).unwrap();
    assert_eq!(rep.total_bills, 0);
}

#[test]
fn bills_period_bounds_are_inclusive() {
    let bills = vec![bill(1, 10, 99, true, 3), bill(1, 20, 99, true, 10)];
    let rep = compute_bill_compliance_report(&bills, 1, 3, 10, 0).unwrap();
    assert_eq!(rep.total_bills, 2);
    assert_eq!(rep.compliance_percentage, 100);
}

#[test]
fn bills_amount_overflow_is_fatal() {
    let bills = vec![bill(1, i128::MAX, 5, true, 5), bill(1, 1, 5, true, 5)];
    let r = compute_bill_compliance_report(&bills, 1, 0, 10, 0);
    assert_eq!(r, Err(ReportError::Overflow));
}

#[test]
fn insurance_no_policies_and_no_premium_default_to_zero() {
    let policies: Vec<InsurancePolicy> = vec![];
    let rep = compute_insurance_report(&policies, 0, 0, 10).unwrap();
    assert_eq!(rep.active_policies, 0);
    assert_eq!(rep.total_coverage, 0);
    assert_eq!(rep.annual_premium, 0);
    assert_eq!(rep.coverage_to_premium_ratio, 0);
}

#[test]
fn insurance_ratio_is_exact() {
    let policies = vec![policy(60_000), policy(40_000)];
    let rep = compute_insurance_report(&policies, 100, 0, 10).unwrap();
    assert_eq!(rep.active_policies, 2);
    assert_eq!(rep.total_coverage, 100_000);
    assert_eq!(rep.monthly_premium, 100);
    assert_eq!(rep.annual_premium, 1200);
    assert_eq!(rep.coverage_to_premium_ratio, 8333);
}

#[test]
fn insurance_zero_premium_with_policies_defaults_ratio_to_zero() {
    let policies = vec![policy(5000)];
    let rep = compute_insurance_report(&policies, 0, 0, 10).unwrap();
    assert_eq!(rep.active_policies, 1);
    assert_eq!(rep.coverage_to_premium_ratio, 0);
}

#[test]
fn insurance_negative_coverage_ratio_is_fatal() {
    let policies = vec![policy(-100)];
    let r = compute_insurance_report(&policies, 100, 0, 10);
    assert_eq!(r, Err(ReportError::Overflow));
}

#[test]
fn insurance_premium_overflow_is_fatal() {
    let policies: Vec<InsurancePolicy> = vec![];
    let r = compute_insurance_report(&policies, i128::MAX, 0, 10);
    assert_eq!(r, Err(ReportError::Overflow));
}

#[test]
fn remittance_zips_vectors_in_category_order() {
    let percentages: Vec<u32> = vec![40, 30, 20, 10];
    let amounts: Vec<i128> = vec![400, 300, 200, 100];
    let s = compute_remittance_summary(1000, 0, 10, &percentages, &amounts);
    assert_eq!(s.total_received, 1000);
    assert_eq!(s.total_allocated, 1000);
    assert_eq!(s.period_start, 0);
    assert_eq!(s.period_end, 10);
    assert_eq!(s.category_breakdown.len(), 4);
    assert_eq!(s.category_breakdown[0].category, Category::Spending);
    assert_eq!(s.category_breakdown[1].category, Category::Savings);
    assert_eq!(s.category_breakdown[2].category, Category::Bills);
    assert_eq!(s.category_breakdown[3].category, Category::Insurance);
    assert_eq!(s.category_breakdown[0].amount, 400);
    assert_eq!(s.category_breakdown[0].percentage, 40);
    assert_eq!(s.category_breakdown[3].amount, 100);
    assert_eq!(s.category_breakdown[3].percentage, 10);
}

#[test]
fn remittance_missing_vector_entries_default_to_zero() {
    let percentages: Vec<u32> = vec![40];
    let amounts: Vec<i128> = vec![];
    let s = compute_remittance_summary(500, 0, 10, &percentages, &amounts);
    assert_eq!(s.total_received, 500);
    assert_eq!(s.category_breakdown[0].percentage, 40);
    assert_eq!(s.category_breakdown[0].amount, 0);
    for i in 1..4 {
        assert_eq!(s.category_breakdown[i].percentage, 0);
        assert_eq!(s.category_breakdown[i].amount, 0);
    }
}
