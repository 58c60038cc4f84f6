use reporting::contract::ReportingContract;
use reporting::types::{Bill, InsurancePolicy, ReportError, SavingsGoal};

fn configured_contract() -> ReportingContract {
    let mut c = ReportingContract::new();
    assert_eq!(c.init(1), Ok(true));
    assert_eq!(c.configure_addresses(1, 10, 11, 12, 13, 14), Ok(true));
    c
}

fn no_goals() -> Vec<SavingsGoal> {
    vec![]
}

fn no_bills() -> Vec<Bill> {
    vec![]
}

fn no_policies() -> Vec<InsurancePolicy> {
    vec![]
}

#[test]
fn init_sets_admin_once() {
    let mut c = ReportingContract::new();
    assert!(c.get_admin().is_none());
    assert_eq!(c.init(5), Ok(true));
    assert_eq!(c.get_admin(), Some(5));
    assert_eq!(c.init(6), Err(ReportError::AlreadyInitialized));
    assert_eq!(c.get_admin(), Some(5));
}

#[test]
fn configure_requires_init_and_admin() {
    let mut c = ReportingContract::new();
    assert_eq!(
        c.configure_addresses(5, 10, 11, 12, 13, 14),
        Err(ReportError::NotInitialized)
    );
    assert_eq!(c.init(5), Ok(true));
    assert_eq!(
        c.configure_addresses(6, 10, 11, 12, 13, 14),
        Err(ReportError::NotAuthorized)
    );
    assert!(c.get_addresses().is_none());
    assert_eq!(c.configure_addresses(5, 10, 11, 12, 13, 14), Ok(true));
    let a = c.get_addresses().unwrap();
    assert_eq!(a.remittance_split, 10);
    assert_eq!(a.savings_goals, 11);
    assert_eq!(a.bill_payments, 12);
    assert_eq!(a.insurance, 13);
    assert_eq!(a.family_wallet, 14);
}

#[test]
fn reports_require_configured_addresses() {
    let c = ReportingContract::new();
    assert_eq!(
        c.get_savings_report(7, &no_goals(), 0, 10),
        Err(ReportError::NotConfigured)
    );
    assert_eq!(
        c.get_bill_compliance_report(7, &no_bills(), 0, 10, 5),
        Err(ReportError::NotConfigured)
    );
    assert_eq!(
        c.get_insurance_report(7, &no_policies(), 0, 0, 10),
        Err(ReportError::NotConfigured)
    );
    assert_eq!(
        c.calculate_health_score(7, &no_goals(), &no_bills(), &no_policies(), 5),
        Err(ReportError::NotConfigured)
    );
    assert!(c
        .get_remittance_summary(7, 100, 0, 10, &vec![], &vec![])
        .is_err());
}

#[test]
fn trend_analysis_needs_no_configuration() {
    let c = ReportingContract::new();
    let t = c.get_trend_analysis(7, 150, 100).unwrap();
    assert_eq!(t.change_amount, 50);
    assert_eq!(t.change_percentage, 50);
}

#[test]
fn composite_report_merges_all_sections() {
    let c = configured_contract();
    let percentages: Vec<u32> = vec![40, 30, 20, 10];
    let amounts: Vec<i128> = vec![400, 300, 200, 100];
    let rep = c
        .get_financial_health_report(
            7,
            1000,
            0,
            10,
            &percentages,
            &amounts,
            &no_goals(),
            &no_bills(),
            &no_bills(),
            &no_policies(),
            0,
            11,
        )
        .unwrap();
    assert_eq!(rep.generated_at, 11);
    assert_eq!(rep.health_score.savings_score, 20);
    assert_eq!(rep.health_score.bills_score, 40);
    assert_eq!(rep.health_score.insurance_score, 0);
    assert_eq!(rep.health_score.score, 60);
    assert_eq!(rep.remittance_summary.total_received, 1000);
    assert_eq!(rep.remittance_summary.category_breakdown[0].amount, 400);
    assert_eq!(rep.savings_report.total_goals, 0);
    assert_eq!(rep.savings_report.completion_percentage, 0);
    assert_eq!(rep.bill_compliance.total_bills, 0);
    assert_eq!(rep.bill_compliance.compliance_percentage, 100);
    assert_eq!(rep.insurance_report.active_policies, 0);
    assert_eq!(rep.insurance_report.coverage_to_premium_ratio, 0);
}

#[test]
fn storing_twice_overwrites_and_never_merges() {
    let mut c = configured_contract();
    let percentages: Vec<u32> = vec![];
    let amounts: Vec<i128> = vec![];
    let first = c
        .get_financial_health_report(
            7,
            1000,
            0,
            10,
            &percentages,
            &amounts,
            &no_goals(),
            &no_bills(),
            &no_bills(),
            &no_policies(),
            0,
            11,
        )
        .unwrap();
    let second = c
        .get_financial_health_report(
            7,
            2000,
            0,
            10,
            &percentages,
            &amounts,
            &no_goals(),
            &no_bills(),
            &no_bills(),
            &no_policies(),
            0,
            22,
        )
        .unwrap();
    assert!(c.store_report(7, first, 1));
    let got = c.get_stored_report(7, 1).unwrap();
    assert_eq!(got.generated_at, 11);
    assert_eq!(got.remittance_summary.total_received, 1000);
    assert!(c.store_report(7, second, 1));
    let got2 = c.get_stored_report(7, 1).unwrap();
    assert_eq!(got2.generated_at, 22);
    assert_eq!(got2.remittance_summary.total_received, 2000);
}

#[test]
fn distinct_keys_are_stored_independently() {
    let mut c = configured_contract();
    let rep = c
        .get_financial_health_report(
            7,
            1000,
            0,
            10,
            &vec![],
            &vec![],
            &no_goals(),
            &no_bills(),
            &no_bills(),
            &no_policies(),
            0,
            11,
        )
        .unwrap();
    assert!(c.store_report(7, rep, 1));
    assert!(c.get_stored_report(7, 2).is_none());
    assert!(c.get_stored_report(8, 1).is_none());
    assert!(c.get_stored_report(7, 1).is_some());
}

#[test]
fn never_written_key_reads_back_absent() {
    let c = ReportingContract::new();
    assert!(c.get_stored_report(7, 1).is_none());
}

#[test]
fn overflowing_section_aborts_the_whole_composite() {
    let c = configured_contract();
    let bad_goals = vec![SavingsGoal {
        id: 0,
        owner: 7,
        name: String::from("goal"),
        target_amount: 100,
        current_amount: -1,
        target_date: 0,
        locked: false,
    }];
    let r = c.get_financial_health_report(
        7,
        1000,
        0,
        10,
        &vec![],
        &vec![],
        &bad_goals,
        &no_bills(),
        &no_bills(),
        &no_policies(),
        0,
        11,
    );
    assert!(matches!(r, Err(ReportError::Overflow)));
}
