//! Data model of the reporting engine: report records, upstream raw records,
//! configuration, and the error taxonomy.
//!
//! Identities (owners, collaborator contract addresses) are opaque to the
//! engine; it only compares them for equality, so they are carried as plain
//! `u64` ids assigned by the host layer.

use vstd::prelude::*;

verus! {

/// The four fixed categories of the financial breakdown, in report order.
#[derive(Clone, Copy, Debug, PartialEq, Eq, Structural)]
pub enum Category {
    Spending,
    Savings,
    Bills,
    Insurance,
}

/// Financial health score: three bounded sub-scores and their sum (0-100).
#[derive(Clone, Copy, Debug, PartialEq, Eq, Structural)]
pub struct HealthScore {
    pub score: u32,
    pub savings_score: u32,
    pub bills_score: u32,
    pub insurance_score: u32,
}

/// One category's share of a remittance: absolute amount and percentage.
#[derive(Clone, Copy, Debug, PartialEq, Eq, Structural)]
pub struct CategoryBreakdown {
    pub category: Category,
    pub amount: i128,
    pub percentage: u32,
}

/// Stateless comparison of one scalar amount across two periods.
#[derive(Clone, Copy, Debug, PartialEq, Eq, Structural)]
pub struct TrendData {
    pub current_amount: i128,
    pub previous_amount: i128,
    pub change_amount: i128,
    pub change_percentage: i32,
}

/// Remittance summary: the caller-supplied total, reported both as received
/// and as allocated, with one breakdown entry per category in fixed order.
#[derive(Clone, Copy, Debug)]
pub struct RemittanceSummary {
    pub total_received: i128,
    pub total_allocated: i128,
    pub category_breakdown: [CategoryBreakdown; 4],
    pub period_start: u64,
    pub period_end: u64,
}

/// Aggregate progress over an owner's savings goals.
#[derive(Clone, Copy, Debug, PartialEq, Eq, Structural)]
pub struct SavingsReport {
    pub total_goals: u32,
    pub completed_goals: u32,
    pub total_target: i128,
    pub total_saved: i128,
    pub completion_percentage: u32,
    pub period_start: u64,
    pub period_end: u64,
}

/// Paid/unpaid/overdue reduction of an owner's bills inside a period window.
#[derive(Clone, Copy, Debug, PartialEq, Eq, Structural)]
pub struct BillComplianceReport {
    pub total_bills: u32,
    pub paid_bills: u32,
    pub unpaid_bills: u32,
    pub overdue_bills: u32,
    pub total_amount: i128,
    pub paid_amount: i128,
    pub unpaid_amount: i128,
    pub compliance_percentage: u32,
    pub period_start: u64,
    pub period_end: u64,
}

/// Coverage reduction over an owner's active insurance policies.
#[derive(Clone, Copy, Debug, PartialEq, Eq, Structural)]
pub struct InsuranceReport {
    pub active_policies: u32,
    pub total_coverage: i128,
    pub monthly_premium: i128,
    pub annual_premium: i128,
    pub coverage_to_premium_ratio: u32,
    pub period_start: u64,
    pub period_end: u64,
}

/// Spending aggregated over the members of a family wallet.
#[derive(Clone, Copy, Debug, PartialEq, Eq, Structural)]
pub struct FamilySpendingReport {
    pub total_members: u32,
    pub total_spending: i128,
    pub average_per_member: i128,
    pub period_start: u64,
    pub period_end: u64,
}

/// Composite report merging the health score and the four domain reports,
/// stamped with the time it was generated.
#[derive(Clone, Copy, Debug)]
pub struct FinancialHealthReport {
    pub health_score: HealthScore,
    pub remittance_summary: RemittanceSummary,
    pub savings_report: SavingsReport,
    pub bill_compliance: BillComplianceReport,
    pub insurance_report: InsuranceReport,
    pub generated_at: u64,
}

/// Ids of the collaborator contracts the engine's data is fetched from.
#[derive(Clone, Copy, Debug, PartialEq, Eq, Structural)]
pub struct ContractAddresses {
    pub remittance_split: u64,
    pub savings_goals: u64,
    pub bill_payments: u64,
    pub insurance: u64,
    pub family_wallet: u64,
}

/// Observational events the host layer publishes around the engine.
#[derive(Clone, Copy, Debug, PartialEq, Eq, Structural)]
pub enum ReportEvent {
    ReportGenerated,
    ReportStored,
    AddressesConfigured,
}

/// A savings goal as materialized by the savings-goal collaborator.
#[derive(Clone, Debug)]
pub struct SavingsGoal {
    pub id: u32,
    pub owner: u64,
    pub name: String,
    pub target_amount: i128,
    pub current_amount: i128,
    pub target_date: u64,
    pub locked: bool,
}

/// A bill as materialized by the bill-payment collaborator.
#[derive(Clone, Debug)]
pub struct Bill {
    pub id: u32,
    pub owner: u64,
    pub name: String,
    pub amount: i128,
    pub due_date: u64,
    pub recurring: bool,
    pub frequency_days: u32,
    pub paid: bool,
    pub created_at: u64,
    pub paid_at: Option<u64>,
}

/// An insurance policy as materialized by the insurance collaborator.
#[derive(Clone, Debug)]
pub struct InsurancePolicy {
    pub id: u32,
    pub owner: u64,
    pub name: String,
    pub coverage_type: String,
    pub monthly_premium: i128,
    pub coverage_amount: i128,
    pub active: bool,
    pub next_payment_date: u64,
}

/// Why an engine operation aborted. No report is ever partially produced:
/// an operation either returns a fully assembled value or one of these.
#[derive(Clone, Copy, Debug, PartialEq, Eq, Structural)]
pub enum ReportError {
    /// The contract was initialized a second time.
    AlreadyInitialized,
    /// An operation that needs the admin identity ran before initialization.
    NotInitialized,
    /// The caller is not the identity the operation requires.
    NotAuthorized,
    /// A report was requested before collaborator addresses were configured.
    NotConfigured,
    /// A figure fell outside the range of its field; silently wrapping a
    /// financial figure would be a correctness violation, so this is fatal.
    Overflow,
}

} // verus!
