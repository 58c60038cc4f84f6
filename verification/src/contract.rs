//! The reporting contract: singleton configuration (admin identity,
//! collaborator addresses), the report operations gated on that
//! configuration, and the keyed report store.
//!
//! The host layer authenticates callers, performs the collaborator calls,
//! and hands the fetched records in as plain values; each operation here is
//! the decision-and-computation step of one request. Storage is
//! last-write-wins per (owner, period key), with no merging and no
//! fabricated defaults on lookup.

use vstd::prelude::*;

verus! {

use vstd::pervasive::VecAdditionalExecFns;
use crate::bills::{bill_sums_fit, bill_report_matches, compute_bill_compliance_report};
use crate::health::{health_score_ok, health_score_matches, compute_health_score};
use crate::insurance::{
    insurance_report_ok,
    insurance_report_matches,
    compute_insurance_report,
};
use crate::remittance::{remittance_summary_matches, compute_remittance_summary};
use crate::savings::{savings_report_ok, savings_report_matches, compute_savings_report};
use crate::trend::{trend_ok, spec_change_percentage, compute_trend};
use crate::types::{
    Bill,
    BillComplianceReport,
    ContractAddresses,
    FinancialHealthReport,
    HealthScore,
    InsurancePolicy,
    InsuranceReport,
    RemittanceSummary,
    ReportError,
    SavingsGoal,
    SavingsReport,
    TrendData,
};

/// One stored composite report together with its storage key.
#[derive(Clone, Copy, Debug)]
pub struct StoredReport {
    pub owner: u64,
    pub period_key: u64,
    pub report: FinancialHealthReport,
}

/// True when the entry is stored under this (owner, period key) pair.
pub open spec fn entry_matches(e: StoredReport, owner: u64, period_key: u64) -> bool {
    e.owner == owner && e.period_key == period_key
}

/// The report stored under a key: the first entry bearing the key, or
/// "absent". The store keeps at most one entry per key, so the scan order
/// is a representation detail.
pub open spec fn lookup_report(
    entries: Seq<StoredReport>,
    owner: u64,
    period_key: u64,
) -> Option<FinancialHealthReport>
    decreases entries.len(),
{
    if entries.len() == 0 {
        None
    } else if entry_matches(entries[0], owner, period_key) {
        Some(entries[0].report)
    } else {
        lookup_report(entries.skip(1), owner, period_key)
    }
}

/// A key that no entry bears looks up to "absent".
proof fn lemma_no_match_lookup_none(entries: Seq<StoredReport>, owner: u64, period_key: u64)
    requires
        forall|j: int|
            0 <= j < entries.len() ==> !entry_matches(#[trigger] entries[j], owner, period_key),
    ensures
        lookup_report(entries, owner, period_key) is None,
    decreases entries.len(),
{
    if entries.len() > 0 {
        assert forall|j: int|
            0 <= j < entries.skip(1).len() implies !entry_matches(
            #[trigger] entries.skip(1)[j],
            owner,
            period_key,
        ) by {
            assert(entries.skip(1)[j] == entries[j + 1]);
        }
        lemma_no_match_lookup_none(entries.skip(1), owner, period_key);
    }
}

/// A key whose first bearer is the entry at `i` looks up to that entry.
proof fn lemma_first_match_lookup(entries: Seq<StoredReport>, i: int, owner: u64, period_key: u64)
    requires
        0 <= i < entries.len(),
        entry_matches(entries[i], owner, period_key),
        forall|j: int| 0 <= j < i ==> !entry_matches(#[trigger] entries[j], owner, period_key),
    ensures
        lookup_report(entries, owner, period_key) == Some(entries[i].report),
    decreases i,
{
    if i > 0 {
        assert(!entry_matches(entries[0], owner, period_key));
        assert(entries.skip(1)[i - 1] == entries[i]);
        assert forall|j: int|
            0 <= j < i - 1 implies !entry_matches(#[trigger] entries.skip(1)[j], owner, period_key) by {
            assert(entries.skip(1)[j] == entries[j + 1]);
        }
        lemma_first_match_lookup(entries.skip(1), i - 1, owner, period_key);
    }
}

/// Appending an entry whose key no existing entry bears changes exactly
/// the lookups of that key.
proof fn lemma_lookup_push(entries: Seq<StoredReport>, e: StoredReport, o: u64, k: u64)
    requires
        forall|j: int|
            0 <= j < entries.len() ==> !entry_matches(#[trigger] entries[j], e.owner, e.period_key),
    ensures
        lookup_report(entries.push(e), o, k) == (if entry_matches(e, o, k) {
            Some(e.report)
        } else {
            lookup_report(entries, o, k)
        }),
    decreases entries.len(),
{
    if entries.len() == 0 {
        assert(entries.push(e)[0] == e);
        assert(entries.push(e).skip(1) =~= Seq::<StoredReport>::empty());
        assert(lookup_report(Seq::<StoredReport>::empty(), o, k) is None);
    } else {
        assert(entries.push(e)[0] == entries[0]);
        if entry_matches(entries[0], o, k) {
            assert(!entry_matches(entries[0], e.owner, e.period_key));
            assert(!entry_matches(e, o, k));
        } else {
            assert forall|j: int|
                0 <= j < entries.skip(1).len() implies !entry_matches(
                #[trigger] entries.skip(1)[j],
                e.owner,
                e.period_key,
            ) by {
                assert(entries.skip(1)[j] == entries[j + 1]);
            }
            assert(entries.push(e).skip(1) =~= entries.skip(1).push(e));
            lemma_lookup_push(entries.skip(1), e, o, k);
        }
    }
}

/// Overwriting the first bearer of a key with a fresh entry under the same
/// key changes exactly the lookups of that key.
proof fn lemma_lookup_update(entries: Seq<StoredReport>, i: int, e: StoredReport, o: u64, k: u64)
    requires
        0 <= i < entries.len(),
        entry_matches(entries[i], e.owner, e.period_key),
        forall|j: int| 0 <= j < i ==> !entry_matches(#[trigger] entries[j], e.owner, e.period_key),
    ensures
        lookup_report(entries.update(i, e), o, k) == (if entry_matches(e, o, k) {
            Some(e.report)
        } else {
            lookup_report(entries, o, k)
        }),
    decreases i,
{
    let u = entries.update(i, e);
    if i == 0 {
        assert(u[0] == e);
        if !entry_matches(e, o, k) {
            assert(u.skip(1) =~= entries.skip(1));
            assert(!entry_matches(entries[0], o, k));
        }
    } else {
        assert(!entry_matches(entries[0], e.owner, e.period_key));
        assert(u[0] == entries[0]);
        if entry_matches(entries[0], o, k) {
            assert(!entry_matches(e, o, k));
        } else {
            assert(entries.skip(1)[i - 1] == entries[i]);
            assert forall|j: int|
                0 <= j < i - 1 implies !entry_matches(
                #[trigger] entries.skip(1)[j],
                e.owner,
                e.period_key,
            ) by {
                assert(entries.skip(1)[j] == entries[j + 1]);
            }
            assert(u.skip(1) =~= entries.skip(1).update(i - 1, e));
            lemma_lookup_update(entries.skip(1), i - 1, e, o, k);
        }
    }
}

/// Index of the first entry bearing the key, if any.
fn find_report_index(entries: &Vec<StoredReport>, owner: u64, period_key: u64) -> (r: Option<
    usize,
>)
    ensures
        r matches Some(i) ==> i < entries@.len() && entry_matches(
            entries@[i as int],
            owner,
            period_key,
        ) && (forall|j: int|
            0 <= j < i ==> !entry_matches(#[trigger] entries@[j], owner, period_key)),
        r is None ==> forall|j: int|
            0 <= j < entries@.len() ==> !entry_matches(#[trigger] entries@[j], owner, period_key),
{
    let n = entries.len();
    let mut i: usize = 0;
    while i < n
        invariant
            i <= n,
            n == entries@.len(),
            forall|j: int| 0 <= j < i ==> !entry_matches(#[trigger] entries@[j], owner, period_key),
        decreases n - i,
    {
        let e = &entries[i];
        if e.owner == owner && e.period_key == period_key {
            return Some(i);
        }
        i = i + 1;
    }
    None
}

/// The reporting engine's persistent state: the admin identity, the
/// configured collaborator addresses, and the stored reports keyed by
/// (owner, period key).
pub struct ReportingContract {
    admin: Option<u64>,
    addresses: Option<ContractAddresses>,
    reports: Vec<StoredReport>,
}

impl ReportingContract {
    /// The admin identity, if initialization has happened.
    pub closed spec fn spec_admin(&self) -> Option<u64> {
        self.admin
    }

    /// The configured collaborator addresses, if configuration has happened.
    pub closed spec fn spec_addresses(&self) -> Option<ContractAddresses> {
        self.addresses
    }

    /// The report stored under (owner, period key), or "absent".
    pub closed spec fn spec_stored(&self, owner: u64, period_key: u64) -> Option<
        FinancialHealthReport,
    > {
        lookup_report(self.reports@, owner, period_key)
    }

    /// A fresh contract: no admin, no addresses, nothing stored.
    pub fn new() -> (c: ReportingContract)
        ensures
            c.spec_admin() is None,
            c.spec_addresses() is None,
            forall|o: u64, k: u64| c.spec_stored(o, k) is None,
    {
        ReportingContract { admin: None, addresses: None, reports: Vec::new() }
    }

    /// Record the admin identity, once. The host layer must have
    /// authenticated the caller as `admin` before this is applied. A second
    /// initialization is refused and changes nothing.
    pub fn init(&mut self, admin: u64) -> (r: Result<bool, ReportError>)
        ensures
            old(self).spec_admin() is None ==> (r matches Ok(b) && b) && final(self).spec_admin()
                == Some(admin),
            old(self).spec_admin() is Some ==> (r matches Err(e) && e
                == ReportError::AlreadyInitialized) && final(self).spec_admin() == old(self).spec_admin(),
            final(self).spec_addresses() == old(self).spec_addresses(),
            forall|o: u64, k: u64| final(self).spec_stored(o, k) == old(self).spec_stored(o, k),
    {
        if self.admin.is_some() {
            return Err(ReportError::AlreadyInitialized);
        }
        self.admin = Some(admin);
        Ok(true)
    }

    /// Record the collaborator addresses. Only the admin may configure;
    /// the host layer must have authenticated the caller as `caller`.
    pub fn configure_addresses(
        &mut self,
        caller: u64,
        remittance_split: u64,
        savings_goals: u64,
        bill_payments: u64,
        insurance: u64,
        family_wallet: u64,
    ) -> (r: Result<bool, ReportError>)
        ensures
            old(self).spec_admin() is None ==> (r matches Err(e) && e
                == ReportError::NotInitialized) && final(self).spec_addresses() == old(self).spec_addresses(),
            (old(self).spec_admin() matches Some(a) && caller != a) ==> (r matches Err(e) && e
                == ReportError::NotAuthorized) && final(self).spec_addresses() == old(self).spec_addresses(),
            old(self).spec_admin() == Some(caller) ==> (r matches Ok(b) && b) && (final(self).spec_addresses() matches Some(c) && c.remittance_split == remittance_split
                && c.savings_goals == savings_goals && c.bill_payments == bill_payments
                && c.insurance == insurance && c.family_wallet == family_wallet),
            final(self).spec_admin() == old(self).spec_admin(),
            forall|o: u64, k: u64| final(self).spec_stored(o, k) == old(self).spec_stored(o, k),
    {
        let admin = match self.admin {
            Some(a) => a,
            None => {
                return Err(ReportError::NotInitialized);
            },
        };
        if caller != admin {
            return Err(ReportError::NotAuthorized);
        }
        self.addresses = Some(
            ContractAddresses {
                remittance_split,
                savings_goals,
                bill_payments,
                insurance,
                family_wallet,
            },
        );
        Ok(true)
    }

    /// Remittance summary for a caller-supplied total, from the split
    /// collaborator's percentage and amount vectors.
    pub fn get_remittance_summary(
        &self,
        _user: u64,
        total_amount: i128,
        period_start: u64,
        period_end: u64,
        split_percentages: &Vec<u32>,
        split_amounts: &Vec<i128>,
    ) -> (r: Result<RemittanceSummary, ReportError>)
        ensures
            self.spec_addresses() is None ==> (r matches Err(e) && e == ReportError::NotConfigured),
            self.spec_addresses() is Some ==> (r matches Ok(s) && remittance_summary_matches(
                s,
                total_amount,
                period_start,
                period_end,
                split_percentages@,
                split_amounts@,
            )),
    {
        if self.addresses.is_none() {
            return Err(ReportError::NotConfigured);
        }
        Ok(
            compute_remittance_summary(
                total_amount,
                period_start,
                period_end,
                split_percentages,
                split_amounts,
            ),
        )
    }

    /// Savings progress report over the owner's goals as fetched from the
    /// savings collaborator.
    pub fn get_savings_report(
        &self,
        _user: u64,
        goals: &Vec<SavingsGoal>,
        period_start: u64,
        period_end: u64,
    ) -> (r: Result<SavingsReport, ReportError>)
        requires
            goals@.len() <= u32::MAX,
        ensures
            self.spec_addresses() is None ==> (r matches Err(e) && e == ReportError::NotConfigured),
            self.spec_addresses() is Some ==> {
                &&& r is Ok <==> savings_report_ok(goals@)
                &&& (r matches Ok(rep) ==> savings_report_matches(
                    rep,
                    goals@,
                    period_start,
                    period_end,
                ))
                &&& (r matches Err(e) ==> e == ReportError::Overflow)
            },
    {
        if self.addresses.is_none() {
            return Err(ReportError::NotConfigured);
        }
        compute_savings_report(goals, period_start, period_end)
    }

    /// Bill compliance report: the system-wide bill list as fetched from
    /// the bill collaborator, filtered here to the owner and the period
    /// window. `now` is the ledger timestamp supplied by the host layer.
    pub fn get_bill_compliance_report(
        &self,
        user: u64,
        all_bills: &Vec<Bill>,
        period_start: u64,
        period_end: u64,
        now: u64,
    ) -> (r: Result<BillComplianceReport, ReportError>)
        requires
            all_bills@.len() <= u32::MAX,
        ensures
            self.spec_addresses() is None ==> (r matches Err(e) && e == ReportError::NotConfigured),
            self.spec_addresses() is Some ==> {
                &&& r is Ok <==> bill_sums_fit(all_bills@, user, period_start, period_end)
                &&& (r matches Ok(rep) ==> bill_report_matches(
                    rep,
                    all_bills@,
                    user,
                    period_start,
                    period_end,
                    now,
                ))
                &&& (r matches Err(e) ==> e == ReportError::Overflow)
            },
    {
        if self.addresses.is_none() {
            return Err(ReportError::NotConfigured);
        }
        compute_bill_compliance_report(all_bills, user, period_start, period_end, now)
    }

    /// Insurance coverage report over the owner's active policies and the
    /// collaborator's monthly premium total.
    pub fn get_insurance_report(
        &self,
        _user: u64,
        active_policies: &Vec<InsurancePolicy>,
        monthly_premium: i128,
        period_start: u64,
        period_end: u64,
    ) -> (r: Result<InsuranceReport, ReportError>)
        requires
            active_policies@.len() <= u32::MAX,
        ensures
            self.spec_addresses() is None ==> (r matches Err(e) && e == ReportError::NotConfigured),
            self.spec_addresses() is Some ==> {
                &&& r is Ok <==> insurance_report_ok(active_policies@, monthly_premium as int)
                &&& (r matches Ok(rep) ==> insurance_report_matches(
                    rep,
                    active_policies@,
                    monthly_premium,
                    period_start,
                    period_end,
                ))
                &&& (r matches Err(e) ==> e == ReportError::Overflow)
            },
    {
        if self.addresses.is_none() {
            return Err(ReportError::NotConfigured);
        }
        compute_insurance_report(active_policies, monthly_premium, period_start, period_end)
    }

    /// Composite 0-100 health score from freshly fetched goals, unpaid
    /// bills, and active policies.
    pub fn calculate_health_score(
        &self,
        _user: u64,
        goals: &Vec<SavingsGoal>,
        unpaid_bills: &Vec<Bill>,
        active_policies: &Vec<InsurancePolicy>,
        now: u64,
    ) -> (r: Result<HealthScore, ReportError>)
        ensures
            self.spec_addresses() is None ==> (r matches Err(e) && e == ReportError::NotConfigured),
            self.spec_addresses() is Some ==> {
                &&& r is Ok <==> health_score_ok(goals@)
                &&& (r matches Ok(h) ==> health_score_matches(
                    h,
                    goals@,
                    unpaid_bills@,
                    active_policies@,
                    now,
                ))
                &&& (r matches Err(e) ==> e == ReportError::Overflow)
            },
    {
        if self.addresses.is_none() {
            return Err(ReportError::NotConfigured);
        }
        compute_health_score(goals, unpaid_bills, active_policies, now)
    }

    /// Assemble the composite report: the health score, the four domain
    /// reports, and the generation timestamp, in one all-or-nothing step.
    pub fn get_financial_health_report(
        &self,
        user: u64,
        total_remittance: i128,
        period_start: u64,
        period_end: u64,
        split_percentages: &Vec<u32>,
        split_amounts: &Vec<i128>,
        goals: &Vec<SavingsGoal>,
        all_bills: &Vec<Bill>,
        unpaid_bills: &Vec<Bill>,
        active_policies: &Vec<InsurancePolicy>,
        monthly_premium: i128,
        now: u64,
    ) -> (r: Result<FinancialHealthReport, ReportError>)
        requires
            goals@.len() <= u32::MAX,
            all_bills@.len() <= u32::MAX,
            active_policies@.len() <= u32::MAX,
        ensures
            self.spec_addresses() is None ==> (r matches Err(e) && e == ReportError::NotConfigured),
            self.spec_addresses() is Some ==> {
                &&& r is Ok <==> {
                    &&& health_score_ok(goals@)
                    &&& savings_report_ok(goals@)
                    &&& bill_sums_fit(all_bills@, user, period_start, period_end)
                    &&& insurance_report_ok(active_policies@, monthly_premium as int)
                }
                &&& (r matches Ok(rep) ==> {
                    &&& health_score_matches(
                        rep.health_score,
                        goals@,
                        unpaid_bills@,
                        active_policies@,
                        now,
                    )
                    &&& remittance_summary_matches(
                        rep.remittance_summary,
                        total_remittance,
                        period_start,
                        period_end,
                        split_percentages@,
                        split_amounts@,
                    )
                    &&& savings_report_matches(rep.savings_report, goals@, period_start, period_end)
                    &&& bill_report_matches(
                        rep.bill_compliance,
                        all_bills@,
                        user,
                        period_start,
                        period_end,
                        now,
                    )
                    &&& insurance_report_matches(
                        rep.insurance_report,
                        active_policies@,
                        monthly_premium,
                        period_start,
                        period_end,
                    )
                    &&& rep.generated_at == now
                })
                &&& (r matches Err(e) ==> e == ReportError::Overflow)
            },
    {
        if self.addresses.is_none() {
            return Err(ReportError::NotConfigured);
        }
        let health_score = match compute_health_score(goals, unpaid_bills, active_policies, now) {
            Ok(h) => h,
            Err(e) => {
                return Err(e);
            },
        };
        let remittance_summary = compute_remittance_summary(
            total_remittance,
            period_start,
            period_end,
            split_percentages,
            split_amounts,
        );
        let savings_report = match compute_savings_report(goals, period_start, period_end) {
            Ok(rep) => rep,
            Err(e) => {
                return Err(e);
            },
        };
        let bill_compliance = match compute_bill_compliance_report(
            all_bills,
            user,
            period_start,
            period_end,
            now,
        ) {
            Ok(rep) => rep,
            Err(e) => {
                return Err(e);
            },
        };
        let insurance_report = match compute_insurance_report(
            active_policies,
            monthly_premium,
            period_start,
            period_end,
        ) {
            Ok(rep) => rep,
            Err(e) => {
                return Err(e);
            },
        };
        Ok(
            FinancialHealthReport {
                health_score,
                remittance_summary,
                savings_report,
                bill_compliance,
                insurance_report,
                generated_at: now,
            },
        )
    }

    /// Trend analysis comparing two periods; pure, needs no configuration.
    pub fn get_trend_analysis(
        &self,
        _user: u64,
        current_amount: i128,
        previous_amount: i128,
    ) -> (r: Result<TrendData, ReportError>)
        ensures
            r is Ok <==> trend_ok(current_amount as int, previous_amount as int),
            r matches Ok(t) ==> {
                &&& t.current_amount == current_amount
                &&& t.previous_amount == previous_amount
                &&& t.change_amount == current_amount - previous_amount
                &&& t.change_percentage == spec_change_percentage(
                    current_amount as int,
                    previous_amount as int,
                )
            },
            r matches Err(e) ==> e == ReportError::Overflow,
    {
        compute_trend(current_amount, previous_amount)
    }

    /// Store a report under (owner, period key), silently overwriting any
    /// prior entry for the same key and touching no other key. The host
    /// layer must have authenticated the caller as `user`.
    pub fn store_report(
        &mut self,
        user: u64,
        report: FinancialHealthReport,
        period_key: u64,
    ) -> (r: bool)
        ensures
            r,
            final(self).spec_stored(user, period_key) == Some(report),
            forall|o: u64, k: u64|
                !(o == user && k == period_key) ==> final(self).spec_stored(o, k) == old(self).spec_stored(o, k),
            final(self).spec_admin() == old(self).spec_admin(),
            final(self).spec_addresses() == old(self).spec_addresses(),
    {
        let entry = StoredReport { owner: user, period_key, report };
        let ghost s0 = self.reports@;
        match find_report_index(&self.reports, user, period_key) {
            Some(i) => {
                self.reports.set(i, entry);
                proof {
                    assert forall|o: u64, k: u64|
                        #[trigger] lookup_report(self.reports@, o, k) == (if entry_matches(
                            entry,
                            o,
                            k,
                        ) {
                            Some(entry.report)
                        } else {
                            lookup_report(s0, o, k)
                        }) by {
                        lemma_lookup_update(s0, i as int, entry, o, k);
                    }
                }
            },
            None => {
                self.reports.push(entry);
                proof {
                    assert forall|o: u64, k: u64|
                        #[trigger] lookup_report(self.reports@, o, k) == (if entry_matches(
                            entry,
                            o,
                            k,
                        ) {
                            Some(entry.report)
                        } else {
                            lookup_report(s0, o, k)
                        }) by {
                        lemma_lookup_push(s0, entry, o, k);
                    }
                }
            },
        }
        true
    }

    /// The report stored under (owner, period key), or `None` when that
    /// key was never written; never a fabricated default.
    pub fn get_stored_report(&self, user: u64, period_key: u64) -> (r: Option<
        FinancialHealthReport,
    >)
        ensures
            r == self.spec_stored(user, period_key),
    {
        match find_report_index(&self.reports, user, period_key) {
            Some(i) => {
                proof {
                    lemma_first_match_lookup(self.reports@, i as int, user, period_key);
                }
                Some(self.reports[i].report)
            },
            None => {
                proof {
                    lemma_no_match_lookup_none(self.reports@, user, period_key);
                }
                None
            },
        }
    }

    /// The configured collaborator addresses, if any.
    pub fn get_addresses(&self) -> (r: Option<ContractAddresses>)
        ensures
            r == self.spec_addresses(),
    {
        self.addresses
    }

    /// The admin identity, if initialized.
    pub fn get_admin(&self) -> (r: Option<u64>)
        ensures
            r == self.spec_admin(),
    {
        self.admin
    }
}

} // verus!
