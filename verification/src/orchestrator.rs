//! The settlement orchestrator: from a request to settle to the claim of
//! its key.
//!
//! A request to settle is verified anew every time, whatever an earlier
//! verification said: between the two the window may have closed. Only a
//! payment that passes is looked up in the table, and only a payment whose
//! key is free is claimed. What follows the claim is driven through
//! [`SettlementTable::submit`] and [`SettlementTable::record_event`].

use crate::funds::{FundsQuery, FundsQueryView};
use crate::outcome::{SettleOutcome, SettleOutcomeView, VerifyOutcome, VerifyOutcomeView};
use crate::payment::{
    PaymentAuthorization, PaymentAuthorizationView, PaymentRequirements, PaymentRequirementsView,
};
use crate::pipeline::{Evidence, EvidenceView, Facilitator, FacilitatorView, Progress, ProgressView};
use crate::record::{SettlementKey, SettlementKeyView, settlement_key_view};
use crate::table::{
    Admission, AdmissionView, SettlementTable, TableView, claim_step, table_well_formed,
};
use vstd::prelude::*;

verus! {

/// Where a request to settle stands.
#[derive(Debug, PartialEq, Eq)]
pub enum SettleStep {
    /// The signer has to be recovered from the signature.
    NeedSigner,
    /// The clock has to be read.
    NeedClock,
    /// The chain has to be asked for the payer's funds.
    NeedFunds(FundsQuery),
    /// The payment did not pass verification. Nothing was claimed.
    Refused(SettleOutcome),
    /// The settlement under this key ended earlier, with this result.
    Settled(SettleOutcome),
    /// Another request holds the key and its settlement has not ended.
    /// Nothing is to be sent; the result can be asked for later.
    InProgress,
    /// The key was free and is now claimed by this request, which has to
    /// drive the settlement under it.
    Claimed(SettlementKey),
}

/// The model of a [`SettleStep`].
pub enum SettleStepView {
    NeedSigner,
    NeedClock,
    NeedFunds(FundsQueryView),
    Refused(SettleOutcomeView),
    Settled(SettleOutcomeView),
    InProgress,
    Claimed(SettlementKeyView),
}

impl View for SettleStep {
    type V = SettleStepView;

    open spec fn view(&self) -> SettleStepView {
        match self {
            SettleStep::NeedSigner => SettleStepView::NeedSigner,
            SettleStep::NeedClock => SettleStepView::NeedClock,
            SettleStep::NeedFunds(query) => SettleStepView::NeedFunds(query@),
            SettleStep::Refused(outcome) => SettleStepView::Refused(outcome@),
            SettleStep::Settled(outcome) => SettleStepView::Settled(outcome@),
            SettleStep::InProgress => SettleStepView::InProgress,
            SettleStep::Claimed(key) => SettleStepView::Claimed(key@),
        }
    }
}

/// A request to settle, taken as far as `evidence` allows.
///
/// While the verification waits for a report, so does the request. A
/// payment that fails verification is refused with the payer and the
/// reason of the verdict, and the table is not touched. A payment that
/// passes is put to the table under its key.
pub open spec fn settle_step(
    table: TableView,
    facilitator: FacilitatorView,
    requirements: PaymentRequirementsView,
    authorization: PaymentAuthorizationView,
    evidence: EvidenceView,
) -> (TableView, SettleStepView) {
    match facilitator.progress(requirements, authorization, evidence) {
        ProgressView::NeedSigner => (table, SettleStepView::NeedSigner),
        ProgressView::NeedClock => (table, SettleStepView::NeedClock),
        ProgressView::NeedFunds(query) => (table, SettleStepView::NeedFunds(query)),
        ProgressView::Done(VerifyOutcomeView::Invalid { payer, reason }) => (
            table,
            SettleStepView::Refused(SettleOutcomeView::Failure { payer, reason }),
        ),
        ProgressView::Done(VerifyOutcomeView::Valid { .. }) => {
            let key = settlement_key_view(requirements, authorization);
            let claimed = claim_step(table, key, authorization.amount);
            match claimed.1 {
                AdmissionView::Claimed => (claimed.0, SettleStepView::Claimed(key)),
                AdmissionView::InProgress => (claimed.0, SettleStepView::InProgress),
                AdmissionView::Settled(outcome) => (claimed.0, SettleStepView::Settled(outcome)),
            }
        },
    }
}

/// Takes a request to settle as far as `evidence` allows.
///
/// On `Claimed` the caller has to drive the settlement: first
/// [`SettlementTable::submit`], then whatever the directives say. On every
/// other answer the caller has nothing to send.
pub fn settle(
    table: &mut SettlementTable,
    facilitator: &Facilitator,
    requirements: &PaymentRequirements,
    authorization: &PaymentAuthorization,
    evidence: &Evidence,
) -> (step: SettleStep)
    ensures
        (final(table)@, step@) == settle_step(
            old(table)@,
            facilitator@,
            requirements@,
            authorization@,
            evidence@,
        ),
        final(table).retention() == old(table).retention(),
        table_well_formed(final(table)@),
{
    table.check_well_formed();
    match facilitator.advance(requirements, authorization, evidence) {
        Progress::NeedSigner => SettleStep::NeedSigner,
        Progress::NeedClock => SettleStep::NeedClock,
        Progress::NeedFunds(query) => SettleStep::NeedFunds(query),
        Progress::Done(VerifyOutcome::Invalid { payer, reason }) => SettleStep::Refused(
            SettleOutcome::Failure { payer, reason },
        ),
        Progress::Done(VerifyOutcome::Valid { .. }) => {
            let key = SettlementKey::of(requirements, authorization);
            match table.claim(key.clone(), authorization.amount) {
                Admission::Claimed => SettleStep::Claimed(key),
                Admission::InProgress => SettleStep::InProgress,
                Admission::Settled(outcome) => SettleStep::Settled(outcome),
            }
        },
    }
}

} // verus!
