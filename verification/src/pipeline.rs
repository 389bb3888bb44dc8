//! The verification pipeline: matcher, signature, timing and, where the
//! policy asks for it, funds, in that order. The first stage that fails
//! decides the verdict.
//!
//! The order puts what is cheap before what is costly: comparing fields
//! before recovering a signer, and both before asking the chain. So that a
//! caller need not pay for what will not be looked at, [`Facilitator::advance`]
//! takes what has been gathered so far and says what to gather next.

use crate::funds::{
    FundsQuery, FundsQueryView, FundsReport, FundsReportView, check_funds, funds_failure,
    funds_query, funds_query_view,
};
use crate::matcher::{match_failure, match_requirements};
use crate::outcome::{VerifyOutcome, VerifyOutcomeView};
use crate::payment::{
    PaymentAuthorization, PaymentAuthorizationView, PaymentRequirements, PaymentRequirementsView,
};
use crate::registry::{SupportedEntryView, SupportedRegistry};
use crate::signature::{SignerReport, signature_failure, verify_signature};
use crate::taxonomy::{ErrorReasonView, FacilitatorLocalErrorView};
use crate::timing::{ClockReport, check_clock, clock_failure};
use vstd::prelude::*;

verus! {

/// Whether a verification asks the chain for the payer's funds.
#[derive(Clone, Copy, Debug, PartialEq, Eq, Structural)]
pub enum FundsPolicy {
    /// Leave the question to the settlement.
    Skip,
    /// Ask, and turn down a payment that the payer could not cover.
    Check,
}

/// A facilitator: what it accepts, and how it verifies.
#[derive(Debug, PartialEq, Eq)]
pub struct Facilitator {
    pub registry: SupportedRegistry,
    pub funds_policy: FundsPolicy,
}

/// The model of a [`Facilitator`].
pub struct FacilitatorView {
    pub registry: Seq<SupportedEntryView>,
    pub funds_policy: FundsPolicy,
}

impl View for Facilitator {
    type V = FacilitatorView;

    open spec fn view(&self) -> FacilitatorView {
        FacilitatorView { registry: self.registry@, funds_policy: self.funds_policy }
    }
}

/// What the collaborators have reported so far for one payment.
#[derive(Debug, PartialEq, Eq)]
pub struct Evidence {
    pub signer: Option<SignerReport>,
    pub clock: Option<ClockReport>,
    pub funds: Option<FundsReport>,
}

/// The model of [`Evidence`].
pub struct EvidenceView {
    pub signer: Option<SignerReport>,
    pub clock: Option<ClockReport>,
    pub funds: Option<FundsReportView>,
}

impl View for Evidence {
    type V = EvidenceView;

    open spec fn view(&self) -> EvidenceView {
        EvidenceView {
            signer: self.signer,
            clock: self.clock,
            funds: match self.funds {
                Some(report) => Some(report@),
                None => None,
            },
        }
    }
}

impl EvidenceView {
    /// Whether the full reports `signer`, `clock` and `funds` say the same
    /// as this evidence wherever this evidence says anything.
    pub open spec fn agrees_with(
        self,
        signer: SignerReport,
        clock: ClockReport,
        funds: FundsReportView,
    ) -> bool {
        &&& self.signer is Some ==> self.signer == Some(signer)
        &&& self.clock is Some ==> self.clock == Some(clock)
        &&& self.funds is Some ==> self.funds == Some(funds)
    }
}

/// Where a verification stands.
#[derive(Debug, PartialEq, Eq)]
pub enum Progress {
    /// The signer has to be recovered from the signature.
    NeedSigner,
    /// The clock has to be read.
    NeedClock,
    /// The chain has to be asked for the payer's funds.
    NeedFunds(FundsQuery),
    /// The verdict is reached.
    Done(VerifyOutcome),
}

/// The model of [`Progress`].
pub enum ProgressView {
    NeedSigner,
    NeedClock,
    NeedFunds(FundsQueryView),
    Done(VerifyOutcomeView),
}

impl View for Progress {
    type V = ProgressView;

    open spec fn view(&self) -> ProgressView {
        match self {
            Progress::NeedSigner => ProgressView::NeedSigner,
            Progress::NeedClock => ProgressView::NeedClock,
            Progress::NeedFunds(query) => ProgressView::NeedFunds(query@),
            Progress::Done(outcome) => ProgressView::Done(outcome@),
        }
    }
}

impl FacilitatorView {
    /// The failure of the funds stage, if it runs and fails.
    pub open spec fn funds_stage_failure(
        self,
        authorization: PaymentAuthorizationView,
        funds: FundsReportView,
    ) -> Option<FacilitatorLocalErrorView> {
        if self.funds_policy == FundsPolicy::Check {
            funds_failure(authorization.payer, authorization.amount, funds)
        } else {
            None
        }
    }

    /// The failure of the first stage that fails, if any does.
    pub open spec fn first_failure(
        self,
        requirements: PaymentRequirementsView,
        authorization: PaymentAuthorizationView,
        signer: SignerReport,
        clock: ClockReport,
        funds: FundsReportView,
    ) -> Option<FacilitatorLocalErrorView> {
        let matching = match_failure(self.registry, requirements, authorization);
        let signing = signature_failure(authorization, signer);
        let timing = clock_failure(authorization, clock);
        if matching is Some {
            matching
        } else if signing is Some {
            signing
        } else if timing is Some {
            timing
        } else {
            self.funds_stage_failure(authorization, funds)
        }
    }

    /// The verdict on a payment, given what all collaborators report.
    pub open spec fn verdict(
        self,
        requirements: PaymentRequirementsView,
        authorization: PaymentAuthorizationView,
        signer: SignerReport,
        clock: ClockReport,
        funds: FundsReportView,
    ) -> VerifyOutcomeView {
        match self.first_failure(requirements, authorization, signer, clock, funds) {
            Some(error) => VerifyOutcomeView::rejected(error),
            None => VerifyOutcomeView::Valid { payer: authorization.payer },
        }
    }

    /// Where the verification of a payment stands, given what has been
    /// gathered so far: the verdict, if the stages that can run decide it,
    /// and otherwise the report that the next stage is waiting for.
    pub open spec fn progress(
        self,
        requirements: PaymentRequirementsView,
        authorization: PaymentAuthorizationView,
        evidence: EvidenceView,
    ) -> ProgressView {
        let matching = match_failure(self.registry, requirements, authorization);
        if matching is Some {
            ProgressView::Done(VerifyOutcomeView::rejected(matching.unwrap()))
        } else if evidence.signer is None {
            ProgressView::NeedSigner
        } else if signature_failure(authorization, evidence.signer.unwrap()) is Some {
            ProgressView::Done(
                VerifyOutcomeView::rejected(
                    signature_failure(authorization, evidence.signer.unwrap()).unwrap(),
                ),
            )
        } else if evidence.clock is None {
            ProgressView::NeedClock
        } else if clock_failure(authorization, evidence.clock.unwrap()) is Some {
            ProgressView::Done(
                VerifyOutcomeView::rejected(
                    clock_failure(authorization, evidence.clock.unwrap()).unwrap(),
                ),
            )
        } else if self.funds_policy == FundsPolicy::Skip {
            ProgressView::Done(VerifyOutcomeView::Valid { payer: authorization.payer })
        } else if evidence.funds is None {
            ProgressView::NeedFunds(funds_query_view(requirements, authorization))
        } else {
            match funds_failure(authorization.payer, authorization.amount, evidence.funds.unwrap()) {
                Some(error) => ProgressView::Done(VerifyOutcomeView::rejected(error)),
                None => ProgressView::Done(VerifyOutcomeView::Valid { payer: authorization.payer }),
            }
        }
    }
}

impl Evidence {
    /// Nothing gathered yet.
    pub fn new() -> (evidence: Evidence)
        ensures
            evidence@ == (EvidenceView { signer: None, clock: None, funds: None }),
    {
        Evidence { signer: None, clock: None, funds: None }
    }
}

impl Facilitator {
    /// A facilitator that accepts what `registry` lists and verifies under
    /// `funds_policy`.
    pub fn new(registry: SupportedRegistry, funds_policy: FundsPolicy) -> (facilitator: Facilitator)
        ensures
            facilitator@ == (FacilitatorView { registry: registry@, funds_policy }),
    {
        Facilitator { registry, funds_policy }
    }

    /// Verifies a payment, given what all collaborators report.
    ///
    /// The verdict is positive exactly when no stage fails, and names the
    /// payer. Otherwise it carries the payer and the reason of the first
    /// stage that fails, in the order matcher, signature, timing, funds.
    /// The funds stage runs only under [`FundsPolicy::Check`].
    pub fn verify(
        &self,
        requirements: &PaymentRequirements,
        authorization: &PaymentAuthorization,
        signer: &SignerReport,
        clock: &ClockReport,
        funds: &FundsReport,
    ) -> (outcome: VerifyOutcome)
        ensures
            outcome@ == self@.verdict(requirements@, authorization@, *signer, *clock, funds@),
    {
        if let Err(error) = match_requirements(&self.registry, requirements, authorization) {
            return VerifyOutcome::rejected(&error);
        }
        if let Err(error) = verify_signature(authorization, signer) {
            return VerifyOutcome::rejected(&error);
        }
        if let Err(error) = check_clock(authorization, clock) {
            return VerifyOutcome::rejected(&error);
        }
        if self.funds_policy == FundsPolicy::Check {
            if let Err(error) = check_funds(authorization.payer, &authorization.amount, funds) {
                return VerifyOutcome::rejected(&error);
            }
        }
        VerifyOutcome::Valid { payer: authorization.payer }
    }

    /// Takes the verification of a payment as far as `evidence` allows.
    ///
    /// Returns the verdict as soon as the stages that can run decide it,
    /// and otherwise names the one report that the next stage waits for. A
    /// report is never asked for twice, nor before every earlier stage has
    /// passed.
    pub fn advance(
        &self,
        requirements: &PaymentRequirements,
        authorization: &PaymentAuthorization,
        evidence: &Evidence,
    ) -> (progress: Progress)
        ensures
            progress@ == self@.progress(requirements@, authorization@, evidence@),
    {
        if let Err(error) = match_requirements(&self.registry, requirements, authorization) {
            return Progress::Done(VerifyOutcome::rejected(&error));
        }
        let signer = match &evidence.signer {
            Some(signer) => signer,
            None => {
                return Progress::NeedSigner;
            },
        };
        if let Err(error) = verify_signature(authorization, signer) {
            return Progress::Done(VerifyOutcome::rejected(&error));
        }
        let clock = match &evidence.clock {
            Some(clock) => clock,
            None => {
                return Progress::NeedClock;
            },
        };
        if let Err(error) = check_clock(authorization, clock) {
            return Progress::Done(VerifyOutcome::rejected(&error));
        }
        if self.funds_policy == FundsPolicy::Skip {
            return Progress::Done(VerifyOutcome::Valid { payer: authorization.payer });
        }
        let funds = match &evidence.funds {
            Some(funds) => funds,
            None => {
                return Progress::NeedFunds(funds_query(requirements, authorization));
            },
        };
        match check_funds(authorization.payer, &authorization.amount, funds) {
            Err(error) => Progress::Done(VerifyOutcome::rejected(&error)),
            Ok(_) => Progress::Done(VerifyOutcome::Valid { payer: authorization.payer }),
        }
    }
}

/// The verdict is a function of the requirements, the authorization and
/// what the collaborators report: inputs with the same models get the same
/// verdict, whoever asks and however often.
pub proof fn lemma_verdict_is_deterministic(
    first: Facilitator,
    second: Facilitator,
    requirements_a: PaymentRequirements,
    requirements_b: PaymentRequirements,
    authorization_a: PaymentAuthorization,
    authorization_b: PaymentAuthorization,
    signer: SignerReport,
    clock: ClockReport,
    funds_a: FundsReport,
    funds_b: FundsReport,
)
    requires
        first@ == second@,
        requirements_a@ == requirements_b@,
        authorization_a@ == authorization_b@,
        funds_a@ == funds_b@,
    ensures
        first@.verdict(requirements_a@, authorization_a@, signer, clock, funds_a@)
            == second@.verdict(requirements_b@, authorization_b@, signer, clock, funds_b@),
{
}

/// The first stage that fails decides, whatever the later stages would
/// have said: matcher before signature before timing before funds.
pub proof fn lemma_first_failure_wins(
    facilitator: FacilitatorView,
    requirements: PaymentRequirementsView,
    authorization: PaymentAuthorizationView,
    signer: SignerReport,
    clock: ClockReport,
    funds: FundsReportView,
)
    ensures
        ({
            let matching = match_failure(facilitator.registry, requirements, authorization);
            let signing = signature_failure(authorization, signer);
            let timing = clock_failure(authorization, clock);
            let paying = facilitator.funds_stage_failure(authorization, funds);
            let verdict = facilitator.verdict(requirements, authorization, signer, clock, funds);
            &&& matching is Some ==> verdict == VerifyOutcomeView::rejected(matching.unwrap())
            &&& matching is None && signing is Some ==> verdict == (VerifyOutcomeView::Invalid {
                payer: Some(authorization.payer),
                reason: ErrorReasonView::InvalidSignature,
            })
            &&& matching is None && signing is None && timing is Some ==> verdict
                == VerifyOutcomeView::rejected(timing.unwrap())
            &&& matching is None && signing is None && timing is None && paying is Some ==> verdict
                == VerifyOutcomeView::rejected(paying.unwrap())
            &&& matching is None && signing is None && timing is None && paying is None
                <==> verdict == (VerifyOutcomeView::Valid { payer: authorization.payer })
        }),
{
}

/// A verdict that [`Facilitator::advance`] reaches early is the verdict
/// that [`Facilitator::verify`] reaches on the full reports, whatever the
/// reports that were not waited for would have said.
pub proof fn lemma_early_verdict_is_final(
    facilitator: FacilitatorView,
    requirements: PaymentRequirementsView,
    authorization: PaymentAuthorizationView,
    evidence: EvidenceView,
    signer: SignerReport,
    clock: ClockReport,
    funds: FundsReportView,
)
    requires
        evidence.agrees_with(signer, clock, funds),
        facilitator.progress(requirements, authorization, evidence) is Done,
    ensures
        facilitator.progress(requirements, authorization, evidence) == ProgressView::Done(
            facilitator.verdict(requirements, authorization, signer, clock, funds),
        ),
{
}

/// [`Facilitator::advance`] asks only for a report that it has not got,
/// and with all three reports in hand it reaches the verdict.
pub proof fn lemma_progress_is_made(
    facilitator: FacilitatorView,
    requirements: PaymentRequirementsView,
    authorization: PaymentAuthorizationView,
    evidence: EvidenceView,
)
    ensures
        ({
            let progress = facilitator.progress(requirements, authorization, evidence);
            &&& progress is NeedSigner ==> evidence.signer is None
            &&& progress is NeedClock ==> evidence.signer is Some && evidence.clock is None
            &&& progress is NeedFunds ==> evidence.signer is Some && evidence.clock is Some
                && evidence.funds is None && facilitator.funds_policy == FundsPolicy::Check
            &&& evidence.signer is Some && evidence.clock is Some && evidence.funds is Some
                ==> progress is Done
        }),
{
}

} // verus!
