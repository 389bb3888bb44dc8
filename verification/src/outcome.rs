//! What the facilitator answers: the verdict on a payment, and the result
//! of settling one.

use crate::address::AddressRef;
use crate::amount::TokenAmount;
use crate::taxonomy::{
    ErrorReason, ErrorReasonView, FacilitatorLocalError, FacilitatorLocalErrorView,
};
use vstd::prelude::*;
use vstd::slice::slice_to_vec;

verus! {

/// The verdict on a payment.
#[derive(Debug, PartialEq, Eq)]
#[allow(inconsistent_fields)]
pub enum VerifyOutcome {
    /// The authorization satisfies the requirements.
    Valid { payer: AddressRef },
    /// It does not, or no verdict could be reached.
    Invalid { payer: Option<AddressRef>, reason: ErrorReason },
}

/// The model of a [`VerifyOutcome`].
#[allow(inconsistent_fields)]
pub enum VerifyOutcomeView {
    Valid { payer: AddressRef },
    Invalid { payer: Option<AddressRef>, reason: ErrorReasonView },
}

impl View for VerifyOutcome {
    type V = VerifyOutcomeView;

    open spec fn view(&self) -> VerifyOutcomeView {
        match self {
            VerifyOutcome::Valid { payer } => VerifyOutcomeView::Valid { payer: *payer },
            VerifyOutcome::Invalid { payer, reason } => VerifyOutcomeView::Invalid {
                payer: *payer,
                reason: reason@,
            },
        }
    }
}

impl VerifyOutcomeView {
    /// The verdict that reports the failure `error`.
    pub open spec fn rejected(error: FacilitatorLocalErrorView) -> VerifyOutcomeView {
        VerifyOutcomeView::Invalid { payer: error.payer(), reason: error.reason() }
    }
}

impl Clone for VerifyOutcome {
    fn clone(&self) -> (copy: VerifyOutcome)
        ensures
            copy@ == self@,
    {
        match self {
            VerifyOutcome::Valid { payer } => VerifyOutcome::Valid { payer: *payer },
            VerifyOutcome::Invalid { payer, reason } => VerifyOutcome::Invalid {
                payer: *payer,
                reason: reason.clone(),
            },
        }
    }
}

/// The verdict for a payment made under another scheme than was asked for.
pub fn invalid_schema(payer: Option<AddressRef>) -> (outcome: VerifyOutcome)
    ensures
        outcome@ == (VerifyOutcomeView::Invalid { payer, reason: ErrorReasonView::SchemeMismatch }),
{
    VerifyOutcome::invalid(payer, ErrorReason::SchemeMismatch)
}

impl VerifyOutcome {
    /// The negative verdict with the given payer and reason.
    pub fn invalid(payer: Option<AddressRef>, reason: ErrorReason) -> (outcome: VerifyOutcome)
        ensures
            outcome@ == (VerifyOutcomeView::Invalid { payer, reason: reason@ }),
    {
        VerifyOutcome::Invalid { payer, reason }
    }

    /// The verdict that reports the failure `error`: its payer, where it
    /// has one, and its reason.
    pub fn rejected(error: &FacilitatorLocalError) -> (outcome: VerifyOutcome)
        ensures
            outcome@ == VerifyOutcomeView::rejected(error@),
    {
        match error {
            FacilitatorLocalError::SchemeMismatch { payer, .. } => invalid_schema(*payer),
            _ => VerifyOutcome::invalid(error.payer(), error.reason()),
        }
    }

    /// Whether the verdict is positive.
    pub fn is_valid(&self) -> (valid: bool)
        ensures
            valid == (self@ is Valid),
    {
        match self {
            VerifyOutcome::Valid { .. } => true,
            VerifyOutcome::Invalid { .. } => false,
        }
    }
}

/// The result of settling a payment.
#[derive(Debug, PartialEq, Eq)]
#[allow(inconsistent_fields)]
pub enum SettleOutcome {
    /// The transfer is on chain.
    Success { network: String, transaction: Vec<u8>, payer: AddressRef, amount: TokenAmount },
    /// The transfer was not made.
    Failure { payer: Option<AddressRef>, reason: ErrorReason },
}

/// The model of a [`SettleOutcome`].
#[allow(inconsistent_fields)]
pub enum SettleOutcomeView {
    Success { network: Seq<char>, transaction: Seq<u8>, payer: AddressRef, amount: nat },
    Failure { payer: Option<AddressRef>, reason: ErrorReasonView },
}

impl View for SettleOutcome {
    type V = SettleOutcomeView;

    open spec fn view(&self) -> SettleOutcomeView {
        match self {
            SettleOutcome::Success { network, transaction, payer, amount } => {
                SettleOutcomeView::Success {
                    network: network@,
                    transaction: transaction@,
                    payer: *payer,
                    amount: amount@,
                }
            },
            SettleOutcome::Failure { payer, reason } => SettleOutcomeView::Failure {
                payer: *payer,
                reason: reason@,
            },
        }
    }
}

impl SettleOutcomeView {
    /// The result that reports the failure `error`.
    pub open spec fn rejected(error: FacilitatorLocalErrorView) -> SettleOutcomeView {
        SettleOutcomeView::Failure { payer: error.payer(), reason: error.reason() }
    }
}

impl Clone for SettleOutcome {
    fn clone(&self) -> (copy: SettleOutcome)
        ensures
            copy@ == self@,
    {
        match self {
            SettleOutcome::Success { network, transaction, payer, amount } => {
                SettleOutcome::Success {
                    network: network.clone(),
                    transaction: slice_to_vec(transaction.as_slice()),
                    payer: *payer,
                    amount: *amount,
                }
            },
            SettleOutcome::Failure { payer, reason } => SettleOutcome::Failure {
                payer: *payer,
                reason: reason.clone(),
            },
        }
    }
}

impl SettleOutcome {
    /// The result that reports the failure `error`: its payer, where it
    /// has one, and its reason.
    pub fn rejected(error: &FacilitatorLocalError) -> (outcome: SettleOutcome)
        ensures
            outcome@ == SettleOutcomeView::rejected(error@),
    {
        SettleOutcome::Failure { payer: error.payer(), reason: error.reason() }
    }

    /// Whether the transfer was made.
    pub fn is_success(&self) -> (success: bool)
        ensures
            success == (self@ is Success),
    {
        match self {
            SettleOutcome::Success { .. } => true,
            SettleOutcome::Failure { .. } => false,
        }
    }
}

} // verus!
