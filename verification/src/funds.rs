//! The funds check: could the payer cover the transfer right now?
//!
//! The answer is advice. Balances move between a verification and a
//! settlement, and only the transfer itself settles the question.

use crate::address::AddressRef;
use crate::amount::TokenAmount;
use crate::payment::{
    PaymentAuthorization, PaymentAuthorizationView, PaymentRequirements, PaymentRequirementsView,
};
use crate::taxonomy::{FacilitatorLocalError, FacilitatorLocalErrorView, stage_result_is};
use vstd::prelude::*;

verus! {

/// What to ask the chain: the holdings of `payer` in `token` on `network`,
/// to be held against `amount`.
#[derive(Debug, PartialEq, Eq)]
pub struct FundsQuery {
    pub network: String,
    pub token: AddressRef,
    pub payer: AddressRef,
    pub amount: TokenAmount,
}

/// The model of a [`FundsQuery`].
pub struct FundsQueryView {
    pub network: Seq<char>,
    pub token: AddressRef,
    pub payer: AddressRef,
    pub amount: nat,
}

impl View for FundsQuery {
    type V = FundsQueryView;

    open spec fn view(&self) -> FundsQueryView {
        FundsQueryView {
            network: self.network@,
            token: self.token,
            payer: self.payer,
            amount: self.amount@,
        }
    }
}

/// What the chain reported of the payer's holdings.
#[derive(Debug, PartialEq, Eq)]
pub enum FundsReport {
    /// The payer's balance and, where the scheme needs an approval, how
    /// much of it is approved.
    Holdings { balance: TokenAmount, allowance: Option<TokenAmount> },
    /// The chain could not be asked.
    Unreachable { detail: String },
}

/// The model of a [`FundsReport`].
pub enum FundsReportView {
    Holdings { balance: nat, allowance: Option<nat> },
    Unreachable { detail: Seq<char> },
}

impl View for FundsReport {
    type V = FundsReportView;

    open spec fn view(&self) -> FundsReportView {
        match self {
            FundsReport::Holdings { balance, allowance } => FundsReportView::Holdings {
                balance: balance@,
                allowance: match allowance {
                    Some(approved) => Some(approved@),
                    None => None,
                },
            },
            FundsReport::Unreachable { detail } => FundsReportView::Unreachable { detail: detail@ },
        }
    }
}

impl Clone for FundsReport {
    fn clone(&self) -> (copy: FundsReport)
        ensures
            copy@ == self@,
    {
        match self {
            FundsReport::Holdings { balance, allowance } => FundsReport::Holdings {
                balance: *balance,
                allowance: *allowance,
            },
            FundsReport::Unreachable { detail } => FundsReport::Unreachable {
                detail: detail.clone(),
            },
        }
    }
}

/// The question that the funds check of this payment puts to the chain.
pub open spec fn funds_query_view(
    requirements: PaymentRequirementsView,
    authorization: PaymentAuthorizationView,
) -> FundsQueryView {
    FundsQueryView {
        network: requirements.network,
        token: requirements.asset,
        payer: authorization.payer,
        amount: authorization.amount,
    }
}

/// The failure of the funds check, if it fails.
///
/// The balance has to cover the amount, and so has the allowance where
/// there is one. A chain that could not be asked is a fault of the
/// facilitator and never counts as a lack of funds.
pub open spec fn funds_failure(payer: AddressRef, amount: nat, report: FundsReportView) -> Option<
    FacilitatorLocalErrorView,
> {
    match report {
        FundsReportView::Unreachable { detail } => Some(
            FacilitatorLocalErrorView::ContractCall { detail },
        ),
        FundsReportView::Holdings { balance, allowance } => {
            if balance < amount {
                Some(FacilitatorLocalErrorView::InsufficientFunds { payer })
            } else if allowance is Some && allowance.unwrap() < amount {
                Some(FacilitatorLocalErrorView::InsufficientFunds { payer })
            } else {
                None
            }
        },
    }
}

/// The question that the funds check of this payment puts to the chain.
pub fn funds_query(requirements: &PaymentRequirements, authorization: &PaymentAuthorization) -> (query:
    FundsQuery)
    ensures
        query@ == funds_query_view(requirements@, authorization@),
{
    FundsQuery {
        network: requirements.network.clone(),
        token: requirements.asset,
        payer: authorization.payer,
        amount: authorization.amount,
    }
}

/// Holds what the chain reported against the amount to be transferred.
pub fn check_funds(payer: AddressRef, amount: &TokenAmount, report: &FundsReport) -> (result: Result<
    (),
    FacilitatorLocalError,
>)
    ensures
        stage_result_is(result, funds_failure(payer, amount@, report@)),
{
    match report {
        FundsReport::Unreachable { detail } => Err(
            FacilitatorLocalError::ContractCall { detail: detail.clone() },
        ),
        FundsReport::Holdings { balance, allowance } => {
            if !balance.at_least(amount) {
                return Err(FacilitatorLocalError::InsufficientFunds { payer });
            }
            match allowance {
                Some(approved) => {
                    if approved.at_least(amount) {
                        Ok(())
                    } else {
                        Err(FacilitatorLocalError::InsufficientFunds { payer })
                    }
                },
                None => Ok(()),
            }
        },
    }
}

} // verus!
