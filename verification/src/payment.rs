//! What a payment is asked to be, and what the payer signed.

use crate::address::AddressRef;
use crate::amount::TokenAmount;
use vstd::prelude::*;
use vstd::slice::slice_to_vec;

verus! {

/// The terms that a resource server sets for a payment.
#[derive(Debug, PartialEq, Eq)]
pub struct PaymentRequirements {
    /// The payment scheme, such as `x402/erc-3009`.
    pub scheme: String,
    /// The network on which the payment is to be made.
    pub network: String,
    /// The token contract in which the payment is made.
    pub asset: AddressRef,
    /// Who is to be paid.
    pub recipient: AddressRef,
    /// The least amount that is accepted.
    pub minimum_amount: TokenAmount,
    /// A memo or a description of the resource, if any.
    pub extra: Option<String>,
}

/// The model of [`PaymentRequirements`].
pub struct PaymentRequirementsView {
    pub scheme: Seq<char>,
    pub network: Seq<char>,
    pub asset: AddressRef,
    pub recipient: AddressRef,
    pub minimum_amount: nat,
    pub extra: Option<Seq<char>>,
}

impl View for PaymentRequirements {
    type V = PaymentRequirementsView;

    open spec fn view(&self) -> PaymentRequirementsView {
        PaymentRequirementsView {
            scheme: self.scheme@,
            network: self.network@,
            asset: self.asset,
            recipient: self.recipient,
            minimum_amount: self.minimum_amount@,
            extra: match self.extra {
                Some(text) => Some(text@),
                None => None,
            },
        }
    }
}

impl Clone for PaymentRequirements {
    fn clone(&self) -> (copy: PaymentRequirements)
        ensures
            copy@ == self@,
    {
        PaymentRequirements {
            scheme: self.scheme.clone(),
            network: self.network.clone(),
            asset: self.asset,
            recipient: self.recipient,
            minimum_amount: self.minimum_amount,
            extra: match &self.extra {
                Some(text) => Some(text.clone()),
                None => None,
            },
        }
    }
}

/// A transfer that a payer has signed off chain: so much, to this
/// recipient, within this window of time, once.
#[derive(Debug, PartialEq, Eq)]
pub struct PaymentAuthorization {
    /// The payment scheme under which the authorization was made.
    pub scheme: String,
    /// The network for which it was made.
    pub network: String,
    /// Who pays, as the authorization claims.
    pub payer: AddressRef,
    /// Who is paid.
    pub recipient: AddressRef,
    /// The amount that may be transferred.
    pub amount: TokenAmount,
    /// The first second at which the transfer may be made.
    pub valid_after: u64,
    /// The first second at which it may no longer be made.
    pub valid_before: u64,
    /// Bytes that make the authorization unique for its payer and token.
    pub nonce: Vec<u8>,
    /// The payer's signature over all of the above.
    pub signature: Vec<u8>,
}

/// The model of a [`PaymentAuthorization`].
pub struct PaymentAuthorizationView {
    pub scheme: Seq<char>,
    pub network: Seq<char>,
    pub payer: AddressRef,
    pub recipient: AddressRef,
    pub amount: nat,
    pub valid_after: u64,
    pub valid_before: u64,
    pub nonce: Seq<u8>,
    pub signature: Seq<u8>,
}

impl View for PaymentAuthorization {
    type V = PaymentAuthorizationView;

    open spec fn view(&self) -> PaymentAuthorizationView {
        PaymentAuthorizationView {
            scheme: self.scheme@,
            network: self.network@,
            payer: self.payer,
            recipient: self.recipient,
            amount: self.amount@,
            valid_after: self.valid_after,
            valid_before: self.valid_before,
            nonce: self.nonce@,
            signature: self.signature@,
        }
    }
}

impl Clone for PaymentAuthorization {
    fn clone(&self) -> (copy: PaymentAuthorization)
        ensures
            copy@ == self@,
    {
        PaymentAuthorization {
            scheme: self.scheme.clone(),
            network: self.network.clone(),
            payer: self.payer,
            recipient: self.recipient,
            amount: self.amount,
            valid_after: self.valid_after,
            valid_before: self.valid_before,
            nonce: slice_to_vec(self.nonce.as_slice()),
            signature: slice_to_vec(self.signature.as_slice()),
        }
    }
}

} // verus!
