//! The signature verifier: was the authorization signed by the payer that
//! it names?
//!
//! Recovering a signer from a signature is the work of a collaborator, who
//! must recover over exactly the encoding that the payer's wallet signed,
//! domain separation included. A signature over any other encoding
//! recovers some other address, or none, and is turned down as a forged
//! one would be.

use crate::address::AddressRef;
use crate::payment::{PaymentAuthorization, PaymentAuthorizationView};
use crate::taxonomy::{FacilitatorLocalError, FacilitatorLocalErrorView, stage_result_is};
use vstd::prelude::*;

verus! {

/// What signature recovery reported.
#[derive(Clone, Copy, Debug, PartialEq, Eq)]
pub enum SignerReport {
    /// The signature recovers to this address.
    Recovered(AddressRef),
    /// The signature is malformed and recovers to no address.
    Unrecoverable,
}

/// The failure of the signature check, if it fails: the recovered signer
/// has to be the claimed payer, byte for byte.
pub open spec fn signature_failure(
    authorization: PaymentAuthorizationView,
    signer: SignerReport,
) -> Option<FacilitatorLocalErrorView> {
    if signer == SignerReport::Recovered(authorization.payer) {
        None
    } else {
        Some(FacilitatorLocalErrorView::InvalidSignature { payer: authorization.payer })
    }
}

/// Checks the recovered signer against the payer that `authorization` claims.
pub fn verify_signature(authorization: &PaymentAuthorization, signer: &SignerReport) -> (result:
    Result<(), FacilitatorLocalError>)
    ensures
        stage_result_is(result, signature_failure(authorization@, *signer)),
{
    let payer = authorization.payer;
    match signer {
        SignerReport::Recovered(address) => {
            if address.same(&payer) {
                Ok(())
            } else {
                Err(FacilitatorLocalError::InvalidSignature { payer })
            }
        },
        SignerReport::Unrecoverable => Err(FacilitatorLocalError::InvalidSignature { payer }),
    }
}

} // verus!
