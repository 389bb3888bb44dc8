use x402_facilitator::address::AddressRef;
use x402_facilitator::amount::TokenAmount;
use x402_facilitator::outcome::{SettleOutcome, VerifyOutcome};
use x402_facilitator::registry::{SupportedEntry, SupportedRegistry};
use x402_facilitator::reply::{
    get_health, get_supported, post_settle, post_verify, settle_in_progress, ErrorResponse,
    HttpReply, ReplyBody, STATUS_BAD_REQUEST, STATUS_OK,
};
use x402_facilitator::taxonomy::{ErrorReason, FacilitatorLocalError};

fn replies_payer() -> AddressRef {
    AddressRef::Evm([0xbb; 20])
}

fn replies_bad_request() -> HttpReply {
    HttpReply {
        status: 400,
        body: ReplyBody::Failed(ErrorResponse { error: "Invalid request".to_string() }),
    }
}

fn replies_registry() -> SupportedRegistry {
    SupportedRegistry::new(vec![
        SupportedEntry { scheme: "x402/erc-3009".to_string(), network: "avalanche-fuji".to_string() },
        SupportedEntry { scheme: "x402/erc-3009".to_string(), network: "avalanche".to_string() },
    ])
}

#[test]
fn status_codes_are_200_and_400() {
    assert_eq!(STATUS_OK, 200);
    assert_eq!(STATUS_BAD_REQUEST, 400);
}

#[test]
fn verdicts_are_answered_with_200() {
    let valid = VerifyOutcome::Valid { payer: replies_payer() };
    assert_eq!(
        post_verify(valid.clone()),
        HttpReply { status: 200, body: ReplyBody::Verify(valid) }
    );
    let invalid =
        VerifyOutcome::Invalid { payer: Some(replies_payer()), reason: ErrorReason::ReceiverMismatch };
    assert_eq!(
        post_verify(invalid.clone()),
        HttpReply { status: 200, body: ReplyBody::Verify(invalid) }
    );
    let undecoded = VerifyOutcome::Invalid {
        payer: None,
        reason: ErrorReason::DecodingError("no signature".to_string()),
    };
    assert_eq!(
        post_verify(undecoded.clone()),
        HttpReply { status: 200, body: ReplyBody::Verify(undecoded) }
    );
}

#[test]
fn verification_that_could_not_be_made_is_answered_with_400() {
    for reason in [ErrorReason::ContractCall, ErrorReason::InvalidAddress, ErrorReason::ClockError] {
        let outcome = VerifyOutcome::Invalid { payer: Some(replies_payer()), reason };
        assert_eq!(post_verify(outcome), replies_bad_request());
    }
}

#[test]
fn settlements_are_answered_as_verdicts_are() {
    let success = SettleOutcome::Success {
        network: "avalanche-fuji".to_string(),
        transaction: vec![0xfe; 32],
        payer: replies_payer(),
        amount: TokenAmount::from_u64(150),
    };
    assert_eq!(
        post_settle(success.clone()),
        HttpReply { status: 200, body: ReplyBody::Settle(success) }
    );
    let failure =
        SettleOutcome::Failure { payer: Some(replies_payer()), reason: ErrorReason::InsufficientFunds };
    assert!(!failure.is_success());
    assert_eq!(
        post_settle(failure.clone()),
        HttpReply { status: 200, body: ReplyBody::Settle(failure) }
    );
    let fault = SettleOutcome::Failure { payer: Some(replies_payer()), reason: ErrorReason::ContractCall };
    assert_eq!(post_settle(fault), replies_bad_request());
    assert_eq!(settle_in_progress(), HttpReply { status: 200, body: ReplyBody::SettleInProgress });
}

#[test]
fn settle_errors_are_answered_in_the_form_of_a_settlement() {
    let error = FacilitatorLocalError::InsufficientFunds { payer: replies_payer() };
    assert_eq!(
        SettleOutcome::rejected(&error),
        SettleOutcome::Failure { payer: Some(replies_payer()), reason: ErrorReason::InsufficientFunds }
    );
    assert_eq!(
        error.into_settle_response(),
        HttpReply {
            status: 200,
            body: ReplyBody::Settle(SettleOutcome::Failure {
                payer: Some(replies_payer()),
                reason: ErrorReason::InsufficientFunds
            })
        }
    );
    let error = FacilitatorLocalError::ContractCall { detail: "node is down".to_string() };
    assert_eq!(error.into_settle_response(), replies_bad_request());
}

#[test]
fn supported_and_health_list_the_registry() {
    let expected = HttpReply {
        status: 200,
        body: ReplyBody::Supported(vec![
            SupportedEntry {
                scheme: "x402/erc-3009".to_string(),
                network: "avalanche-fuji".to_string(),
            },
            SupportedEntry { scheme: "x402/erc-3009".to_string(), network: "avalanche".to_string() },
        ]),
    };
    assert_eq!(get_supported(&replies_registry()), expected);
    assert_eq!(get_health(&replies_registry()), expected);
    assert_eq!(
        get_supported(&SupportedRegistry::new(vec![])),
        HttpReply { status: 200, body: ReplyBody::Supported(vec![]) }
    );
}
