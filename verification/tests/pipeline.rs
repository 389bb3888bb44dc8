use x402_facilitator::address::AddressRef;
use x402_facilitator::amount::TokenAmount;
use x402_facilitator::funds::{check_funds, funds_query, FundsQuery, FundsReport};
use x402_facilitator::matcher::match_requirements;
use x402_facilitator::outcome::VerifyOutcome;
use x402_facilitator::payment::{PaymentAuthorization, PaymentRequirements};
use x402_facilitator::pipeline::{Evidence, Facilitator, FundsPolicy, Progress};
use x402_facilitator::registry::{SupportedEntry, SupportedRegistry};
use x402_facilitator::signature::{verify_signature, SignerReport};
use x402_facilitator::taxonomy::{ErrorReason, FacilitatorLocalError, TimingFault};
use x402_facilitator::timing::{check_clock, check_timing, ClockReport};

const SCHEME: &str = "x402/erc-3009";
const FUJI: &str = "avalanche-fuji";

fn pipeline_recipient() -> AddressRef {
    AddressRef::parse("0xAAAAAAAAAAAAAAAAAAAAAAAAAAAAAAAAAAAAAAAA").unwrap()
}

fn pipeline_payer() -> AddressRef {
    AddressRef::parse("0xBBBBBBBBBBBBBBBBBBBBBBBBBBBBBBBBBBBBBBBB").unwrap()
}

fn pipeline_stranger() -> AddressRef {
    AddressRef::parse("0xCCCCCCCCCCCCCCCCCCCCCCCCCCCCCCCCCCCCCCCC").unwrap()
}

fn pipeline_token() -> AddressRef {
    AddressRef::Evm([0x11; 20])
}

fn pipeline_registry() -> SupportedRegistry {
    SupportedRegistry::new(vec![
        SupportedEntry { scheme: SCHEME.to_string(), network: FUJI.to_string() },
        SupportedEntry { scheme: SCHEME.to_string(), network: "avalanche".to_string() },
    ])
}

fn pipeline_facilitator(policy: FundsPolicy) -> Facilitator {
    Facilitator::new(pipeline_registry(), policy)
}

fn pipeline_requirements() -> PaymentRequirements {
    PaymentRequirements {
        scheme: SCHEME.to_string(),
        network: FUJI.to_string(),
        asset: pipeline_token(),
        recipient: pipeline_recipient(),
        minimum_amount: TokenAmount::from_u64(100),
        extra: None,
    }
}

fn pipeline_authorization() -> PaymentAuthorization {
    PaymentAuthorization {
        scheme: SCHEME.to_string(),
        network: FUJI.to_string(),
        payer: pipeline_payer(),
        recipient: pipeline_recipient(),
        amount: TokenAmount::from_u64(150),
        valid_after: 1_000,
        valid_before: 2_000,
        nonce: vec![7; 32],
        signature: vec![1; 65],
    }
}

fn pipeline_rich() -> FundsReport {
    FundsReport::Holdings { balance: TokenAmount::from_u64(1_000), allowance: None }
}

fn pipeline_invalid(reason: ErrorReason) -> VerifyOutcome {
    VerifyOutcome::Invalid { payer: Some(pipeline_payer()), reason }
}

#[test]
fn correctly_signed_sufficient_payment_is_valid() {
    let outcome = pipeline_facilitator(FundsPolicy::Skip).verify(
        &pipeline_requirements(),
        &pipeline_authorization(),
        &SignerReport::Recovered(pipeline_payer()),
        &ClockReport::At(1_500),
        &pipeline_rich(),
    );
    assert_eq!(outcome, VerifyOutcome::Valid { payer: pipeline_payer() });
    assert!(outcome.is_valid());
}

#[test]
fn other_recipient_is_a_receiver_mismatch() {
    let mut authorization = pipeline_authorization();
    authorization.recipient = pipeline_stranger();
    let outcome = pipeline_facilitator(FundsPolicy::Skip).verify(
        &pipeline_requirements(),
        &authorization,
        &SignerReport::Recovered(pipeline_payer()),
        &ClockReport::At(1_500),
        &pipeline_rich(),
    );
    assert_eq!(outcome, pipeline_invalid(ErrorReason::ReceiverMismatch));
    assert!(!outcome.is_valid());
}

#[test]
fn window_in_the_past_is_invalid_timing() {
    let outcome = pipeline_facilitator(FundsPolicy::Skip).verify(
        &pipeline_requirements(),
        &pipeline_authorization(),
        &SignerReport::Recovered(pipeline_payer()),
        &ClockReport::At(5_000),
        &pipeline_rich(),
    );
    assert_eq!(outcome, pipeline_invalid(ErrorReason::InvalidTiming));
}

#[test]
fn network_outside_the_registry_is_unsupported() {
    let mut requirements = pipeline_requirements();
    requirements.network = "ethereum-mainnet".to_string();
    let mut authorization = pipeline_authorization();
    authorization.network = "ethereum-mainnet".to_string();
    let outcome = pipeline_facilitator(FundsPolicy::Skip).verify(
        &requirements,
        &authorization,
        &SignerReport::Recovered(pipeline_payer()),
        &ClockReport::At(1_500),
        &pipeline_rich(),
    );
    assert_eq!(outcome, pipeline_invalid(ErrorReason::UnsupportedNetwork));
}

#[test]
fn unsupported_network_comes_before_network_mismatch() {
    let mut requirements = pipeline_requirements();
    requirements.network = "ethereum-mainnet".to_string();
    let result = match_requirements(&pipeline_registry(), &requirements, &pipeline_authorization());
    assert_eq!(
        result,
        Err(FacilitatorLocalError::UnsupportedNetwork { payer: Some(pipeline_payer()) })
    );
}

#[test]
fn matcher_reports_each_mismatch() {
    let registry = pipeline_registry();
    let requirements = pipeline_requirements();
    assert_eq!(match_requirements(&registry, &requirements, &pipeline_authorization()), Ok(()));

    let mut authorization = pipeline_authorization();
    authorization.scheme = "x402/permit".to_string();
    assert_eq!(
        match_requirements(&registry, &requirements, &authorization),
        Err(FacilitatorLocalError::SchemeMismatch {
            payer: Some(pipeline_payer()),
            expected: SCHEME.to_string(),
            actual: "x402/permit".to_string(),
        })
    );

    let mut authorization = pipeline_authorization();
    authorization.network = "avalanche".to_string();
    assert_eq!(
        match_requirements(&registry, &requirements, &authorization),
        Err(FacilitatorLocalError::NetworkMismatch {
            payer: Some(pipeline_payer()),
            expected: FUJI.to_string(),
            actual: "avalanche".to_string(),
        })
    );

    let mut authorization = pipeline_authorization();
    authorization.recipient = pipeline_stranger();
    assert_eq!(
        match_requirements(&registry, &requirements, &authorization),
        Err(FacilitatorLocalError::ReceiverMismatch {
            payer: pipeline_payer(),
            expected: pipeline_recipient(),
            actual: pipeline_stranger(),
        })
    );

    let mut authorization = pipeline_authorization();
    authorization.amount = TokenAmount::from_u64(99);
    assert_eq!(
        match_requirements(&registry, &requirements, &authorization),
        Err(FacilitatorLocalError::InsufficientValue { payer: pipeline_payer() })
    );
}

#[test]
fn exact_amount_is_sufficient() {
    let mut authorization = pipeline_authorization();
    authorization.amount = TokenAmount::from_u64(100);
    assert_eq!(
        match_requirements(&pipeline_registry(), &pipeline_requirements(), &authorization),
        Ok(())
    );
}

#[test]
fn amounts_near_the_maximum_compare_without_wrapping() {
    // two to the power 255, and one less
    let big = TokenAmount::from_limbs([0, 0, 0, 0x8000_0000_0000_0000]);
    let less = TokenAmount::from_limbs([u64::MAX, u64::MAX, u64::MAX, 0x7fff_ffff_ffff_ffff]);
    assert_eq!(
        TokenAmount::parse(
            "57896044618658097711785492504343953926634992332820282019728792003956564819968"
        ),
        Some(big)
    );
    assert!(big.at_least(&less));
    assert!(!less.at_least(&big));
    assert!(big.at_least(&big));
    assert!(!big.same(&less));

    let mut requirements = pipeline_requirements();
    requirements.minimum_amount = less;
    let mut authorization = pipeline_authorization();
    authorization.amount = big;
    let facilitator = pipeline_facilitator(FundsPolicy::Skip);
    let signer = SignerReport::Recovered(pipeline_payer());
    let outcome =
        facilitator.verify(&requirements, &authorization, &signer, &ClockReport::At(1_500), &pipeline_rich());
    assert_eq!(outcome, VerifyOutcome::Valid { payer: pipeline_payer() });

    requirements.minimum_amount = big;
    authorization.amount = less;
    let outcome =
        facilitator.verify(&requirements, &authorization, &signer, &ClockReport::At(1_500), &pipeline_rich());
    assert_eq!(outcome, pipeline_invalid(ErrorReason::InsufficientValue));
}

#[test]
fn limbs_are_compared_from_the_top() {
    let low_heavy = TokenAmount::from_limbs([u64::MAX, 0, 0, 0]);
    let high_light = TokenAmount::from_limbs([0, 1, 0, 0]);
    assert!(high_light.at_least(&low_heavy));
    assert!(!low_heavy.at_least(&high_light));
    let max = TokenAmount::from_limbs([u64::MAX; 4]);
    assert!(max.at_least(&high_light));
    assert!(max.at_least(&TokenAmount::zero()));
    assert!(!TokenAmount::zero().at_least(&TokenAmount::from_u64(1)));
}

#[test]
fn window_holds_its_first_second_and_not_its_last() {
    let authorization = pipeline_authorization();
    assert_eq!(check_timing(&authorization, 1_000), Ok(()));
    assert_eq!(check_timing(&authorization, 1_999), Ok(()));
    assert_eq!(
        check_timing(&authorization, 2_000),
        Err(FacilitatorLocalError::InvalidTiming {
            payer: pipeline_payer(),
            fault: TimingFault::Expired,
        })
    );
    assert_eq!(
        check_timing(&authorization, 999),
        Err(FacilitatorLocalError::InvalidTiming {
            payer: pipeline_payer(),
            fault: TimingFault::NotYetValid,
        })
    );
}

#[test]
fn empty_window_holds_no_second() {
    let mut authorization = pipeline_authorization();
    authorization.valid_after = 1_000;
    authorization.valid_before = 1_000;
    assert!(check_timing(&authorization, 1_000).is_err());
    assert!(check_timing(&authorization, 999).is_err());
    assert!(check_timing(&authorization, 1_001).is_err());
    assert_eq!(
        check_timing(&authorization, 0),
        Err(FacilitatorLocalError::InvalidTiming {
            payer: pipeline_payer(),
            fault: TimingFault::NotYetValid,
        })
    );
}

#[test]
fn unreadable_clock_is_not_an_expired_window() {
    let authorization = pipeline_authorization();
    assert_eq!(
        check_clock(&authorization, &ClockReport::Unavailable),
        Err(FacilitatorLocalError::ClockError)
    );
    let outcome = pipeline_facilitator(FundsPolicy::Skip).verify(
        &pipeline_requirements(),
        &authorization,
        &SignerReport::Recovered(pipeline_payer()),
        &ClockReport::Unavailable,
        &pipeline_rich(),
    );
    assert_eq!(outcome, VerifyOutcome::Invalid { payer: None, reason: ErrorReason::ClockError });
}

#[test]
fn signer_has_to_be_the_payer() {
    let authorization = pipeline_authorization();
    assert_eq!(verify_signature(&authorization, &SignerReport::Recovered(pipeline_payer())), Ok(()));
    assert_eq!(
        verify_signature(&authorization, &SignerReport::Recovered(pipeline_stranger())),
        Err(FacilitatorLocalError::InvalidSignature { payer: pipeline_payer() })
    );
    assert_eq!(
        verify_signature(&authorization, &SignerReport::Unrecoverable),
        Err(FacilitatorLocalError::InvalidSignature { payer: pipeline_payer() })
    );
}

#[test]
fn funds_check_holds_balance_and_allowance_against_the_amount() {
    let payer = pipeline_payer();
    let amount = TokenAmount::from_u64(150);
    let enough = FundsReport::Holdings { balance: TokenAmount::from_u64(150), allowance: None };
    assert_eq!(check_funds(payer, &amount, &enough), Ok(()));
    let short = FundsReport::Holdings { balance: TokenAmount::from_u64(149), allowance: None };
    assert_eq!(
        check_funds(payer, &amount, &short),
        Err(FacilitatorLocalError::InsufficientFunds { payer })
    );
    let unapproved = FundsReport::Holdings {
        balance: TokenAmount::from_u64(1_000),
        allowance: Some(TokenAmount::from_u64(149)),
    };
    assert_eq!(
        check_funds(payer, &amount, &unapproved),
        Err(FacilitatorLocalError::InsufficientFunds { payer })
    );
    let approved = FundsReport::Holdings {
        balance: TokenAmount::from_u64(1_000),
        allowance: Some(TokenAmount::from_u64(150)),
    };
    assert_eq!(check_funds(payer, &amount, &approved), Ok(()));
    let down = FundsReport::Unreachable { detail: "connection refused".to_string() };
    assert_eq!(
        check_funds(payer, &amount, &down),
        Err(FacilitatorLocalError::ContractCall { detail: "connection refused".to_string() })
    );
}

#[test]
fn funds_are_looked_at_only_under_the_checking_policy() {
    let poor = FundsReport::Holdings { balance: TokenAmount::from_u64(1), allowance: None };
    let signer = SignerReport::Recovered(pipeline_payer());
    let clock = ClockReport::At(1_500);
    let outcome = pipeline_facilitator(FundsPolicy::Skip).verify(
        &pipeline_requirements(),
        &pipeline_authorization(),
        &signer,
        &clock,
        &poor,
    );
    assert_eq!(outcome, VerifyOutcome::Valid { payer: pipeline_payer() });
    let outcome = pipeline_facilitator(FundsPolicy::Check).verify(
        &pipeline_requirements(),
        &pipeline_authorization(),
        &signer,
        &clock,
        &poor,
    );
    assert_eq!(outcome, pipeline_invalid(ErrorReason::InsufficientFunds));
    let down = FundsReport::Unreachable { detail: "no route".to_string() };
    let outcome = pipeline_facilitator(FundsPolicy::Check).verify(
        &pipeline_requirements(),
        &pipeline_authorization(),
        &signer,
        &clock,
        &down,
    );
    assert_eq!(outcome, VerifyOutcome::Invalid { payer: None, reason: ErrorReason::ContractCall });
}

#[test]
fn first_failing_stage_decides() {
    let facilitator = pipeline_facilitator(FundsPolicy::Check);
    let requirements = pipeline_requirements();
    let poor = FundsReport::Holdings { balance: TokenAmount::zero(), allowance: None };
    let forged = SignerReport::Recovered(pipeline_stranger());
    let late = ClockReport::At(9_000);

    // everything is wrong at once: the scheme is looked at first
    let mut authorization = pipeline_authorization();
    authorization.scheme = "x402/permit".to_string();
    authorization.recipient = pipeline_stranger();
    authorization.amount = TokenAmount::from_u64(1);
    let outcome = facilitator.verify(&requirements, &authorization, &forged, &late, &poor);
    assert_eq!(outcome, pipeline_invalid(ErrorReason::SchemeMismatch));

    // recipient and value are wrong: the recipient is looked at first
    let mut authorization = pipeline_authorization();
    authorization.recipient = pipeline_stranger();
    authorization.amount = TokenAmount::from_u64(1);
    let outcome = facilitator.verify(&requirements, &authorization, &forged, &late, &poor);
    assert_eq!(outcome, pipeline_invalid(ErrorReason::ReceiverMismatch));

    // the fields match: a forged signature is reported though the window
    // has closed and the payer has nothing
    let authorization = pipeline_authorization();
    let outcome = facilitator.verify(&requirements, &authorization, &forged, &late, &poor);
    assert_eq!(outcome, pipeline_invalid(ErrorReason::InvalidSignature));

    // the signature holds: the closed window is reported before the funds
    let signer = SignerReport::Recovered(pipeline_payer());
    let outcome = facilitator.verify(&requirements, &authorization, &signer, &late, &poor);
    assert_eq!(outcome, pipeline_invalid(ErrorReason::InvalidTiming));

    let outcome =
        facilitator.verify(&requirements, &authorization, &signer, &ClockReport::At(1_500), &poor);
    assert_eq!(outcome, pipeline_invalid(ErrorReason::InsufficientFunds));
}

#[test]
fn same_inputs_get_the_same_verdict() {
    let facilitator = pipeline_facilitator(FundsPolicy::Check);
    let signer = SignerReport::Recovered(pipeline_payer());
    let clock = ClockReport::At(1_500);
    let first = facilitator.verify(
        &pipeline_requirements(),
        &pipeline_authorization(),
        &signer,
        &clock,
        &pipeline_rich(),
    );
    for _ in 0..5 {
        let again = pipeline_facilitator(FundsPolicy::Check).verify(
            &pipeline_requirements().clone(),
            &pipeline_authorization().clone(),
            &signer,
            &clock,
            &pipeline_rich().clone(),
        );
        assert_eq!(again, first);
    }
}

#[test]
fn advance_asks_for_one_report_at_a_time() {
    let facilitator = pipeline_facilitator(FundsPolicy::Check);
    let requirements = pipeline_requirements();
    let authorization = pipeline_authorization();
    let mut evidence = Evidence::new();
    assert_eq!(facilitator.advance(&requirements, &authorization, &evidence), Progress::NeedSigner);
    evidence.signer = Some(SignerReport::Recovered(pipeline_payer()));
    assert_eq!(facilitator.advance(&requirements, &authorization, &evidence), Progress::NeedClock);
    evidence.clock = Some(ClockReport::At(1_500));
    assert_eq!(
        facilitator.advance(&requirements, &authorization, &evidence),
        Progress::NeedFunds(FundsQuery {
            network: FUJI.to_string(),
            token: pipeline_token(),
            payer: pipeline_payer(),
            amount: TokenAmount::from_u64(150),
        })
    );
    assert_eq!(
        funds_query(&requirements, &authorization),
        FundsQuery {
            network: FUJI.to_string(),
            token: pipeline_token(),
            payer: pipeline_payer(),
            amount: TokenAmount::from_u64(150),
        }
    );
    evidence.funds = Some(pipeline_rich());
    assert_eq!(
        facilitator.advance(&requirements, &authorization, &evidence),
        Progress::Done(VerifyOutcome::Valid { payer: pipeline_payer() })
    );
}

#[test]
fn advance_stops_at_the_first_failure() {
    let facilitator = pipeline_facilitator(FundsPolicy::Check);
    let requirements = pipeline_requirements();

    let mut mismatched = pipeline_authorization();
    mismatched.amount = TokenAmount::from_u64(5);
    assert_eq!(
        facilitator.advance(&requirements, &mismatched, &Evidence::new()),
        Progress::Done(pipeline_invalid(ErrorReason::InsufficientValue))
    );

    let authorization = pipeline_authorization();
    let mut evidence = Evidence::new();
    evidence.signer = Some(SignerReport::Unrecoverable);
    assert_eq!(
        facilitator.advance(&requirements, &authorization, &evidence),
        Progress::Done(pipeline_invalid(ErrorReason::InvalidSignature))
    );

    evidence.signer = Some(SignerReport::Recovered(pipeline_payer()));
    evidence.clock = Some(ClockReport::At(2_000));
    assert_eq!(
        facilitator.advance(&requirements, &authorization, &evidence),
        Progress::Done(pipeline_invalid(ErrorReason::InvalidTiming))
    );
}

#[test]
fn advance_skips_the_funds_under_the_skipping_policy() {
    let facilitator = pipeline_facilitator(FundsPolicy::Skip);
    let evidence = Evidence {
        signer: Some(SignerReport::Recovered(pipeline_payer())),
        clock: Some(ClockReport::At(1_000)),
        funds: None,
    };
    assert_eq!(
        facilitator.advance(&pipeline_requirements(), &pipeline_authorization(), &evidence),
        Progress::Done(VerifyOutcome::Valid { payer: pipeline_payer() })
    );
}

#[test]
fn registry_lists_what_it_was_given() {
    let registry = pipeline_registry();
    assert!(registry.is_supported(SCHEME, FUJI));
    assert!(registry.is_supported(SCHEME, "avalanche"));
    assert!(!registry.is_supported(SCHEME, "ethereum-mainnet"));
    assert!(!registry.is_supported("x402/permit", FUJI));
    assert!(!registry.is_supported(FUJI, SCHEME));
    assert_eq!(
        registry.list_supported(),
        vec![
            SupportedEntry { scheme: SCHEME.to_string(), network: FUJI.to_string() },
            SupportedEntry { scheme: SCHEME.to_string(), network: "avalanche".to_string() },
        ]
    );
    assert!(!SupportedRegistry::new(vec![]).is_supported(SCHEME, FUJI));
}
