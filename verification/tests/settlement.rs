use x402_facilitator::address::AddressRef;
use x402_facilitator::amount::TokenAmount;
use x402_facilitator::funds::FundsReport;
use x402_facilitator::orchestrator::{settle, SettleStep};
use x402_facilitator::outcome::SettleOutcome;
use x402_facilitator::payment::{PaymentAuthorization, PaymentRequirements};
use x402_facilitator::pipeline::{Evidence, Facilitator, FundsPolicy};
use x402_facilitator::record::{
    ChainEvent, Directive, Phase, SettlementKey, SettlementRecord, SettlementState,
    BACKOFF_BASE_MS, MAX_ATTEMPTS,
};
use x402_facilitator::registry::{SupportedEntry, SupportedRegistry};
use x402_facilitator::signature::SignerReport;
use x402_facilitator::table::{Admission, SettlementTable};
use x402_facilitator::taxonomy::ErrorReason;
use x402_facilitator::timing::ClockReport;

const SETTLE_SCHEME: &str = "x402/erc-3009";
const SETTLE_NETWORK: &str = "avalanche-fuji";

fn settle_payer() -> AddressRef {
    AddressRef::Evm([0xbb; 20])
}

fn settle_recipient() -> AddressRef {
    AddressRef::Evm([0xaa; 20])
}

fn settle_token() -> AddressRef {
    AddressRef::Evm([0x11; 20])
}

fn settle_key(nonce: u8) -> SettlementKey {
    SettlementKey {
        network: SETTLE_NETWORK.to_string(),
        token: settle_token(),
        payer: settle_payer(),
        nonce: vec![nonce; 32],
    }
}

fn settle_facilitator() -> Facilitator {
    Facilitator::new(
        SupportedRegistry::new(vec![SupportedEntry {
            scheme: SETTLE_SCHEME.to_string(),
            network: SETTLE_NETWORK.to_string(),
        }]),
        FundsPolicy::Skip,
    )
}

fn settle_requirements() -> PaymentRequirements {
    PaymentRequirements {
        scheme: SETTLE_SCHEME.to_string(),
        network: SETTLE_NETWORK.to_string(),
        asset: settle_token(),
        recipient: settle_recipient(),
        minimum_amount: TokenAmount::from_u64(100),
        extra: Some("one article".to_string()),
    }
}

fn settle_authorization(nonce: u8) -> PaymentAuthorization {
    PaymentAuthorization {
        scheme: SETTLE_SCHEME.to_string(),
        network: SETTLE_NETWORK.to_string(),
        payer: settle_payer(),
        recipient: settle_recipient(),
        amount: TokenAmount::from_u64(150),
        valid_after: 1_000,
        valid_before: 2_000,
        nonce: vec![nonce; 32],
        signature: vec![1; 65],
    }
}

fn settle_evidence(now: u64) -> Evidence {
    Evidence {
        signer: Some(SignerReport::Recovered(settle_payer())),
        clock: Some(ClockReport::At(now)),
        funds: None,
    }
}

fn settle_success(transaction: Vec<u8>) -> SettleOutcome {
    SettleOutcome::Success {
        network: SETTLE_NETWORK.to_string(),
        transaction,
        payer: settle_payer(),
        amount: TokenAmount::from_u64(150),
    }
}

fn settle_failure(reason: ErrorReason) -> SettleOutcome {
    SettleOutcome::Failure { payer: Some(settle_payer()), reason }
}

fn settle_state(table: &SettlementTable, key: &SettlementKey) -> Option<SettlementState> {
    table.lookup(key).map(|record| record.state())
}

#[test]
fn two_settles_of_one_nonce_make_one_broadcast() {
    let facilitator = settle_facilitator();
    let requirements = settle_requirements();
    let authorization = settle_authorization(7);
    let mut table = SettlementTable::new(3_600);

    // both requests arrive before anything has ended
    let first = settle(&mut table, &facilitator, &requirements, &authorization, &settle_evidence(1_500));
    let second = settle(&mut table, &facilitator, &requirements, &authorization, &settle_evidence(1_500));
    assert_eq!(first, SettleStep::Claimed(settle_key(7)));
    assert_eq!(second, SettleStep::InProgress);

    // only the winner sends
    assert_eq!(table.submit(&settle_key(7)), Directive::Broadcast { attempt: 1, backoff_ms: 0 });
    assert_eq!(table.submit(&settle_key(7)), Directive::Discarded);
    assert_eq!(
        table.record_event(&settle_key(7), &ChainEvent::Outstanding, 1_501),
        Directive::AwaitConfirmation
    );
    let third = settle(&mut table, &facilitator, &requirements, &authorization, &settle_evidence(1_502));
    assert_eq!(third, SettleStep::InProgress);
    assert_eq!(
        table.record_event(
            &settle_key(7),
            &ChainEvent::Confirmed { transaction: vec![0xfe; 32] },
            1_503
        ),
        Directive::Finished(settle_success(vec![0xfe; 32]))
    );

    // both callers learn the same transaction
    let first = settle(&mut table, &facilitator, &requirements, &authorization, &settle_evidence(1_504));
    let second = settle(&mut table, &facilitator, &requirements, &authorization, &settle_evidence(1_505));
    assert_eq!(first, SettleStep::Settled(settle_success(vec![0xfe; 32])));
    assert_eq!(second, first);
    assert_eq!(table.submit(&settle_key(7)), Directive::Finished(settle_success(vec![0xfe; 32])));
}

#[test]
fn settle_waits_for_the_reports_of_the_verification() {
    let facilitator = Facilitator::new(
        SupportedRegistry::new(vec![SupportedEntry {
            scheme: SETTLE_SCHEME.to_string(),
            network: SETTLE_NETWORK.to_string(),
        }]),
        FundsPolicy::Check,
    );
    let requirements = settle_requirements();
    let authorization = settle_authorization(1);
    let mut table = SettlementTable::new(60);
    let mut evidence = Evidence::new();
    assert_eq!(
        settle(&mut table, &facilitator, &requirements, &authorization, &evidence),
        SettleStep::NeedSigner
    );
    evidence.signer = Some(SignerReport::Recovered(settle_payer()));
    assert_eq!(
        settle(&mut table, &facilitator, &requirements, &authorization, &evidence),
        SettleStep::NeedClock
    );
    evidence.clock = Some(ClockReport::At(1_000));
    assert!(matches!(
        settle(&mut table, &facilitator, &requirements, &authorization, &evidence),
        SettleStep::NeedFunds(_)
    ));
    assert_eq!(table.lookup(&settle_key(1)), None);
    evidence.funds = Some(FundsReport::Holdings {
        balance: TokenAmount::from_u64(150),
        allowance: None,
    });
    assert_eq!(
        settle(&mut table, &facilitator, &requirements, &authorization, &evidence),
        SettleStep::Claimed(settle_key(1))
    );
    assert_eq!(settle_state(&table, &settle_key(1)), Some(SettlementState::Pending));
}

#[test]
fn settle_refuses_what_fails_verification_and_claims_nothing() {
    let facilitator = settle_facilitator();
    let requirements = settle_requirements();
    let authorization = settle_authorization(2);
    let mut table = SettlementTable::new(60);
    let step = settle(&mut table, &facilitator, &requirements, &authorization, &settle_evidence(2_000));
    assert_eq!(step, SettleStep::Refused(settle_failure(ErrorReason::InvalidTiming)));
    assert_eq!(table.lookup(&settle_key(2)), None);

    let mut forged = settle_evidence(1_500);
    forged.signer = Some(SignerReport::Unrecoverable);
    let step = settle(&mut table, &facilitator, &requirements, &authorization, &forged);
    assert_eq!(step, SettleStep::Refused(settle_failure(ErrorReason::InvalidSignature)));
    assert_eq!(table.lookup(&settle_key(2)), None);
}

#[test]
fn settle_verifies_again_even_after_the_end() {
    let facilitator = settle_facilitator();
    let requirements = settle_requirements();
    let authorization = settle_authorization(3);
    let mut table = SettlementTable::new(3_600);
    assert_eq!(
        settle(&mut table, &facilitator, &requirements, &authorization, &settle_evidence(1_999)),
        SettleStep::Claimed(settle_key(3))
    );
    table.submit(&settle_key(3));
    table.record_event(&settle_key(3), &ChainEvent::Confirmed { transaction: vec![9] }, 1_999);
    // the window has closed since: the request is refused, the record stays
    assert_eq!(
        settle(&mut table, &facilitator, &requirements, &authorization, &settle_evidence(2_000)),
        SettleStep::Refused(settle_failure(ErrorReason::InvalidTiming))
    );
    assert_eq!(settle_state(&table, &settle_key(3)), Some(SettlementState::Confirmed));
}

#[test]
fn claim_is_won_once_per_key() {
    let mut table = SettlementTable::new(60);
    let amount = TokenAmount::from_u64(150);
    assert_eq!(table.claim(settle_key(1), amount), Admission::Claimed);
    assert_eq!(table.claim(settle_key(1), amount), Admission::InProgress);
    assert_eq!(table.claim(settle_key(2), amount), Admission::Claimed);
    assert_eq!(table.claim(settle_key(1), amount), Admission::InProgress);
    assert_eq!(table.claim(settle_key(2), amount), Admission::InProgress);
    assert_eq!(
        table.lookup(&settle_key(1)),
        Some(SettlementRecord { key: settle_key(1), amount, phase: Phase::Pending })
    );
}

#[test]
fn keys_differ_in_each_of_their_parts() {
    let key = settle_key(1);
    assert!(key.same(&settle_key(1)));
    assert!(key.same(&key.clone()));
    let mut other = settle_key(1);
    other.network = "avalanche".to_string();
    assert!(!key.same(&other));
    let mut other = settle_key(1);
    other.token = AddressRef::Evm([0x12; 20]);
    assert!(!key.same(&other));
    let mut other = settle_key(1);
    other.payer = AddressRef::Evm([0xbc; 20]);
    assert!(!key.same(&other));
    let mut other = settle_key(1);
    other.nonce = vec![1; 31];
    assert!(!key.same(&other));
    assert_eq!(
        SettlementKey::of(&settle_requirements(), &settle_authorization(1)),
        settle_key(1)
    );
}

#[test]
fn states_are_passed_in_order() {
    let mut table = SettlementTable::new(60);
    let key = settle_key(4);
    assert_eq!(settle_state(&table, &key), None);
    // nothing can be submitted or reported before the claim
    assert_eq!(table.submit(&key), Directive::Discarded);
    assert_eq!(table.record_event(&key, &ChainEvent::Outstanding, 5), Directive::Discarded);
    assert_eq!(settle_state(&table, &key), None);

    table.claim(key.clone(), TokenAmount::from_u64(150));
    assert_eq!(settle_state(&table, &key), Some(SettlementState::Pending));
    // a pending settlement does not end on a report from the chain
    assert_eq!(
        table.record_event(&key, &ChainEvent::Confirmed { transaction: vec![1] }, 5),
        Directive::Discarded
    );
    assert_eq!(
        table.record_event(&key, &ChainEvent::Rejected { reason: ErrorReason::InvalidTiming }, 5),
        Directive::Discarded
    );
    assert_eq!(settle_state(&table, &key), Some(SettlementState::Pending));

    table.submit(&key);
    assert_eq!(settle_state(&table, &key), Some(SettlementState::Submitted));
    table.record_event(&key, &ChainEvent::Rejected { reason: ErrorReason::InsufficientFunds }, 6);
    assert_eq!(settle_state(&table, &key), Some(SettlementState::Failed));
}

#[test]
fn ended_settlement_never_moves_again() {
    let mut table = SettlementTable::new(60);
    let key = settle_key(5);
    table.claim(key.clone(), TokenAmount::from_u64(150));
    table.submit(&key);
    let ended = table.record_event(
        &key,
        &ChainEvent::Rejected { reason: ErrorReason::InsufficientFunds },
        10,
    );
    assert_eq!(ended, Directive::Finished(settle_failure(ErrorReason::InsufficientFunds)));
    let record = table.lookup(&key);
    let events = [
        ChainEvent::Confirmed { transaction: vec![1, 2, 3] },
        ChainEvent::Rejected { reason: ErrorReason::InvalidTiming },
        ChainEvent::NotSent { retryable: true },
        ChainEvent::NotSent { retryable: false },
        ChainEvent::Outstanding,
    ];
    for event in events.iter() {
        assert_eq!(
            table.record_event(&key, event, 20),
            Directive::Finished(settle_failure(ErrorReason::InsufficientFunds))
        );
        assert_eq!(table.lookup(&key), record);
    }
    assert_eq!(
        table.submit(&key),
        Directive::Finished(settle_failure(ErrorReason::InsufficientFunds))
    );
    assert_eq!(
        table.claim(key.clone(), TokenAmount::from_u64(1)),
        Admission::Settled(settle_failure(ErrorReason::InsufficientFunds))
    );
    assert_eq!(table.lookup(&key), record);
}

#[test]
fn failure_to_send_is_retried_three_times_at_most() {
    let mut table = SettlementTable::new(60);
    let key = settle_key(6);
    table.claim(key.clone(), TokenAmount::from_u64(150));
    assert_eq!(table.submit(&key), Directive::Broadcast { attempt: 1, backoff_ms: 0 });
    assert_eq!(
        table.record_event(&key, &ChainEvent::NotSent { retryable: true }, 10),
        Directive::Broadcast { attempt: 2, backoff_ms: 500 }
    );
    assert_eq!(
        table.record_event(&key, &ChainEvent::NotSent { retryable: true }, 11),
        Directive::Broadcast { attempt: 3, backoff_ms: 1_000 }
    );
    assert_eq!(
        table.lookup(&key).map(|record| record.phase),
        Some(Phase::Submitted { attempts: 3, in_doubt: false })
    );
    assert_eq!(
        table.record_event(&key, &ChainEvent::NotSent { retryable: true }, 12),
        Directive::Finished(settle_failure(ErrorReason::ContractCall))
    );
    assert_eq!(
        table.lookup(&key).map(|record| record.phase),
        Some(Phase::Failed { reason: ErrorReason::ContractCall, at: 12 })
    );
}

#[test]
fn backoff_doubles() {
    assert_eq!(MAX_ATTEMPTS, 3);
    assert_eq!(BACKOFF_BASE_MS, 500);
    let record = SettlementRecord::claimed(settle_key(0), TokenAmount::from_u64(1));
    let (record, first) = record.submit();
    let (record, second) = record.absorb(&ChainEvent::NotSent { retryable: true }, 0);
    let (_, third) = record.absorb(&ChainEvent::NotSent { retryable: true }, 0);
    assert_eq!(first, Directive::Broadcast { attempt: 1, backoff_ms: 0 });
    assert_eq!(second, Directive::Broadcast { attempt: 2, backoff_ms: BACKOFF_BASE_MS });
    assert_eq!(third, Directive::Broadcast { attempt: 3, backoff_ms: 2 * BACKOFF_BASE_MS });
}

#[test]
fn failure_that_is_not_worth_retrying_ends_the_settlement() {
    let mut table = SettlementTable::new(60);
    let key = settle_key(7);
    table.claim(key.clone(), TokenAmount::from_u64(150));
    table.submit(&key);
    assert_eq!(
        table.record_event(&key, &ChainEvent::NotSent { retryable: false }, 10),
        Directive::Finished(settle_failure(ErrorReason::ContractCall))
    );
}

#[test]
fn nothing_is_sent_again_once_a_transfer_may_have_landed() {
    let mut table = SettlementTable::new(60);
    let key = settle_key(8);
    table.claim(key.clone(), TokenAmount::from_u64(150));
    table.submit(&key);
    assert_eq!(
        table.record_event(&key, &ChainEvent::NotSent { retryable: true }, 10),
        Directive::Broadcast { attempt: 2, backoff_ms: 500 }
    );
    assert_eq!(table.record_event(&key, &ChainEvent::Outstanding, 11), Directive::AwaitConfirmation);
    for now in 12..20 {
        assert_eq!(
            table.record_event(&key, &ChainEvent::NotSent { retryable: true }, now),
            Directive::AwaitConfirmation
        );
        assert_eq!(
            table.record_event(&key, &ChainEvent::NotSent { retryable: false }, now),
            Directive::AwaitConfirmation
        );
        assert_eq!(table.record_event(&key, &ChainEvent::Outstanding, now), Directive::AwaitConfirmation);
        assert_eq!(table.submit(&key), Directive::Discarded);
        assert_eq!(
            table.lookup(&key).map(|record| record.phase),
            Some(Phase::Submitted { attempts: 2, in_doubt: true })
        );
    }
    assert_eq!(
        table.record_event(&key, &ChainEvent::Confirmed { transaction: vec![0xab] }, 20),
        Directive::Finished(settle_success(vec![0xab]))
    );
}

#[test]
fn rejection_is_recorded_with_the_reason_given() {
    let reasons = [
        ErrorReason::InsufficientFunds,
        ErrorReason::InvalidTiming,
        ErrorReason::InvalidSignature,
        ErrorReason::ContractCall,
    ];
    for (i, reason) in reasons.iter().enumerate() {
        let mut table = SettlementTable::new(60);
        let key = settle_key(i as u8);
        table.claim(key.clone(), TokenAmount::from_u64(150));
        table.submit(&key);
        assert_eq!(
            table.record_event(&key, &ChainEvent::Rejected { reason: reason.clone() }, 10),
            Directive::Finished(settle_failure(reason.clone()))
        );
        assert_eq!(
            table.lookup(&key).and_then(|record| record.outcome()),
            Some(settle_failure(reason.clone()))
        );
    }
}

#[test]
fn eviction_drops_only_what_ended_long_enough_ago() {
    let mut table = SettlementTable::new(100);
    assert_eq!(table.retention_secs(), 100);
    let amount = TokenAmount::from_u64(150);
    let pending = settle_key(1);
    let submitted = settle_key(2);
    let confirmed = settle_key(3);
    let failed = settle_key(4);
    for key in [&pending, &submitted, &confirmed, &failed] {
        table.claim(key.clone(), amount);
    }
    for key in [&submitted, &confirmed, &failed] {
        table.submit(key);
    }
    table.record_event(&confirmed, &ChainEvent::Confirmed { transaction: vec![1] }, 1_000);
    table.record_event(&failed, &ChainEvent::Rejected { reason: ErrorReason::InvalidTiming }, 1_050);

    table.evict_expired(1_099);
    assert_eq!(settle_state(&table, &confirmed), Some(SettlementState::Confirmed));
    assert_eq!(settle_state(&table, &failed), Some(SettlementState::Failed));

    table.evict_expired(1_100);
    assert_eq!(settle_state(&table, &confirmed), None);
    assert_eq!(settle_state(&table, &failed), Some(SettlementState::Failed));

    // a clock that went back evicts nothing
    table.evict_expired(0);
    assert_eq!(settle_state(&table, &failed), Some(SettlementState::Failed));

    table.evict_expired(u64::MAX);
    assert_eq!(settle_state(&table, &failed), None);
    assert_eq!(settle_state(&table, &pending), Some(SettlementState::Pending));
    assert_eq!(settle_state(&table, &submitted), Some(SettlementState::Submitted));

    // once evicted, the key is free again
    assert_eq!(table.claim(confirmed.clone(), amount), Admission::Claimed);
    assert_eq!(table.claim(pending.clone(), amount), Admission::InProgress);
}

#[test]
fn record_moves_without_a_table() {
    let record = SettlementRecord::claimed(settle_key(9), TokenAmount::from_u64(150));
    assert_eq!(record.state(), SettlementState::Pending);
    assert_eq!(record.outcome(), None);
    assert!(!record.is_expired(0, u64::MAX));
    let (record, directive) = record.submit();
    assert_eq!(directive, Directive::Broadcast { attempt: 1, backoff_ms: 0 });
    assert_eq!(record.state(), SettlementState::Submitted);
    assert!(!record.is_expired(0, u64::MAX));
    let (record, directive) = record.absorb(&ChainEvent::Confirmed { transaction: vec![5; 32] }, 77);
    assert_eq!(directive, Directive::Finished(settle_success(vec![5; 32])));
    assert_eq!(record.outcome(), Some(settle_success(vec![5; 32])));
    assert!(record.outcome().unwrap().is_success());
    assert!(!record.is_expired(10, 86));
    assert!(record.is_expired(10, 87));
    assert!(!record.is_expired(10, 76));
}
