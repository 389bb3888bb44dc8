//! What the settlement table guarantees, whatever calls are made on it and
//! in whatever order.
//!
//! Callers race, retry and give up; the chain answers late or not at all.
//! The statements here hold for every sequence of calls: a key is claimed
//! once, a settlement that has ended answers every later caller with the
//! one result it ended with, and once a transfer may have reached the
//! chain no second one is ever sent.

use crate::outcome::VerifyOutcomeView;
use crate::orchestrator::{SettleStepView, settle_step};
use crate::payment::{PaymentAuthorizationView, PaymentRequirementsView};
use crate::pipeline::{EvidenceView, FacilitatorView, ProgressView};
use crate::record::{
    ChainEventView, DirectiveView, MAX_ATTEMPTS, PhaseView, SettlementKeyView, SettlementRecordView,
    SettlementState, backoff_before, settlement_key_view,
};
use crate::table::{
    AdmissionView, TableView, claim_step, event_step, evict_step, submit_step, table_well_formed,
};
use vstd::prelude::*;

verus! {

/// One call on the table.
pub enum TableCall {
    Claim { key: SettlementKeyView, amount: nat },
    Submit { key: SettlementKeyView },
    Event { key: SettlementKeyView, event: ChainEventView, now: u64 },
    Evict { now: u64 },
}

/// The table after one call.
pub open spec fn after_call(table: TableView, retention: u64, call: TableCall) -> TableView {
    match call {
        TableCall::Claim { key, amount } => claim_step(table, key, amount).0,
        TableCall::Submit { key } => submit_step(table, key).0,
        TableCall::Event { key, event, now } => event_step(table, key, event, now).0,
        TableCall::Evict { now } => evict_step(table, retention, now),
    }
}

/// The table after a sequence of calls, made in order.
pub open spec fn after_calls(table: TableView, retention: u64, calls: Seq<TableCall>) -> TableView
    decreases calls.len(),
{
    if calls.len() == 0 {
        table
    } else {
        after_call(after_calls(table, retention, calls.drop_last()), retention, calls.last())
    }
}

/// Whether the step from state `from` to state `to` is one that a
/// settlement can make: it stays where it is, it goes from pending to
/// submitted, or it goes from submitted to one of the two ends.
pub open spec fn is_in_order(from: SettlementState, to: SettlementState) -> bool {
    ||| from == to
    ||| from == SettlementState::Pending && to == SettlementState::Submitted
    ||| from == SettlementState::Submitted && to == SettlementState::Confirmed
    ||| from == SettlementState::Submitted && to == SettlementState::Failed
}

/// A settlement moves through its states in order. It never leaves an end
/// state, and it never ends without having been submitted.
pub proof fn lemma_states_in_order(record: SettlementRecordView, event: ChainEventView, now: u64)
    ensures
        is_in_order(record.state(), record.submit().0.state()),
        is_in_order(record.state(), record.absorb(event, now).0.state()),
        record.is_terminal() ==> record.submit().0 == record,
        record.is_terminal() ==> record.absorb(event, now).0 == record,
        record.submit().0.key == record.key,
        record.absorb(event, now).0.key == record.key,
        record.submit().0.amount == record.amount,
        record.absorb(event, now).0.amount == record.amount,
{
}

/// Every order to send is counted, bounded and safe: it comes with the
/// number of the sending, which is one more than the sendings before it
/// and at most [`MAX_ATTEMPTS`]; it is given only while no earlier sending
/// can have reached the chain; and after the first sending, only in answer
/// to a failure to send that the chain client holds for worth retrying.
pub proof fn lemma_sending_is_counted(record: SettlementRecordView, event: ChainEventView, now: u64)
    requires
        record.well_formed(),
    ensures
        record.submit().1 matches DirectiveView::Broadcast { attempt, backoff_ms } ==> {
            &&& record.phase is Pending
            &&& attempt == 1
            &&& backoff_ms == 0
            &&& record.submit().0.phase == (PhaseView::Submitted { attempts: 1, in_doubt: false })
        },
        record.absorb(event, now).1 matches DirectiveView::Broadcast { attempt, backoff_ms } ==> {
            &&& record.phase is Submitted
            &&& !record.in_doubt()
            &&& event == (ChainEventView::NotSent { retryable: true })
            &&& attempt == record.sendings() + 1
            &&& attempt <= MAX_ATTEMPTS
            &&& backoff_ms == backoff_before(attempt as nat)
            &&& record.absorb(event, now).0.phase == (PhaseView::Submitted {
                attempts: attempt,
                in_doubt: false,
            })
        },
        record.submit().0.well_formed(),
        record.absorb(event, now).0.well_formed(),
{
    reveal_with_fuel(backoff_before, 4);
}

/// Once a transfer may have reached the chain, no call makes the table
/// order another sending: the record keeps its count of sendings until the
/// settlement ends.
pub proof fn lemma_doubt_stops_sending(record: SettlementRecordView, event: ChainEventView, now: u64)
    requires
        record.in_doubt(),
    ensures
        !(record.submit().1 is Broadcast),
        !(record.absorb(event, now).1 is Broadcast),
        record.submit().0 == record,
        record.absorb(event, now).0.is_terminal() || record.absorb(event, now).0 == record,
{
}

/// Every call leaves the table well formed.
pub proof fn lemma_call_keeps_well_formed(table: TableView, retention: u64, call: TableCall)
    requires
        table_well_formed(table),
    ensures
        table_well_formed(after_call(table, retention, call)),
{
    let after = after_call(table, retention, call);
    assert forall|key: SettlementKeyView| #[trigger] after.contains_key(key) implies after[key].key
        == key && after[key].well_formed() by {
        match call {
            TableCall::Claim { key: claimed, amount } => {
                if key != claimed {
                    assert(table.contains_key(key));
                }
            },
            TableCall::Submit { key: moved } => {
                if table.contains_key(moved) {
                    lemma_sending_is_counted(table[moved], ChainEventView::Outstanding, 0);
                }
                if key != moved {
                    assert(table.contains_key(key));
                }
            },
            TableCall::Event { key: moved, event, now } => {
                if table.contains_key(moved) {
                    lemma_sending_is_counted(table[moved], event, now);
                }
                if key != moved {
                    assert(table.contains_key(key));
                }
            },
            TableCall::Evict { now } => {
                assert(table.contains_key(key));
            },
        }
    }
}

/// Every sequence of calls leaves the table well formed.
pub proof fn lemma_calls_keep_well_formed(table: TableView, retention: u64, calls: Seq<TableCall>)
    requires
        table_well_formed(table),
    ensures
        table_well_formed(after_calls(table, retention, calls)),
    decreases calls.len(),
{
    if calls.len() > 0 {
        lemma_calls_keep_well_formed(table, retention, calls.drop_last());
        lemma_call_keeps_well_formed(
            after_calls(table, retention, calls.drop_last()),
            retention,
            calls.last(),
        );
    }
}

/// Eviction never drops a settlement that has not ended, and never one
/// that ended less than the retention time ago.
pub proof fn lemma_eviction_spares(table: TableView, retention: u64, now: u64, key: SettlementKeyView)
    requires
        table.contains_key(key),
        !table[key].is_expired(retention, now),
    ensures
        evict_step(table, retention, now).contains_key(key),
        evict_step(table, retention, now)[key] == table[key],
        !table[key].is_terminal() ==> !table[key].is_expired(retention, now),
{
}

/// A key that is taken is not claimed again: as long as nothing is
/// evicted, every caller that asks under it is told that the settlement is
/// in progress or how it ended.
pub proof fn lemma_key_is_claimed_once(
    table: TableView,
    retention: u64,
    key: SettlementKeyView,
    calls: Seq<TableCall>,
    amount: nat,
)
    requires
        table.contains_key(key),
        forall|i: int| 0 <= i < calls.len() ==> !(#[trigger] calls[i] is Evict),
    ensures
        after_calls(table, retention, calls).contains_key(key),
        !(claim_step(after_calls(table, retention, calls), key, amount).1 is Claimed),
    decreases calls.len(),
{
    if calls.len() > 0 {
        let earlier = calls.drop_last();
        assert forall|i: int| 0 <= i < earlier.len() implies !(#[trigger] earlier[i] is Evict) by {
            assert(earlier[i] == calls[i]);
        }
        lemma_key_is_claimed_once(table, retention, key, earlier, amount);
        assert(!(calls[calls.len() - 1] is Evict));
    }
}

/// The first caller to ask under a free key claims it, and the table then
/// holds the key.
pub proof fn lemma_free_key_is_claimed(table: TableView, key: SettlementKeyView, amount: nat)
    requires
        !table.contains_key(key),
    ensures
        claim_step(table, key, amount).1 is Claimed,
        claim_step(table, key, amount).0.contains_key(key),
        claim_step(table, key, amount).0[key].state() == SettlementState::Pending,
{
}

/// A settlement that has ended stays as it ended. Whatever calls follow,
/// for as long as its record is kept, every caller that asks under its key
/// is answered with the result it ended with.
pub proof fn lemma_ended_settlement_stays(
    table: TableView,
    retention: u64,
    key: SettlementKeyView,
    calls: Seq<TableCall>,
    amount: nat,
)
    requires
        table.contains_key(key),
        table[key].is_terminal(),
        forall|i: int|
            0 <= i < calls.len() ==> (#[trigger] calls[i] matches TableCall::Evict { now }
                ==> !table[key].is_expired(retention, now)),
    ensures
        after_calls(table, retention, calls).contains_key(key),
        after_calls(table, retention, calls)[key] == table[key],
        claim_step(after_calls(table, retention, calls), key, amount) == (
            after_calls(table, retention, calls),
            AdmissionView::Settled(table[key].outcome().unwrap()),
        ),
    decreases calls.len(),
{
    if calls.len() > 0 {
        let earlier = calls.drop_last();
        assert forall|i: int| 0 <= i < earlier.len() implies (#[trigger] earlier[i] matches TableCall::Evict {
            now,
        } ==> !table[key].is_expired(retention, now)) by {
            assert(earlier[i] == calls[i]);
        }
        lemma_ended_settlement_stays(table, retention, key, earlier, amount);
        let before = after_calls(table, retention, earlier);
        let call = calls[calls.len() - 1];
        match call {
            TableCall::Evict { now } => {
                lemma_eviction_spares(before, retention, now, key);
            },
            TableCall::Event { key: moved, event, now } => {
                if moved == key {
                    lemma_states_in_order(before[key], event, now);
                }
            },
            TableCall::Submit { key: moved } => {
                if moved == key {
                    lemma_states_in_order(before[key], ChainEventView::Outstanding, 0);
                }
            },
            TableCall::Claim { .. } => {},
        }
    }
}

/// Once a transfer under a key may have reached the chain, the number of
/// sendings under that key is final: whatever calls follow, the record is
/// still the same or the settlement has ended.
pub proof fn lemma_no_sending_after_doubt(
    table: TableView,
    retention: u64,
    key: SettlementKeyView,
    calls: Seq<TableCall>,
)
    requires
        table.contains_key(key),
        table[key].in_doubt(),
        forall|i: int|
            0 <= i < calls.len() ==> !(#[trigger] calls[i] is Evict),
    ensures
        after_calls(table, retention, calls).contains_key(key),
        after_calls(table, retention, calls)[key] == table[key] || after_calls(
            table,
            retention,
            calls,
        )[key].is_terminal(),
    decreases calls.len(),
{
    if calls.len() > 0 {
        let earlier = calls.drop_last();
        assert forall|i: int| 0 <= i < earlier.len() implies !(#[trigger] earlier[i] is Evict) by {
            assert(earlier[i] == calls[i]);
        }
        lemma_no_sending_after_doubt(table, retention, key, earlier);
        let before = after_calls(table, retention, earlier);
        let call = calls[calls.len() - 1];
        assert(!(call is Evict));
        match call {
            TableCall::Event { key: moved, event, now } => {
                if moved == key {
                    lemma_states_in_order(before[key], event, now);
                    if before[key] == table[key] {
                        lemma_doubt_stops_sending(before[key], event, now);
                    }
                }
            },
            TableCall::Submit { key: moved } => {
                if moved == key {
                    lemma_states_in_order(before[key], ChainEventView::Outstanding, 0);
                }
            },
            _ => {},
        }
    }
}

/// Whether `call`, made on `table`, orders a sending under `key`.
pub open spec fn orders_sending(table: TableView, call: TableCall, key: SettlementKeyView) -> bool {
    match call {
        TableCall::Submit { key: moved } => moved == key && submit_step(table, moved).1 is Broadcast,
        TableCall::Event { key: moved, event, now } => moved == key && event_step(
            table,
            moved,
            event,
            now,
        ).1 is Broadcast,
        _ => false,
    }
}

/// How many sendings under `key` a sequence of calls orders.
pub open spec fn sendings_ordered(
    table: TableView,
    retention: u64,
    calls: Seq<TableCall>,
    key: SettlementKeyView,
) -> nat
    decreases calls.len(),
{
    if calls.len() == 0 {
        0
    } else {
        let earlier = sendings_ordered(table, retention, calls.drop_last(), key);
        if orders_sending(after_calls(table, retention, calls.drop_last()), calls.last(), key) {
            earlier + 1
        } else {
            earlier
        }
    }
}

/// How many of `calls` report under `key` that nothing was sent.
pub open spec fn unsent_reports(calls: Seq<TableCall>, key: SettlementKeyView) -> nat
    decreases calls.len(),
{
    if calls.len() == 0 {
        0
    } else {
        let earlier = unsent_reports(calls.drop_last(), key);
        if calls.last() matches TableCall::Event { key: moved, event, .. } && moved == key
            && event is NotSent {
            earlier + 1
        } else {
            earlier
        }
    }
}

/// What the count of sendings has to do with the record, at any point of a
/// run that started with the key free.
spec fn count_matches_record(table: TableView, key: SettlementKeyView, count: nat, unsent: nat) -> bool {
    if !table.contains_key(key) {
        count == 0
    } else {
        match table[key].phase {
            PhaseView::Pending => count == 0,
            PhaseView::Submitted { attempts, .. } => count == attempts && count <= 1 + unsent,
            _ => 1 <= count <= MAX_ATTEMPTS && count <= 1 + unsent,
        }
    }
}

proof fn lemma_count_matches_record(
    table: TableView,
    retention: u64,
    key: SettlementKeyView,
    calls: Seq<TableCall>,
)
    requires
        table_well_formed(table),
        !table.contains_key(key),
        forall|i: int| 0 <= i < calls.len() ==> !(#[trigger] calls[i] is Evict),
    ensures
        count_matches_record(
            after_calls(table, retention, calls),
            key,
            sendings_ordered(table, retention, calls, key),
            unsent_reports(calls, key),
        ),
    decreases calls.len(),
{
    if calls.len() > 0 {
        let earlier = calls.drop_last();
        assert forall|i: int| 0 <= i < earlier.len() implies !(#[trigger] earlier[i] is Evict) by {
            assert(earlier[i] == calls[i]);
        }
        lemma_count_matches_record(table, retention, key, earlier);
        lemma_calls_keep_well_formed(table, retention, earlier);
        let before = after_calls(table, retention, earlier);
        let call = calls[calls.len() - 1];
        assert(!(call is Evict));
        match call {
            TableCall::Event { key: moved, event, now } => {
                if moved == key && before.contains_key(key) {
                    lemma_sending_is_counted(before[key], event, now);
                    lemma_states_in_order(before[key], event, now);
                }
            },
            TableCall::Submit { key: moved } => {
                if moved == key && before.contains_key(key) {
                    lemma_sending_is_counted(before[key], ChainEventView::Outstanding, 0);
                    lemma_states_in_order(before[key], ChainEventView::Outstanding, 0);
                }
            },
            _ => {},
        }
    }
}

/// Under one key the transfer is sent [`MAX_ATTEMPTS`] times at most, and
/// every sending but one has been reported as not sent: whatever calls
/// are made from the moment the key is free, for as long as its record is
/// kept, at most one sending can have reached the chain.
pub proof fn lemma_sendings_are_bounded(
    table: TableView,
    retention: u64,
    key: SettlementKeyView,
    calls: Seq<TableCall>,
)
    requires
        table_well_formed(table),
        !table.contains_key(key),
        forall|i: int| 0 <= i < calls.len() ==> !(#[trigger] calls[i] is Evict),
    ensures
        sendings_ordered(table, retention, calls, key) <= MAX_ATTEMPTS,
        sendings_ordered(table, retention, calls, key) <= 1 + unsent_reports(calls, key),
{
    lemma_count_matches_record(table, retention, key, calls);
    lemma_calls_keep_well_formed(table, retention, calls);
}

/// Settling again what has been settled gives the result again: a request
/// that passes verification, for a payment whose settlement has ended, is
/// answered with the stored result, and the table is left as it is.
pub proof fn lemma_settle_repeats_the_result(
    table: TableView,
    facilitator: FacilitatorView,
    requirements: PaymentRequirementsView,
    authorization: PaymentAuthorizationView,
    evidence: EvidenceView,
)
    requires
        facilitator.progress(requirements, authorization, evidence) == ProgressView::Done(
            VerifyOutcomeView::Valid { payer: authorization.payer },
        ),
        table.contains_key(settlement_key_view(requirements, authorization)),
        table[settlement_key_view(requirements, authorization)].is_terminal(),
    ensures
        settle_step(table, facilitator, requirements, authorization, evidence) == (
            table,
            SettleStepView::Settled(
                table[settlement_key_view(requirements, authorization)].outcome().unwrap(),
            ),
        ),
{
}

/// A request to settle claims a key only for a payment that passes
/// verification, and only if the key is free. In every other case the
/// table is left as it is.
pub proof fn lemma_settle_claims_with_care(
    table: TableView,
    facilitator: FacilitatorView,
    requirements: PaymentRequirementsView,
    authorization: PaymentAuthorizationView,
    evidence: EvidenceView,
)
    ensures
        ({
            let key = settlement_key_view(requirements, authorization);
            let step = settle_step(table, facilitator, requirements, authorization, evidence);
            &&& step.1 is Claimed <==> !table.contains_key(key) && facilitator.progress(
                requirements,
                authorization,
                evidence,
            ) == ProgressView::Done(VerifyOutcomeView::Valid { payer: authorization.payer })
            &&& !(step.1 is Claimed) ==> step.0 == table
            &&& step.1 is Claimed ==> step.0 == table.insert(
                key,
                SettlementRecordView::claimed(key, authorization.amount),
            )
        }),
{
}

} // verus!
