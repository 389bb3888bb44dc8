//! One settlement: its key, the state it is in, and how it moves.
//!
//! A settlement starts `Pending` when its key is claimed, becomes
//! `Submitted` when the transfer is handed to the chain, and ends
//! `Confirmed` or `Failed`. It never moves again once it has ended, and it
//! never ends without having been submitted.
//!
//! The transfer is sent again only while it is certain that no earlier
//! sending reached the chain: a second transfer must never follow one that
//! may have landed.

use crate::address::AddressRef;
use crate::amount::TokenAmount;
use crate::outcome::{SettleOutcome, SettleOutcomeView};
use crate::payment::{
    PaymentAuthorization, PaymentAuthorizationView, PaymentRequirements, PaymentRequirementsView,
};
use crate::taxonomy::{ErrorReason, ErrorReasonView};
use crate::text::{bytes_eq, text_eq};
use vstd::prelude::*;
use vstd::slice::slice_to_vec;

verus! {

/// How often the transfer of one settlement is sent at most.
pub const MAX_ATTEMPTS: u8 = 3;

/// The wait before the second sending, in milliseconds. Each later wait
/// is twice the one before.
pub const BACKOFF_BASE_MS: u64 = 500;

/// What makes a settlement the same settlement: the authorization's nonce,
/// which is unique for its payer and token, on its network.
#[derive(Debug, PartialEq, Eq)]
pub struct SettlementKey {
    pub network: String,
    pub token: AddressRef,
    pub payer: AddressRef,
    pub nonce: Vec<u8>,
}

/// The model of a [`SettlementKey`].
pub struct SettlementKeyView {
    pub network: Seq<char>,
    pub token: AddressRef,
    pub payer: AddressRef,
    pub nonce: Seq<u8>,
}

impl View for SettlementKey {
    type V = SettlementKeyView;

    open spec fn view(&self) -> SettlementKeyView {
        SettlementKeyView {
            network: self.network@,
            token: self.token,
            payer: self.payer,
            nonce: self.nonce@,
        }
    }
}

impl Clone for SettlementKey {
    fn clone(&self) -> (copy: SettlementKey)
        ensures
            copy@ == self@,
    {
        SettlementKey {
            network: self.network.clone(),
            token: self.token,
            payer: self.payer,
            nonce: slice_to_vec(self.nonce.as_slice()),
        }
    }
}

/// The key under which a payment is settled.
pub open spec fn settlement_key_view(
    requirements: PaymentRequirementsView,
    authorization: PaymentAuthorizationView,
) -> SettlementKeyView {
    SettlementKeyView {
        network: requirements.network,
        token: requirements.asset,
        payer: authorization.payer,
        nonce: authorization.nonce,
    }
}

impl SettlementKey {
    /// The key under which a payment is settled: the network and the token
    /// that are asked for, and the payer and the nonce of the authorization.
    pub fn of(requirements: &PaymentRequirements, authorization: &PaymentAuthorization) -> (key:
        SettlementKey)
        ensures
            key@ == settlement_key_view(requirements@, authorization@),
    {
        SettlementKey {
            network: requirements.network.clone(),
            token: requirements.asset,
            payer: authorization.payer,
            nonce: slice_to_vec(authorization.nonce.as_slice()),
        }
    }

    /// Whether two keys name the same settlement.
    pub fn same(&self, other: &SettlementKey) -> (same: bool)
        ensures
            same == (self@ == other@),
    {
        self.payer.same(&other.payer) && self.token.same(&other.token) && bytes_eq(
            self.nonce.as_slice(),
            other.nonce.as_slice(),
        ) && text_eq(self.network.as_str(), other.network.as_str())
    }
}

/// The four states of a settlement.
#[derive(Clone, Copy, Debug, PartialEq, Eq, Hash, Structural)]
pub enum SettlementState {
    /// The key is claimed; nothing has been sent.
    Pending,
    /// The transfer has been handed to the chain.
    Submitted,
    /// The transfer is on chain. The settlement has ended.
    Confirmed,
    /// The transfer was not made. The settlement has ended.
    Failed,
}

/// The state of a settlement together with what belongs to that state.
#[derive(Debug, PartialEq, Eq)]
pub enum Phase {
    Pending,
    /// `attempts` counts the sendings so far. `in_doubt` says that one of
    /// them may have reached the chain.
    Submitted { attempts: u8, in_doubt: bool },
    /// Ended at time `at` with the transfer `transaction` on chain.
    Confirmed { transaction: Vec<u8>, at: u64 },
    /// Ended at time `at` for `reason`.
    Failed { reason: ErrorReason, at: u64 },
}

/// The model of a [`Phase`].
pub enum PhaseView {
    Pending,
    Submitted { attempts: u8, in_doubt: bool },
    Confirmed { transaction: Seq<u8>, at: u64 },
    Failed { reason: ErrorReasonView, at: u64 },
}

impl View for Phase {
    type V = PhaseView;

    open spec fn view(&self) -> PhaseView {
        match self {
            Phase::Pending => PhaseView::Pending,
            Phase::Submitted { attempts, in_doubt } => PhaseView::Submitted {
                attempts: *attempts,
                in_doubt: *in_doubt,
            },
            Phase::Confirmed { transaction, at } => PhaseView::Confirmed {
                transaction: transaction@,
                at: *at,
            },
            Phase::Failed { reason, at } => PhaseView::Failed { reason: reason@, at: *at },
        }
    }
}

impl Clone for Phase {
    fn clone(&self) -> (copy: Phase)
        ensures
            copy@ == self@,
    {
        match self {
            Phase::Pending => Phase::Pending,
            Phase::Submitted { attempts, in_doubt } => Phase::Submitted {
                attempts: *attempts,
                in_doubt: *in_doubt,
            },
            Phase::Confirmed { transaction, at } => Phase::Confirmed {
                transaction: slice_to_vec(transaction.as_slice()),
                at: *at,
            },
            Phase::Failed { reason, at } => Phase::Failed { reason: reason.clone(), at: *at },
        }
    }
}

/// What the chain reported of a transfer that was handed to it.
#[derive(Debug, PartialEq, Eq)]
pub enum ChainEvent {
    /// The transfer is included in the chain.
    Confirmed { transaction: Vec<u8> },
    /// The chain turned the transfer down for good: it reverted, its nonce
    /// is used up, or its window has closed. `reason` is the chain
    /// client's classification, and is recorded as it stands.
    Rejected { reason: ErrorReason },
    /// The call failed and it is certain that nothing was sent.
    /// `retryable` is the chain client's word on whether trying again can help.
    NotSent { retryable: bool },
    /// The transfer was sent, or may have been, and no receipt has been
    /// seen yet.
    Outstanding,
}

/// The model of a [`ChainEvent`].
pub enum ChainEventView {
    Confirmed { transaction: Seq<u8> },
    Rejected { reason: ErrorReasonView },
    NotSent { retryable: bool },
    Outstanding,
}

impl View for ChainEvent {
    type V = ChainEventView;

    open spec fn view(&self) -> ChainEventView {
        match self {
            ChainEvent::Confirmed { transaction } => ChainEventView::Confirmed {
                transaction: transaction@,
            },
            ChainEvent::Rejected { reason } => ChainEventView::Rejected { reason: reason@ },
            ChainEvent::NotSent { retryable } => ChainEventView::NotSent { retryable: *retryable },
            ChainEvent::Outstanding => ChainEventView::Outstanding,
        }
    }
}

/// What the driver of a settlement has to do next.
#[derive(Debug, PartialEq, Eq)]
pub enum Directive {
    /// Wait `backoff_ms` milliseconds, then send the transfer. This is
    /// sending number `attempt`.
    Broadcast { attempt: u8, backoff_ms: u64 },
    /// Ask for the receipt of what was sent. Do not send again.
    AwaitConfirmation,
    /// The settlement has ended with this result.
    Finished(SettleOutcome),
    /// Nothing: the call did not apply to the settlement as it stands.
    Discarded,
}

/// The model of a [`Directive`].
pub enum DirectiveView {
    Broadcast { attempt: u8, backoff_ms: u64 },
    AwaitConfirmation,
    Finished(SettleOutcomeView),
    Discarded,
}

impl View for Directive {
    type V = DirectiveView;

    open spec fn view(&self) -> DirectiveView {
        match self {
            Directive::Broadcast { attempt, backoff_ms } => DirectiveView::Broadcast {
                attempt: *attempt,
                backoff_ms: *backoff_ms,
            },
            Directive::AwaitConfirmation => DirectiveView::AwaitConfirmation,
            Directive::Finished(outcome) => DirectiveView::Finished(outcome@),
            Directive::Discarded => DirectiveView::Discarded,
        }
    }
}

/// The wait before sending number `attempt`: none before the first,
/// [`BACKOFF_BASE_MS`] before the second, and twice the last wait before
/// each later one.
pub open spec fn backoff_before(attempt: nat) -> nat
    decreases attempt,
{
    if attempt <= 1 {
        0
    } else if attempt == 2 {
        BACKOFF_BASE_MS as nat
    } else {
        2 * backoff_before((attempt - 1) as nat)
    }
}

/// The wait before sending number `attempt`, in milliseconds.
fn backoff_ms(attempt: u8) -> (wait: u64)
    requires
        attempt <= MAX_ATTEMPTS,
    ensures
        wait == backoff_before(attempt as nat),
{
    proof {
        reveal_with_fuel(backoff_before, 4);
    }
    if attempt <= 1 {
        0
    } else if attempt == 2 {
        BACKOFF_BASE_MS
    } else {
        2 * BACKOFF_BASE_MS
    }
}

/// One settlement.
#[derive(Debug, PartialEq, Eq)]
pub struct SettlementRecord {
    pub key: SettlementKey,
    /// The amount that the authorization transfers.
    pub amount: TokenAmount,
    pub phase: Phase,
}

/// The model of a [`SettlementRecord`].
pub struct SettlementRecordView {
    pub key: SettlementKeyView,
    pub amount: nat,
    pub phase: PhaseView,
}

impl View for SettlementRecord {
    type V = SettlementRecordView;

    open spec fn view(&self) -> SettlementRecordView {
        SettlementRecordView { key: self.key@, amount: self.amount@, phase: self.phase@ }
    }
}

impl Clone for SettlementRecord {
    fn clone(&self) -> (copy: SettlementRecord)
        ensures
            copy@ == self@,
    {
        SettlementRecord { key: self.key.clone(), amount: self.amount, phase: self.phase.clone() }
    }
}

impl SettlementRecordView {
    /// The state that the record is in.
    pub open spec fn state(self) -> SettlementState {
        match self.phase {
            PhaseView::Pending => SettlementState::Pending,
            PhaseView::Submitted { .. } => SettlementState::Submitted,
            PhaseView::Confirmed { .. } => SettlementState::Confirmed,
            PhaseView::Failed { .. } => SettlementState::Failed,
        }
    }

    /// Whether the settlement has ended.
    pub open spec fn is_terminal(self) -> bool {
        self.phase is Confirmed || self.phase is Failed
    }

    /// The result of the settlement, once it has ended.
    pub open spec fn outcome(self) -> Option<SettleOutcomeView> {
        match self.phase {
            PhaseView::Confirmed { transaction, .. } => Some(
                SettleOutcomeView::Success {
                    network: self.key.network,
                    transaction,
                    payer: self.key.payer,
                    amount: self.amount,
                },
            ),
            PhaseView::Failed { reason, .. } => Some(
                SettleOutcomeView::Failure { payer: Some(self.key.payer), reason },
            ),
            _ => None,
        }
    }

    /// The time at which the settlement ended, once it has.
    pub open spec fn ended_at(self) -> Option<u64> {
        match self.phase {
            PhaseView::Confirmed { at, .. } => Some(at),
            PhaseView::Failed { at, .. } => Some(at),
            _ => None,
        }
    }

    /// How often the transfer has been sent so far, while that is known.
    pub open spec fn sendings(self) -> nat {
        match self.phase {
            PhaseView::Submitted { attempts, .. } => attempts as nat,
            _ => 0,
        }
    }

    /// Whether a sending may have reached the chain.
    pub open spec fn in_doubt(self) -> bool {
        self.phase matches PhaseView::Submitted { in_doubt, .. } && in_doubt
    }

    /// What always holds of a record: a submitted transfer has been sent
    /// at least once and at most [`MAX_ATTEMPTS`] times.
    pub open spec fn well_formed(self) -> bool {
        self.phase matches PhaseView::Submitted { attempts, .. } ==> 1 <= attempts <= MAX_ATTEMPTS
    }

    /// The record of a key that has just been claimed.
    pub open spec fn claimed(key: SettlementKeyView, amount: nat) -> SettlementRecordView {
        SettlementRecordView { key, amount, phase: PhaseView::Pending }
    }

    /// The record with another phase.
    pub open spec fn with_phase(self, phase: PhaseView) -> SettlementRecordView {
        SettlementRecordView { key: self.key, amount: self.amount, phase }
    }

    /// Handing the transfer to the chain for the first time.
    ///
    /// A pending record becomes submitted and the transfer is to be sent
    /// at once. A record that is submitted already stays as it is and
    /// nothing is sent; one that has ended answers with its result.
    pub open spec fn submit(self) -> (SettlementRecordView, DirectiveView) {
        match self.phase {
            PhaseView::Pending => (
                self.with_phase(PhaseView::Submitted { attempts: 1, in_doubt: false }),
                DirectiveView::Broadcast { attempt: 1, backoff_ms: 0 },
            ),
            PhaseView::Submitted { .. } => (self, DirectiveView::Discarded),
            _ => (self, DirectiveView::Finished(self.outcome().unwrap())),
        }
    }

    /// Taking in what the chain reported at time `now`.
    ///
    /// Only a submitted record moves. Inclusion ends it as confirmed, and
    /// a rejection as failed with the reason given. While no sending can
    /// have reached the chain, a failure to send is answered by sending
    /// again, as long as the chain client holds that for useful and fewer
    /// than [`MAX_ATTEMPTS`] sendings were made; otherwise the settlement
    /// fails with `ContractCall`. Once a sending may have reached the
    /// chain, nothing is sent any more and the receipt is waited for.
    pub open spec fn absorb(self, event: ChainEventView, now: u64) -> (
        SettlementRecordView,
        DirectiveView,
    ) {
        match self.phase {
            PhaseView::Pending => (self, DirectiveView::Discarded),
            PhaseView::Confirmed { .. } | PhaseView::Failed { .. } => (
                self,
                DirectiveView::Finished(self.outcome().unwrap()),
            ),
            PhaseView::Submitted { attempts, in_doubt } => match event {
                ChainEventView::Confirmed { transaction } => {
                    let ended = self.with_phase(PhaseView::Confirmed { transaction, at: now });
                    (ended, DirectiveView::Finished(ended.outcome().unwrap()))
                },
                ChainEventView::Rejected { reason } => {
                    let ended = self.with_phase(PhaseView::Failed { reason, at: now });
                    (ended, DirectiveView::Finished(ended.outcome().unwrap()))
                },
                ChainEventView::Outstanding => (
                    self.with_phase(PhaseView::Submitted { attempts, in_doubt: true }),
                    DirectiveView::AwaitConfirmation,
                ),
                ChainEventView::NotSent { retryable } => {
                    if in_doubt {
                        (self, DirectiveView::AwaitConfirmation)
                    } else if retryable && attempts < MAX_ATTEMPTS {
                        (
                            self.with_phase(
                                PhaseView::Submitted {
                                    attempts: (attempts + 1) as u8,
                                    in_doubt: false,
                                },
                            ),
                            DirectiveView::Broadcast {
                                attempt: (attempts + 1) as u8,
                                backoff_ms: backoff_before((attempts + 1) as nat) as u64,
                            },
                        )
                    } else {
                        let ended = self.with_phase(
                            PhaseView::Failed { reason: ErrorReasonView::ContractCall, at: now },
                        );
                        (ended, DirectiveView::Finished(ended.outcome().unwrap()))
                    }
                },
            },
        }
    }

    /// Whether the record may be dropped at time `now`: it has ended, and
    /// at least `retention` seconds have passed since.
    pub open spec fn is_expired(self, retention: u64, now: u64) -> bool {
        match self.ended_at() {
            Some(at) => now >= at && now - at >= retention,
            None => false,
        }
    }
}

impl SettlementRecord {
    /// The record of a key that has just been claimed.
    pub fn claimed(key: SettlementKey, amount: TokenAmount) -> (record: SettlementRecord)
        ensures
            record@ == SettlementRecordView::claimed(key@, amount@),
            record@.well_formed(),
    {
        SettlementRecord { key, amount, phase: Phase::Pending }
    }

    /// The state that the record is in.
    pub fn state(&self) -> (state: SettlementState)
        ensures
            state == self@.state(),
    {
        match &self.phase {
            Phase::Pending => SettlementState::Pending,
            Phase::Submitted { .. } => SettlementState::Submitted,
            Phase::Confirmed { .. } => SettlementState::Confirmed,
            Phase::Failed { .. } => SettlementState::Failed,
        }
    }

    /// The result of the settlement, once it has ended.
    pub fn outcome(&self) -> (outcome: Option<SettleOutcome>)
        ensures
            outcome is Some <==> self@.is_terminal(),
            match outcome {
                Some(result) => self@.outcome() == Some(result@),
                None => self@.outcome() is None,
            },
    {
        match &self.phase {
            Phase::Confirmed { transaction, .. } => Some(
                SettleOutcome::Success {
                    network: self.key.network.clone(),
                    transaction: slice_to_vec(transaction.as_slice()),
                    payer: self.key.payer,
                    amount: self.amount,
                },
            ),
            Phase::Failed { reason, .. } => Some(
                SettleOutcome::Failure { payer: Some(self.key.payer), reason: reason.clone() },
            ),
            _ => None,
        }
    }

    /// The record with another phase.
    fn with_phase(&self, phase: Phase) -> (record: SettlementRecord)
        ensures
            record@ == self@.with_phase(phase@),
    {
        SettlementRecord { key: self.key.clone(), amount: self.amount, phase }
    }

    /// The directive that reports the end of this settlement, if it has ended.
    fn report(&self) -> (directive: Directive)
        ensures
            directive@ == match self@.outcome() {
                Some(outcome) => DirectiveView::Finished(outcome),
                None => DirectiveView::Discarded,
            },
    {
        match self.outcome() {
            Some(outcome) => Directive::Finished(outcome),
            None => Directive::Discarded,
        }
    }

    /// Hands the transfer to the chain for the first time: the record
    /// after it, and what the driver has to do.
    pub fn submit(&self) -> (next: (SettlementRecord, Directive))
        ensures
            (next.0@, next.1@) == self@.submit(),
            self@.well_formed() ==> next.0@.well_formed(),
    {
        match &self.phase {
            Phase::Pending => (
                self.with_phase(Phase::Submitted { attempts: 1, in_doubt: false }),
                Directive::Broadcast { attempt: 1, backoff_ms: 0 },
            ),
            Phase::Submitted { .. } => (self.clone(), Directive::Discarded),
            _ => (self.clone(), self.report()),
        }
    }

    /// Takes in what the chain reported at time `now`: the record after
    /// it, and what the driver has to do.
    pub fn absorb(&self, event: &ChainEvent, now: u64) -> (next: (SettlementRecord, Directive))
        ensures
            (next.0@, next.1@) == self@.absorb(event@, now),
            self@.well_formed() ==> next.0@.well_formed(),
    {
        match &self.phase {
            Phase::Pending => (self.clone(), Directive::Discarded),
            Phase::Confirmed { .. } | Phase::Failed { .. } => (self.clone(), self.report()),
            Phase::Submitted { attempts, in_doubt } => match event {
                ChainEvent::Confirmed { transaction } => {
                    let ended = self.with_phase(
                        Phase::Confirmed {
                            transaction: slice_to_vec(transaction.as_slice()),
                            at: now,
                        },
                    );
                    let directive = ended.report();
                    (ended, directive)
                },
                ChainEvent::Rejected { reason } => {
                    let ended = self.with_phase(Phase::Failed { reason: reason.clone(), at: now });
                    let directive = ended.report();
                    (ended, directive)
                },
                ChainEvent::Outstanding => (
                    self.with_phase(Phase::Submitted { attempts: *attempts, in_doubt: true }),
                    Directive::AwaitConfirmation,
                ),
                ChainEvent::NotSent { retryable } => {
                    if *in_doubt {
                        (self.clone(), Directive::AwaitConfirmation)
                    } else if *retryable && *attempts < MAX_ATTEMPTS {
                        let attempt: u8 = *attempts + 1;
                        (
                            self.with_phase(Phase::Submitted { attempts: attempt, in_doubt: false }),
                            Directive::Broadcast { attempt, backoff_ms: backoff_ms(attempt) },
                        )
                    } else {
                        let ended = self.with_phase(
                            Phase::Failed { reason: ErrorReason::ContractCall, at: now },
                        );
                        let directive = ended.report();
                        (ended, directive)
                    }
                },
            },
        }
    }

    /// Whether the record may be dropped at time `now`.
    pub fn is_expired(&self, retention: u64, now: u64) -> (expired: bool)
        ensures
            expired == self@.is_expired(retention, now),
    {
        match &self.phase {
            Phase::Confirmed { at, .. } => now >= *at && now - *at >= retention,
            Phase::Failed { at, .. } => now >= *at && now - *at >= retention,
            _ => false,
        }
    }
}

} // verus!
