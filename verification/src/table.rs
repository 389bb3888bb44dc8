//! The table of settlements, keyed by what makes a settlement the same
//! settlement.
//!
//! The table is the one piece of state that settlements share. Whoever
//! holds it exclusively for the length of one call has claimed, moved or
//! read a record atomically: of any number of callers that claim one key,
//! one wins and the others learn that the key is taken.

use crate::amount::TokenAmount;
use crate::outcome::{SettleOutcome, SettleOutcomeView};
use crate::record::{
    ChainEvent, ChainEventView, Directive, DirectiveView, SettlementKey, SettlementKeyView,
    SettlementRecord, SettlementRecordView,
};
use vstd::prelude::*;

verus! {

/// What a caller learns who asks to settle under a key.
#[derive(Debug, PartialEq, Eq)]
pub enum Admission {
    /// The key was free and is now this caller's: the record is pending.
    Claimed,
    /// Another attempt holds the key and has not ended.
    InProgress,
    /// The settlement under this key has ended with this result.
    Settled(SettleOutcome),
}

/// The model of an [`Admission`].
pub enum AdmissionView {
    Claimed,
    InProgress,
    Settled(SettleOutcomeView),
}

impl View for Admission {
    type V = AdmissionView;

    open spec fn view(&self) -> AdmissionView {
        match self {
            Admission::Claimed => AdmissionView::Claimed,
            Admission::InProgress => AdmissionView::InProgress,
            Admission::Settled(outcome) => AdmissionView::Settled(outcome@),
        }
    }
}

/// The model of a table: its records by key.
pub type TableView = Map<SettlementKeyView, SettlementRecordView>;

/// What always holds of a table: every record is filed under its own key
/// and is well formed.
pub open spec fn table_well_formed(table: TableView) -> bool {
    forall|key: SettlementKeyView| #[trigger]
        table.contains_key(key) ==> table[key].key == key && table[key].well_formed()
}

/// Asking to settle under `key`.
///
/// A free key is claimed: a pending record is made for it. A key that is
/// taken is left as it is, and the caller learns the result if the
/// settlement has ended, and that it is in progress if not.
pub open spec fn claim_step(table: TableView, key: SettlementKeyView, amount: nat) -> (
    TableView,
    AdmissionView,
) {
    if table.contains_key(key) {
        match table[key].outcome() {
            Some(outcome) => (table, AdmissionView::Settled(outcome)),
            None => (table, AdmissionView::InProgress),
        }
    } else {
        (table.insert(key, SettlementRecordView::claimed(key, amount)), AdmissionView::Claimed)
    }
}

/// Handing the transfer under `key` to the chain for the first time.
pub open spec fn submit_step(table: TableView, key: SettlementKeyView) -> (TableView, DirectiveView) {
    if table.contains_key(key) {
        let next = table[key].submit();
        (table.insert(key, next.0), next.1)
    } else {
        (table, DirectiveView::Discarded)
    }
}

/// Taking in what the chain reported of the transfer under `key`.
pub open spec fn event_step(
    table: TableView,
    key: SettlementKeyView,
    event: ChainEventView,
    now: u64,
) -> (TableView, DirectiveView) {
    if table.contains_key(key) {
        let next = table[key].absorb(event, now);
        (table.insert(key, next.0), next.1)
    } else {
        (table, DirectiveView::Discarded)
    }
}

/// The keys whose records may be dropped at time `now`.
pub open spec fn expired_keys(table: TableView, retention: u64, now: u64) -> Set<SettlementKeyView> {
    Set::new(|key: SettlementKeyView| table.contains_key(key) && table[key].is_expired(retention, now))
}

/// Dropping the records that ended at least `retention` seconds before `now`.
pub open spec fn evict_step(table: TableView, retention: u64, now: u64) -> TableView {
    table.remove_keys(expired_keys(table, retention, now))
}

/// Whether `records` holds a record under `key`.
spec fn has_key(records: Seq<SettlementRecord>, key: SettlementKeyView) -> bool {
    exists|i: int| 0 <= i < records.len() && #[trigger] records[i]@.key == key
}

/// A place in `records` where `key` is filed, if there is one.
spec fn place_of(records: Seq<SettlementRecord>, key: SettlementKeyView) -> int {
    choose|i: int| 0 <= i < records.len() && #[trigger] records[i]@.key == key
}

/// Whether no two of `records` have the same key.
spec fn distinct_keys(records: Seq<SettlementRecord>) -> bool {
    forall|i: int, j: int|
        0 <= i < j < records.len() ==> #[trigger] records[i]@.key != #[trigger] records[j]@.key
}

/// The records by key.
spec fn by_key(records: Seq<SettlementRecord>) -> TableView {
    Map::new(
        |key: SettlementKeyView| has_key(records, key),
        |key: SettlementKeyView| records[place_of(records, key)]@,
    )
}

/// Each record is found under its key.
proof fn lemma_filed(records: Seq<SettlementRecord>, i: int)
    requires
        distinct_keys(records),
        0 <= i < records.len(),
    ensures
        by_key(records).contains_key(records[i]@.key),
        by_key(records)[records[i]@.key] == records[i]@,
        place_of(records, records[i]@.key) == i,
{
    let key = records[i]@.key;
    let j = place_of(records, key);
    assert(0 <= j < records.len() && records[j]@.key == key);
    if j < i {
        assert(records[j]@.key != records[i]@.key);
    } else if i < j {
        assert(records[i]@.key != records[j]@.key);
    }
}

/// Adding a record under a free key adds it to the map.
proof fn lemma_pushed(records: Seq<SettlementRecord>, record: SettlementRecord)
    requires
        distinct_keys(records),
        !has_key(records, record@.key),
    ensures
        distinct_keys(records.push(record)),
        by_key(records.push(record)) == by_key(records).insert(record@.key, record@),
{
    let after = records.push(record);
    assert forall|i: int, j: int| 0 <= i < j < after.len() implies #[trigger] after[i]@.key
        != #[trigger] after[j]@.key by {
        if j == records.len() {
            assert(records[i]@.key != record@.key);
        } else {
            assert(records[i]@.key != records[j]@.key);
        }
    }
    assert forall|key: SettlementKeyView|
        by_key(after).contains_key(key) <==> by_key(records).insert(
            record@.key,
            record@,
        ).contains_key(key) by {
        if has_key(records, key) {
            let i = place_of(records, key);
            assert(after[i]@.key == key);
        }
        if key == record@.key {
            assert(after[records.len() as int]@.key == key);
        }
        if has_key(after, key) {
            let i = place_of(after, key);
            if i < records.len() {
                assert(records[i]@.key == key);
            }
        }
    }
    assert forall|key: SettlementKeyView| by_key(after).contains_key(key) implies by_key(after)[key]
        == by_key(records).insert(record@.key, record@)[key] by {
        let i = place_of(after, key);
        lemma_filed(after, i);
        if i < records.len() {
            lemma_filed(records, i);
        }
    }
    assert(by_key(after) =~= by_key(records).insert(record@.key, record@));
}

/// Replacing a record by one with the same key replaces it in the map.
proof fn lemma_replaced(records: Seq<SettlementRecord>, i: int, record: SettlementRecord)
    requires
        distinct_keys(records),
        0 <= i < records.len(),
        records[i]@.key == record@.key,
    ensures
        distinct_keys(records.update(i, record)),
        by_key(records.update(i, record)) == by_key(records).insert(record@.key, record@),
{
    let after = records.update(i, record);
    assert forall|a: int, b: int| 0 <= a < b < after.len() implies #[trigger] after[a]@.key
        != #[trigger] after[b]@.key by {
        assert(records[a]@.key != records[b]@.key);
    }
    assert forall|key: SettlementKeyView|
        by_key(after).contains_key(key) <==> by_key(records).insert(
            record@.key,
            record@,
        ).contains_key(key) by {
        if has_key(records, key) {
            let j = place_of(records, key);
            assert(after[j]@.key == key);
        }
        if key == record@.key {
            assert(after[i]@.key == key);
        }
        if has_key(after, key) {
            let j = place_of(after, key);
            assert(records[j]@.key == key);
        }
    }
    assert forall|key: SettlementKeyView| by_key(after).contains_key(key) implies by_key(after)[key]
        == by_key(records).insert(record@.key, record@)[key] by {
        let j = place_of(after, key);
        lemma_filed(after, j);
        lemma_filed(records, j);
    }
    assert(by_key(after) =~= by_key(records).insert(record@.key, record@));
}

/// The table of settlements.
#[derive(Debug)]
pub struct SettlementTable {
    records: Vec<SettlementRecord>,
    retention: u64,
}

impl View for SettlementTable {
    type V = TableView;

    closed spec fn view(&self) -> TableView {
        by_key(self.records@)
    }
}

impl SettlementTable {
    #[verifier::type_invariant]
    spec fn sound(self) -> bool {
        &&& distinct_keys(self.records@)
        &&& forall|i: int| 0 <= i < self.records@.len() ==> (#[trigger] self.records@[i])@.well_formed()
    }

    /// For how many seconds a record is kept after its settlement has ended.
    pub closed spec fn retention(&self) -> u64 {
        self.retention
    }

    /// An empty table that keeps each record for `retention` seconds
    /// after its settlement has ended.
    pub fn new(retention: u64) -> (table: SettlementTable)
        ensures
            table@ == Map::<SettlementKeyView, SettlementRecordView>::empty(),
            table.retention() == retention,
            table_well_formed(table@),
    {
        let table = SettlementTable { records: Vec::new(), retention };
        assert(table@ =~= Map::<SettlementKeyView, SettlementRecordView>::empty());
        table
    }

    /// For how many seconds a record is kept after its settlement has ended.
    pub fn retention_secs(&self) -> (retention: u64)
        ensures
            retention == self.retention(),
    {
        self.retention
    }

    /// Makes known to a verified caller that the table is well formed, as
    /// it is at all times. Does nothing when it runs.
    pub fn check_well_formed(&self)
        ensures
            table_well_formed(self@),
    {
        proof {
            use_type_invariant(self);
            assert forall|key: SettlementKeyView| #[trigger] self@.contains_key(key) implies self@[key].key
                == key && self@[key].well_formed() by {
                let i = place_of(self.records@, key);
                assert(self.records@[i]@.well_formed());
            }
        }
    }

    /// Where `key` is filed, if it is.
    fn find(&self, key: &SettlementKey) -> (place: Option<usize>)
        ensures
            match place {
                Some(i) => i < self.records@.len() && self.records@[i as int]@.key == key@,
                None => !has_key(self.records@, key@),
            },
    {
        let mut i: usize = 0;
        while i < self.records.len()
            invariant
                0 <= i <= self.records.len(),
                forall|j: int| 0 <= j < i ==> (#[trigger] self.records@[j])@.key != key@,
            decreases self.records.len() - i,
        {
            if self.records[i].key.same(key) {
                return Some(i);
            }
            i += 1;
        }
        None
    }

    /// The record under `key`, if there is one.
    pub fn lookup(&self, key: &SettlementKey) -> (found: Option<SettlementRecord>)
        ensures
            match found {
                Some(record) => self@.contains_key(key@) && self@[key@] == record@,
                None => !self@.contains_key(key@),
            },
    {
        proof {
            use_type_invariant(self);
        }
        match self.find(key) {
            Some(i) => {
                proof {
                    lemma_filed(self.records@, i as int);
                }
                Some(self.records[i].clone())
            },
            None => None,
        }
    }

    /// Asks to settle under `key` a transfer of `amount`.
    ///
    /// Of all callers that ask under one key while it is in the table,
    /// only the first is told `Claimed`.
    pub fn claim(&mut self, key: SettlementKey, amount: TokenAmount) -> (admission: Admission)
        ensures
            (final(self)@, admission@) == claim_step(old(self)@, key@, amount@),
            final(self).retention() == old(self).retention(),
            table_well_formed(final(self)@),
    {
        proof {
            use_type_invariant(&*self);
        }
        let admission = match self.find(&key) {
            Some(i) => {
                proof {
                    lemma_filed(self.records@, i as int);
                }
                match self.records[i].outcome() {
                    Some(outcome) => Admission::Settled(outcome),
                    None => Admission::InProgress,
                }
            },
            None => {
                let record = SettlementRecord::claimed(key, amount);
                let mut records: Vec<SettlementRecord> = Vec::new();
                std::mem::swap(&mut records, &mut self.records);
                proof {
                    lemma_pushed(records@, record);
                }
                records.push(record);
                self.records = records;
                Admission::Claimed
            },
        };
        self.check_well_formed();
        admission
    }

    /// Puts `record` in the place `i`, where a record with its key stands.
    fn replace(&mut self, i: usize, record: SettlementRecord)
        requires
            i < old(self).records@.len(),
            old(self).records@[i as int]@.key == record@.key,
            record@.well_formed(),
        ensures
            final(self)@ == old(self)@.insert(record@.key, record@),
            final(self).retention() == old(self).retention(),
    {
        proof {
            use_type_invariant(&*self);
        }
        let mut records: Vec<SettlementRecord> = Vec::new();
        std::mem::swap(&mut records, &mut self.records);
        proof {
            lemma_replaced(records@, i as int, record);
        }
        records.set(i, record);
        self.records = records;
    }

    /// Hands the transfer under `key` to the chain for the first time.
    ///
    /// A pending record becomes submitted, and the driver is told to send
    /// the transfer. In every other case nothing changes and nothing is
    /// to be sent.
    pub fn submit(&mut self, key: &SettlementKey) -> (directive: Directive)
        ensures
            (final(self)@, directive@) == submit_step(old(self)@, key@),
            final(self).retention() == old(self).retention(),
            table_well_formed(final(self)@),
    {
        proof {
            use_type_invariant(&*self);
        }
        let directive = match self.find(key) {
            Some(i) => {
                proof {
                    lemma_filed(self.records@, i as int);
                }
                let (record, directive) = self.records[i].submit();
                self.replace(i, record);
                directive
            },
            None => Directive::Discarded,
        };
        self.check_well_formed();
        directive
    }

    /// Takes in what the chain reported at time `now` of the transfer under `key`.
    pub fn record_event(&mut self, key: &SettlementKey, event: &ChainEvent, now: u64) -> (directive:
        Directive)
        ensures
            (final(self)@, directive@) == event_step(old(self)@, key@, event@, now),
            final(self).retention() == old(self).retention(),
            table_well_formed(final(self)@),
    {
        proof {
            use_type_invariant(&*self);
        }
        let directive = match self.find(key) {
            Some(i) => {
                proof {
                    lemma_filed(self.records@, i as int);
                }
                let (record, directive) = self.records[i].absorb(event, now);
                self.replace(i, record);
                directive
            },
            None => Directive::Discarded,
        };
        self.check_well_formed();
        directive
    }

    /// Drops the records whose settlement ended at least
    /// [`retention`](Self::retention) seconds before `now`. A settlement that has not
    /// ended is never dropped.
    pub fn evict_expired(&mut self, now: u64)
        ensures
            final(self)@ == evict_step(old(self)@, old(self).retention(), now),
            final(self).retention() == old(self).retention(),
            table_well_formed(final(self)@),
    {
        proof {
            use_type_invariant(&*self);
        }
        let retention = self.retention;
        let mut records: Vec<SettlementRecord> = Vec::new();
        std::mem::swap(&mut records, &mut self.records);
        let mut kept: Vec<SettlementRecord> = Vec::new();
        let mut i: usize = 0;
        while i < records.len()
            invariant
                0 <= i <= records.len(),
                distinct_keys(records@),
                distinct_keys(kept@),
                forall|j: int| 0 <= j < records@.len() ==> (#[trigger] records@[j])@.well_formed(),
                forall|a: int|
                    0 <= a < kept@.len() ==> {
                        let j = place_of(records@, (#[trigger] kept@[a])@.key);
                        &&& 0 <= j < i
                        &&& records@[j]@ == kept@[a]@
                        &&& !records@[j]@.is_expired(retention, now)
                    },
                forall|j: int|
                    0 <= j < i && !(#[trigger] records@[j])@.is_expired(retention, now) ==> has_key(
                        kept@,
                        records@[j]@.key,
                    ),
            decreases records.len() - i,
        {
            proof {
                lemma_filed(records@, i as int);
            }
            if !records[i].is_expired(retention, now) {
                let record = records[i].clone();
                proof {
                    assert forall|a: int| 0 <= a < kept@.len() implies (#[trigger] kept@[a])@.key
                        != record@.key by {
                        let j = place_of(records@, kept@[a]@.key);
                        assert(j < i);
                    }
                    lemma_pushed(kept@, record);
                    let grown = kept@.push(record);
                    assert forall|j: int|
                        0 <= j < i + 1 && !(#[trigger] records@[j])@.is_expired(
                            retention,
                            now,
                        ) implies has_key(grown, records@[j]@.key) by {
                        if j < i {
                            let a = place_of(kept@, records@[j]@.key);
                            assert(grown[a]@.key == records@[j]@.key);
                        } else {
                            assert(grown[kept@.len() as int]@.key == records@[j]@.key);
                        }
                    }
                }
                kept.push(record);
            }
            i += 1;
        }
        proof {
            let before = by_key(records@);
            let after = by_key(kept@);
            let gone = expired_keys(before, retention, now);
            assert forall|key: SettlementKeyView| after.contains_key(key) <==> before.remove_keys(
                gone,
            ).contains_key(key) by {
                if has_key(kept@, key) {
                    let a = place_of(kept@, key);
                    let j = place_of(records@, kept@[a]@.key);
                    lemma_filed(records@, j);
                }
                if before.contains_key(key) && !gone.contains(key) {
                    let j = place_of(records@, key);
                    lemma_filed(records@, j);
                    assert(!records@[j]@.is_expired(retention, now));
                }
            }
            assert forall|key: SettlementKeyView| after.contains_key(key) implies after[key]
                == before.remove_keys(gone)[key] by {
                let a = place_of(kept@, key);
                lemma_filed(kept@, a);
                let j = place_of(records@, kept@[a]@.key);
                lemma_filed(records@, j);
            }
            assert(after =~= before.remove_keys(gone));
            assert forall|a: int| 0 <= a < kept@.len() implies (#[trigger] kept@[a])@.well_formed() by {
                let j = place_of(records@, kept@[a]@.key);
                assert(records@[j]@.well_formed());
            }
        }
        self.records = kept;
        self.check_well_formed();
    }
}

} // verus!
