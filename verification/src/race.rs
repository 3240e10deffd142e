//! Callers that race for one dimension in a store with optimistic
//! transactions. The store is reduced to what the claim protocol relies on: a
//! record of which every commit writes a new version, a read that returns
//! one of its versions, and a commit that fails with a conflict when the
//! record was written after the version that the transaction read. Whether a
//! transaction reads the newest version or the one of the moment at which it
//! began is left to the store. Against such a store, in whatever order the
//! callers take their turns and whichever calls fail, the granted values rise
//! strictly: no value is granted twice, and none at or below one that was
//! granted before. Over malformed bytes nobody is granted, and nothing is
//! written.

use vstd::prelude::*;
use crate::claim::exceeds;
use crate::codec::{be_bytes, lemma_roundtrip, RECORD_WIDTH};
use crate::store::{
    is_malformed,
    stored_level,
    Attempt,
    Key,
    Next,
    Phase,
    StoreErrorView,
    StoreReplyView,
};

verus! {

/// One caller in a race.
pub struct Racer {
    /// The value that it proposes.
    pub value: u64,
    /// How far its attempt has come.
    pub progress: Next,
    /// The version of the record that the caller read.
    pub read_version: nat,
}

/// One grant: the caller that was told "yes", and the value.
pub struct Grant {
    pub racer: int,
    pub value: u64,
}

/// A store call that fails. `applied` says whether the store carried the
/// call out before the failure reached the caller.
pub struct Failure {
    pub error: StoreErrorView,
    pub applied: bool,
}

/// One turn of a race: the caller whose pending store call is made, the
/// version that the store lets it read if the call is a read, and the failure
/// of the call if it fails.
pub struct Turn {
    pub racer: int,
    pub as_of: nat,
    pub failure: Option<Failure>,
}

/// The record of one dimension and the callers that race for it.
pub struct Race {
    pub key: Key,
    /// The versions of the record, the newest last. There is always one.
    pub history: Seq<Option<Seq<u8>>>,
    pub racers: Seq<Racer>,
    /// The grants so far, in the order of their commits.
    pub grants: Seq<Grant>,
}

/// The error with which the store rejects a commit whose record was written
/// by another transaction.
pub open spec fn write_conflict() -> StoreErrorView {
    StoreErrorView::KeyError { conflict: true, reason: Seq::empty() }
}

impl Race {
    /// The race of callers that propose `values` on the dimension of `key`,
    /// before any of them has made a store call.
    pub open spec fn start(key: Key, record: Option<Seq<u8>>, values: Seq<u64>) -> Race {
        Race {
            key,
            history: seq![record],
            racers: Seq::new(
                values.len(),
                |i: int|
                    Racer {
                        value: values[i],
                        progress: Next::Continue(Attempt::start(key, values[i])),
                        read_version: 0,
                    },
            ),
            grants: Seq::empty(),
        }
    }

    /// The number of the newest version of the record.
    pub open spec fn version(self) -> nat {
        (self.history.len() - 1) as nat
    }

    /// The newest version of the record.
    pub open spec fn record(self) -> Option<Seq<u8>> {
        self.history.last()
    }

    /// The version that the read of this turn returns: the one that the turn
    /// names, or the newest if there is none of that number.
    pub open spec fn version_read(self, turn: Turn) -> nat {
        if turn.as_of <= self.version() {
            turn.as_of
        } else {
            self.version()
        }
    }

    /// Whether the turn is taken by a caller whose attempt has not ended.
    pub open spec fn moves(self, turn: Turn) -> bool {
        0 <= turn.racer < self.racers.len() && self.racers[turn.racer].progress is Continue
    }

    /// Whether the store carries out the call of this turn.
    pub open spec fn applies(self, turn: Turn) -> bool {
        match turn.failure {
            Some(failure) => failure.applied,
            None => true,
        }
    }

    /// Whether the call of this turn is a commit that the store accepts: the
    /// record has not been written since the caller read it.
    pub open spec fn commits(self, turn: Turn) -> bool {
        let racer = self.racers[turn.racer];
        &&& self.moves(turn)
        &&& self.applies(turn)
        &&& racer.progress->Continue_0.phase == Phase::Committing
        &&& racer.read_version == self.version()
    }

    /// What the caller of this turn is told.
    pub open spec fn reply(self, turn: Turn) -> StoreReplyView {
        let racer = self.racers[turn.racer];
        match turn.failure {
            Some(failure) => StoreReplyView::Failed(failure.error),
            None => match racer.progress->Continue_0.phase {
                Phase::Beginning => StoreReplyView::Begun,
                Phase::Reading => StoreReplyView::Value(
                    self.history[self.version_read(turn) as int],
                ),
                Phase::Writing => StoreReplyView::Written,
                Phase::Committing => if racer.read_version == self.version() {
                    StoreReplyView::Committed
                } else {
                    StoreReplyView::Failed(write_conflict())
                },
                Phase::RollingBack => StoreReplyView::RolledBack,
                Phase::Rejecting => StoreReplyView::RolledBack,
            },
        }
    }

    /// The race after one turn. A turn of a caller whose attempt has ended
    /// changes nothing.
    pub open spec fn after(self, turn: Turn) -> Race {
        if !self.moves(turn) {
            self
        } else {
            let racer = self.racers[turn.racer];
            let attempt = racer.progress->Continue_0;
            let progress = attempt.next(self.reply(turn));
            let reads = attempt.phase == Phase::Reading && self.applies(turn);
            let moved = Racer {
                value: racer.value,
                progress,
                read_version: if reads {
                    self.version_read(turn)
                } else {
                    racer.read_version
                },
            };
            Race {
                key: self.key,
                history: if self.commits(turn) {
                    self.history.push(Some(be_bytes(racer.value as nat, RECORD_WIDTH as nat)))
                } else {
                    self.history
                },
                racers: self.racers.update(turn.racer, moved),
                grants: if progress == Next::Finished(Ok::<bool, Seq<char>>(true)) {
                    self.grants.push(Grant { racer: turn.racer, value: racer.value })
                } else {
                    self.grants
                },
            }
        }
    }

    /// The race after the turns of `schedule`, one after the other.
    pub open spec fn after_all(self, schedule: Seq<Turn>) -> Race
        decreases schedule.len(),
    {
        if schedule.len() == 0 {
            self
        } else {
            self.after_all(schedule.drop_last()).after(schedule.last())
        }
    }

    /// Whether the caller `racer` was told "yes".
    pub open spec fn is_granted(self, racer: int) -> bool {
        0 <= racer < self.racers.len() && self.racers[racer].progress == Next::Finished(
            Ok::<bool, Seq<char>>(true),
        )
    }

    /// What holds of every race that started with `Race::start`, where
    /// `floor` is the level that the record had at the start.
    spec fn consistent(self, floor: int) -> bool {
        &&& self.history.len() > 0
        &&& floor <= stored_level(self.record())
        &&& forall|p: int|
            0 <= p < self.grants.len() ==> {
                &&& floor < (#[trigger] self.grants[p]).value
                &&& self.grants[p].value <= stored_level(self.record())
                &&& self.is_granted(self.grants[p].racer)
                &&& self.racers[self.grants[p].racer].value == self.grants[p].value
            }
        &&& forall|p: int, q: int|
            0 <= p < q < self.grants.len() ==> {
                &&& (#[trigger] self.grants[p]).value < (#[trigger] self.grants[q]).value
                &&& self.grants[p].racer != self.grants[q].racer
            }
        &&& forall|i: int|
            0 <= i < self.racers.len() ==> self.racer_consistent(#[trigger] self.racers[i], i)
    }

    /// What holds of every caller in such a race.
    spec fn racer_consistent(self, racer: Racer, index: int) -> bool {
        &&& racer.read_version <= self.version()
        &&& racer.progress matches Next::Continue(attempt) ==> {
            &&& attempt.value == racer.value
            &&& attempt.phase == Phase::Writing || attempt.phase == Phase::Committing ==> (
            racer.read_version == self.version() ==> exceeds(
                stored_level(self.record()),
                racer.value as int,
            ))
            &&& forall|p: int|
                0 <= p < self.grants.len() ==> (#[trigger] self.grants[p]).racer != index
        }
        &&& self.is_granted(index) ==> exists|p: int|
            0 <= p < self.grants.len() && (#[trigger] self.grants[p]).racer == index
    }
}

/// A race is consistent when it starts.
proof fn lemma_start_is_consistent(key: Key, record: Option<Seq<u8>>, values: Seq<u64>)
    ensures
        Race::start(key, record, values).consistent(stored_level(record)),
{
}

/// A turn keeps a race consistent.
proof fn lemma_turn_keeps_consistent(race: Race, turn: Turn, floor: int)
    requires
        race.consistent(floor),
    ensures
        race.after(turn).consistent(floor),
{
    if race.moves(turn) {
        let next = race.after(turn);
        let racer = race.racers[turn.racer];
        let progress = racer.progress->Continue_0.next(race.reply(turn));
        // a commit writes the record of the value, which reads back as the value
        lemma_roundtrip(racer.value);
        assert forall|i: int| 0 <= i < next.racers.len() implies next.racer_consistent(
            #[trigger] next.racers[i],
            i,
        ) by {
            if i == turn.racer {
                if progress == Next::Finished(Ok::<bool, Seq<char>>(true)) {
                    // the grant of this turn is the newest
                    assert(next.grants[next.grants.len() - 1].racer == i);
                }
            } else if race.is_granted(i) {
                // an earlier grant keeps its place
                let p = choose|p: int|
                    0 <= p < race.grants.len() && (#[trigger] race.grants[p]).racer == i;
                assert(next.grants[p] == race.grants[p]);
            }
        }
    }
}

/// Every schedule keeps a race consistent.
proof fn lemma_schedule_keeps_consistent(race: Race, schedule: Seq<Turn>, floor: int)
    requires
        race.consistent(floor),
    ensures
        race.after_all(schedule).consistent(floor),
    decreases schedule.len(),
{
    if schedule.len() > 0 {
        lemma_schedule_keeps_consistent(race, schedule.drop_last(), floor);
        lemma_turn_keeps_consistent(race.after_all(schedule.drop_last()), schedule.last(), floor);
    }
}

/// However the turns of a race are ordered and whichever store calls fail:
/// the granted values, in the order of their commits, rise strictly, each lies
/// above the level that the record had before the race, and none lies above
/// the level that it has after it.
pub proof fn lemma_grants_rise(
    key: Key,
    record: Option<Seq<u8>>,
    values: Seq<u64>,
    schedule: Seq<Turn>,
)
    ensures
        forall|p: int, q: int|
            0 <= p < q < Race::start(key, record, values).after_all(schedule).grants.len()
                ==> (#[trigger] Race::start(key, record, values).after_all(
                schedule,
            ).grants[p]).value < (#[trigger] Race::start(key, record, values).after_all(
                schedule,
            ).grants[q]).value,
        forall|p: int|
            0 <= p < Race::start(key, record, values).after_all(schedule).grants.len() ==> {
                &&& stored_level(record) < (#[trigger] Race::start(key, record, values).after_all(
                    schedule,
                ).grants[p]).value
                &&& Race::start(key, record, values).after_all(schedule).grants[p].value
                    <= stored_level(Race::start(key, record, values).after_all(schedule).record())
            },
{
    lemma_start_is_consistent(key, record, values);
    lemma_schedule_keeps_consistent(
        Race::start(key, record, values),
        schedule,
        stored_level(record),
    );
}

/// However the turns of a race are ordered and whichever store calls fail:
/// of two callers that were both told "yes", neither proposed the other's
/// value. So for every value at most one caller is granted.
pub proof fn lemma_single_winner(
    key: Key,
    record: Option<Seq<u8>>,
    values: Seq<u64>,
    schedule: Seq<Turn>,
    first: int,
    second: int,
)
    requires
        first != second,
        Race::start(key, record, values).after_all(schedule).is_granted(first),
        Race::start(key, record, values).after_all(schedule).is_granted(second),
    ensures
        0 <= first < values.len(),
        0 <= second < values.len(),
        values[first] != values[second],
{
    let start = Race::start(key, record, values);
    let end = start.after_all(schedule);
    lemma_start_is_consistent(key, record, values);
    lemma_schedule_keeps_consistent(start, schedule, stored_level(record));
    lemma_racers_keep_their_values(start, schedule);
    // each of the two has a grant of its own, and grants differ in their values
    let p = choose|p: int| 0 <= p < end.grants.len() && (#[trigger] end.grants[p]).racer == first;
    let q = choose|q: int| 0 <= q < end.grants.len() && (#[trigger] end.grants[q]).racer == second;
    assert(p != q);
}

/// A schedule neither adds a caller nor changes the value that one proposes.
proof fn lemma_racers_keep_their_values(race: Race, schedule: Seq<Turn>)
    ensures
        race.after_all(schedule).racers.len() == race.racers.len(),
        forall|i: int|
            0 <= i < race.racers.len() ==> (#[trigger] race.after_all(schedule).racers[i]).value
                == race.racers[i].value,
    decreases schedule.len(),
{
    if schedule.len() > 0 {
        lemma_racers_keep_their_values(race, schedule.drop_last());
    }
}

impl Race {
    /// What holds of every race over malformed bytes: they are the only
    /// version of the record, no caller has come to write, and nobody was
    /// granted.
    spec fn untouched(self, record: Option<Seq<u8>>) -> bool {
        &&& self.history == seq![record]
        &&& self.grants.len() == 0
        &&& forall|i: int|
            0 <= i < self.racers.len() ==> !self.is_granted(i) && (
            (#[trigger] self.racers[i]).progress matches Next::Continue(attempt)
                ==> attempt.phase != Phase::Writing && attempt.phase != Phase::Committing)
    }
}

/// Every schedule leaves a race over malformed bytes untouched.
proof fn lemma_malformed_stays_untouched(race: Race, record: Option<Seq<u8>>, schedule: Seq<Turn>)
    requires
        is_malformed(record),
        race.untouched(record),
    ensures
        race.after_all(schedule).untouched(record),
    decreases schedule.len(),
{
    if schedule.len() > 0 {
        lemma_malformed_stays_untouched(race, record, schedule.drop_last());
        let before = race.after_all(schedule.drop_last());
        let turn = schedule.last();
        if before.moves(turn) {
            assert(before.history[before.version_read(turn) as int] == record);
        }
    }
}

/// However the turns of a race are ordered and whichever store calls fail:
/// where the store holds malformed bytes for the dimension, no caller is told
/// "yes" and the bytes stay as they are.
pub proof fn lemma_malformed_record_has_no_winner(
    key: Key,
    record: Option<Seq<u8>>,
    values: Seq<u64>,
    schedule: Seq<Turn>,
    racer: int,
)
    requires
        is_malformed(record),
    ensures
        !Race::start(key, record, values).after_all(schedule).is_granted(racer),
        Race::start(key, record, values).after_all(schedule).grants.len() == 0,
        Race::start(key, record, values).after_all(schedule).history == seq![record],
{
    lemma_malformed_stays_untouched(Race::start(key, record, values), record, schedule);
}

} // verus!
