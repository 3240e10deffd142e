//! The resolver that claims values in a shared transactional store, for a
//! store whose calls return when they are done. The store is known by the
//! calls that the claim protocol makes: begin, read for update, put, commit
//! and roll back. The resolver makes the calls that an attempt names and hands
//! each answer to it: what it returns is what the protocol of `store` makes of
//! the store's answers, and whatever the store answers, a failure is a denial.

use vstd::prelude::*;
use vstd::string::*;
use crate::claim::exceeds;
use crate::codec::{be_bytes, RECORD_WIDTH};
use crate::resolver::PermissionResolver;
use crate::store::{
    is_malformed,
    lemma_grant_needs_read_and_commit,
    outcome_view,
    stored_level,
    verdict,
    verdict_of,
    Attempt,
    ClaimAttempt,
    Key,
    Next,
    Outcome,
    Phase,
    Step,
    StoreAction,
    StoreActionView,
    StoreError,
    StoreReply,
    StoreReplyView,
};

verus! {

/// A call to the store, with the key as the store is given it.
pub enum StoreCall {
    BeginOptimistic,
    GetForUpdate { key: Seq<char> },
    Put { key: Seq<char>, value: Seq<u8> },
    Commit,
    Rollback,
}

/// The call that makes `action`.
pub open spec fn call_of(action: StoreActionView) -> StoreCall {
    match action {
        StoreActionView::BeginOptimistic => StoreCall::BeginOptimistic,
        StoreActionView::GetForUpdate { key } => StoreCall::GetForUpdate { key: key.name() },
        StoreActionView::Put { key, value } => StoreCall::Put { key: key.name(), value },
        StoreActionView::Commit => StoreCall::Commit,
        StoreActionView::Rollback => StoreCall::Rollback,
    }
}

/// The reply that a call's result is: `done` where it succeeded, the failure
/// where it did not.
pub open spec fn reply_of<T>(result: Result<T, StoreError>, done: StoreReplyView) -> StoreReplyView {
    match result {
        Ok(_) => done,
        Err(error) => StoreReplyView::Failed(error@),
    }
}

/// The reply that the result of a read is.
pub open spec fn read_of(result: Result<Option<Vec<u8>>, StoreError>) -> StoreReplyView {
    match result {
        Ok(Some(bytes)) => StoreReplyView::Value(Some(bytes@)),
        Ok(None) => StoreReplyView::Value(None),
        Err(error) => StoreReplyView::Failed(error@),
    }
}

/// A store that begins optimistic transactions.
pub trait TiKVClient {
    /// The transactions of the store.
    type Transaction: TiKVTransaction;

    /// Whether `reply` is an answer that a store of this kind gives when a
    /// transaction is begun. A store that states nothing may give any.
    open spec fn begins(reply: StoreReplyView) -> bool {
        true
    }

    /// Begins an optimistic transaction.
    fn begin_optimistic(&self) -> (result: Result<Self::Transaction, StoreError>)
        ensures
            Self::begins(reply_of(result, StoreReplyView::Begun)),
    ;
}

/// One transaction of a store.
pub trait TiKVTransaction {
    /// Whether `reply` is an answer that a transaction of this kind gives to
    /// `call`. A store that states nothing may give any.
    open spec fn answers(call: StoreCall, reply: StoreReplyView) -> bool {
        true
    }

    /// Reads the record of `key` and marks it for update; `None` where the
    /// store has no record.
    fn get_for_update(&mut self, key: String) -> (result: Result<Option<Vec<u8>>, StoreError>)
        ensures
            Self::answers(StoreCall::GetForUpdate { key: key@ }, read_of(result)),
    ;

    /// Writes `value` as the record of `key`.
    fn put(&mut self, key: String, value: Vec<u8>) -> (result: Result<(), StoreError>)
        ensures
            Self::answers(
                StoreCall::Put { key: key@, value: value@ },
                reply_of(result, StoreReplyView::Written),
            ),
    ;

    /// Commits the transaction.
    fn commit(&mut self) -> (result: Result<(), StoreError>)
        ensures
            Self::answers(StoreCall::Commit, reply_of(result, StoreReplyView::Committed)),
    ;

    /// Rolls the transaction back.
    fn rollback(&mut self) -> (result: Result<(), StoreError>)
        ensures
            Self::answers(StoreCall::Rollback, reply_of(result, StoreReplyView::RolledBack)),
    ;
}

/// Whether `reply` is an answer that a store of the kind `C` gives to `call`.
pub open spec fn answers<C: TiKVClient>(call: StoreCall, reply: StoreReplyView) -> bool {
    match call {
        StoreCall::BeginOptimistic => C::begins(reply),
        _ => <C::Transaction as TiKVTransaction>::answers(call, reply),
    }
}

/// Whether `replies` are answers of a store of the kind `C` to the calls of
/// an attempt for `value` on `key`: each one answers the call that the
/// attempt names after the replies before it, and none comes after its end.
pub open spec fn answered<C: TiKVClient>(key: Key, value: u64, replies: Seq<StoreReplyView>) -> bool {
    forall|i: int|
        0 <= i < replies.len() ==> match #[trigger] Attempt::start(key, value).run(
            replies.take(i),
        ) {
            Next::Continue(attempt) => answers::<C>(call_of(attempt.action()), replies[i]),
            Next::Finished(_) => false,
        }
}

/// Whether `outcome` is what the claim protocol makes of answers of a store
/// of the kind `C` to an attempt for `value` on `key`.
pub open spec fn resolved<C: TiKVClient>(key: Key, value: u64, outcome: Outcome) -> bool {
    exists|replies: Seq<StoreReplyView>|
        #[trigger] answered::<C>(key, value, replies) && Attempt::start(key, value).run(replies)
            == Next::Finished(outcome)
}

/// Whether a store of the kind `C` gives the four answers of a grant to an
/// attempt for `value` on `key`: a transaction is begun, the record of `key`
/// is read as `record`, the record of `value` is put under `key`, and the
/// commit succeeds.
pub open spec fn committed<C: TiKVClient>(key: Key, value: u64, record: Option<Seq<u8>>) -> bool {
    &&& answers::<C>(StoreCall::BeginOptimistic, StoreReplyView::Begun)
    &&& answers::<C>(StoreCall::GetForUpdate { key: key.name() }, StoreReplyView::Value(record))
    &&& answers::<C>(
        StoreCall::Put { key: key.name(), value: be_bytes(value as nat, RECORD_WIDTH as nat) },
        StoreReplyView::Written,
    )
    &&& answers::<C>(StoreCall::Commit, StoreReplyView::Committed)
}

/// One more reply takes a run one step on.
pub proof fn lemma_run_goes_on(attempt: Attempt, replies: Seq<StoreReplyView>, reply: StoreReplyView)
    ensures
        attempt.run(replies.push(reply)) == match attempt.run(replies) {
            Next::Continue(reached) => reached.next(reply),
            Next::Finished(outcome) => Next::Finished(outcome),
        },
    decreases replies.len(),
{
    if replies.len() == 0 {
        assert(replies.push(reply).drop_first() =~= replies);
        assert(attempt.next(reply) is Continue ==> attempt.next(reply)->Continue_0.run(replies)
            == attempt.next(reply));
    } else {
        assert(replies.push(reply).drop_first() =~= replies.drop_first().push(reply));
        if let Next::Continue(reached) = attempt.next(replies.first()) {
            lemma_run_goes_on(reached, replies.drop_first(), reply);
        }
    }
}

/// The answers stay answers when the store answers the next call.
proof fn lemma_answered_goes_on<C: TiKVClient>(
    key: Key,
    value: u64,
    replies: Seq<StoreReplyView>,
    reply: StoreReplyView,
)
    requires
        answered::<C>(key, value, replies),
        Attempt::start(key, value).run(replies) matches Next::Continue(attempt) && answers::<C>(
            call_of(attempt.action()),
            reply,
        ),
    ensures
        answered::<C>(key, value, replies.push(reply)),
{
    let longer = replies.push(reply);
    assert forall|i: int| 0 <= i < longer.len() implies match #[trigger] Attempt::start(
        key,
        value,
    ).run(longer.take(i)) {
        Next::Continue(attempt) => answers::<C>(call_of(attempt.action()), longer[i]),
        Next::Finished(_) => false,
    } by {
        if i < replies.len() {
            assert(longer.take(i) =~= replies.take(i));
        } else {
            assert(longer.take(i) =~= replies);
        }
    }
}

/// A grant is a committed claim: where the resolver grants, the store has
/// begun a transaction, has answered the read of the key's record with an
/// absent or well-formed record below the value, has taken the record of the
/// value under the same key, and has committed. No failure of the store and
/// no other record is part of a grant.
pub proof fn lemma_grant_is_committed<C: TiKVClient>(key: Key, value: u64)
    requires
        resolved::<C>(key, value, Ok(true)),
    ensures
        exists|record: Option<Seq<u8>>|
            {
                &&& #[trigger] committed::<C>(key, value, record)
                &&& !is_malformed(record)
                &&& exceeds(stored_level(record), value as int)
            },
{
    let start = Attempt::start(key, value);
    let replies = choose|replies: Seq<StoreReplyView>|
        #[trigger] answered::<C>(key, value, replies) && start.run(replies) == Next::Finished(
            Ok::<bool, Seq<char>>(true),
        );
    lemma_grant_needs_read_and_commit(key, value, replies);
    let record = replies[1]->Value_0;
    assert(start.run(replies.take(1)) == Next::Continue(start.at(Phase::Reading))) by {
        lemma_run_goes_on(start, replies.take(0), replies[0]);
        assert(replies.take(0).push(replies[0]) =~= replies.take(1));
    }
    assert(start.run(replies.take(2)) == Next::Continue(start.at(Phase::Writing))) by {
        lemma_run_goes_on(start, replies.take(1), replies[1]);
        assert(replies.take(1).push(replies[1]) =~= replies.take(2));
    }
    assert(start.run(replies.take(3)) == Next::Continue(start.at(Phase::Committing))) by {
        lemma_run_goes_on(start, replies.take(2), replies[2]);
        assert(replies.take(2).push(replies[2]) =~= replies.take(3));
    }
    assert(committed::<C>(key, value, record));
}

/// The resolver over a store.
pub struct RemoteAuthorityPermissionResolver<C: TiKVClient> {
    client: C,
}

impl<C: TiKVClient> RemoteAuthorityPermissionResolver<C> {
    /// The store that the resolver claims in.
    pub closed spec fn store(self) -> C {
        self.client
    }

    /// The resolver over the store `client`.
    pub fn new(client: C) -> (resolver: RemoteAuthorityPermissionResolver<C>)
        ensures
            resolver.store() == client,
    {
        RemoteAuthorityPermissionResolver { client }
    }

    /// Makes the call `action` in the transaction `txn`.
    fn perform(txn: &mut C::Transaction, action: StoreAction) -> (reply: StoreReply)
        requires
            action@ != StoreActionView::BeginOptimistic,
        ensures
            answers::<C>(call_of(action@), reply@),
    {
        match action {
            StoreAction::BeginOptimistic => StoreReply::Begun,
            StoreAction::GetForUpdate { key } => match txn.get_for_update(key.as_str().to_owned()) {
                Ok(record) => StoreReply::Value(record),
                Err(error) => StoreReply::Failed(error),
            },
            StoreAction::Put { key, value } => match txn.put(key.as_str().to_owned(), value) {
                Ok(_) => StoreReply::Written,
                Err(error) => StoreReply::Failed(error),
            },
            StoreAction::Commit => match txn.commit() {
                Ok(_) => StoreReply::Committed,
                Err(error) => StoreReply::Failed(error),
            },
            StoreAction::Rollback => match txn.rollback() {
                Ok(_) => StoreReply::RolledBack,
                Err(error) => StoreReply::Failed(error),
            },
        }
    }

    /// Tries to claim `value` on the dimension of `key`: makes the store
    /// calls that the attempt names, one after the other, and hands each
    /// answer to it. Returns after at most four calls with what the protocol
    /// makes of the answers.
    pub fn do_resolve(&self, key: Key, value: u64) -> (outcome: Result<bool, String>)
        ensures
            resolved::<C>(key, value, outcome_view(outcome)),
    {
        let ghost start = Attempt::start(key, value);
        let attempt = ClaimAttempt::new(key, value);
        let (txn, begun) = match self.client.begin_optimistic() {
            Ok(txn) => (Some(txn), StoreReply::Begun),
            Err(error) => (None, StoreReply::Failed(error)),
        };
        let ghost mut replies: Seq<StoreReplyView> = Seq::empty();
        proof {
            lemma_run_goes_on(start, replies, begun@);
            lemma_answered_goes_on::<C>(key, value, replies, begun@);
            replies = replies.push(begun@);
        }
        let mut attempt = match attempt.step(begun) {
            Step::Continue(next) => next,
            Step::Finished(outcome) => {
                return outcome;
            },
        };
        let mut txn = match txn {
            Some(txn) => txn,
            None => {
                // the attempt goes on after a transaction was begun, and only then
                assert(false);
                return Err(String::from_str("no transaction was begun"));
            },
        };
        loop
            invariant
                start == Attempt::start(key, value),
                answered::<C>(key, value, replies),
                start.run(replies) == Next::Continue(attempt@),
                attempt@.phase != Phase::Beginning,
            decreases calls_left(attempt@.phase),
        {
            let reply = Self::perform(&mut txn, attempt.action());
            proof {
                lemma_run_goes_on(start, replies, reply@);
                lemma_answered_goes_on::<C>(key, value, replies, reply@);
                replies = replies.push(reply@);
            }
            match attempt.step(reply) {
                Step::Continue(next) => {
                    attempt = next;
                },
                Step::Finished(outcome) => {
                    return outcome;
                },
            }
        }
    }
}

/// The number of store calls that an attempt in `phase` has still to make.
pub open spec fn calls_left(phase: Phase) -> nat {
    match phase {
        Phase::Beginning => 4,
        Phase::Reading => 3,
        Phase::Writing => 2,
        Phase::Committing => 1,
        Phase::RollingBack => 1,
        Phase::Rejecting => 1,
    }
}

impl<C: TiKVClient> PermissionResolver for RemoteAuthorityPermissionResolver<C> {
    /// Claims the slot in the store. The verdict is `true` iff the protocol
    /// ends with `true`; an error is a denial.
    fn resolve_slot(&self, slot: u64) -> (granted: bool)
        ensures
            exists|outcome: Outcome|
                #[trigger] resolved::<C>(Key::Slot, slot, outcome) && granted == verdict_of(
                    outcome,
                ),
    {
        let outcome = self.do_resolve(Key::Slot, slot);
        verdict(&outcome)
    }

    /// Claims the round in the store. The verdict is `true` iff the protocol
    /// ends with `true`; an error is a denial.
    fn resolve_round(&self, round: u64) -> (granted: bool)
        ensures
            exists|outcome: Outcome|
                #[trigger] resolved::<C>(Key::Round, round, outcome) && granted == verdict_of(
                    outcome,
                ),
    {
        let outcome = self.do_resolve(Key::Round, round);
        verdict(&outcome)
    }

    /// Claims the session in the store. The verdict is `true` iff the
    /// protocol ends with `true`; an error is a denial.
    fn resolve_session(&self, session_index: u32) -> (granted: bool)
        ensures
            exists|outcome: Outcome|
                #[trigger] resolved::<C>(Key::Session, session_index as u64, outcome) && granted
                    == verdict_of(outcome),
    {
        let outcome = self.do_resolve(Key::Session, session_index as u64);
        verdict(&outcome)
    }
}

} // verus!
