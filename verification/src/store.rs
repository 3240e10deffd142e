//! The claim protocol against a shared transactional store. One attempt is a
//! small state machine: it names the store call that it waits for, takes the
//! store's reply, and either names the next call or ends with an outcome. The
//! caller performs the calls; every decision is made here.

use vstd::prelude::*;
use vstd::string::*;
use crate::claim::{exceeds, NO_GRANT};
use crate::codec::{
    be_bytes,
    be_value,
    deserialize_u64,
    lemma_roundtrip,
    serialize_u64,
    stored_value,
    RECORD_WIDTH,
};

verus! {

/// The record of a dimension in the store.
#[derive(Clone, Copy, PartialEq, Eq, Debug, Structural)]
pub enum Key {
    Slot,
    Session,
    Round,
}

impl Key {
    /// The key under which the record is stored.
    pub open spec fn name(self) -> Seq<char> {
        match self {
            Key::Slot => "slot"@,
            Key::Session => "session"@,
            Key::Round => "round"@,
        }
    }

    /// The key under which the record is stored.
    pub fn as_str(&self) -> (name: &'static str)
        ensures
            name@ == self.name(),
    {
        match self {
            Key::Slot => "slot",
            Key::Session => "session",
            Key::Round => "round",
        }
    }
}

/// Whether the store holds bytes for a dimension that are no record of a
/// value. Such bytes are a decoding failure: nothing is claimed over them.
pub open spec fn is_malformed(record: Option<Seq<u8>>) -> bool {
    record matches Some(bytes) && stored_value(bytes) is None
}

/// The level that a dimension has in the store: the value that its record
/// holds, or the level below every value where the store has no record. Of
/// malformed bytes it is the number that they spell, on which no attempt
/// acts.
pub open spec fn stored_level(record: Option<Seq<u8>>) -> int {
    match record {
        Some(bytes) => be_value(bytes) as int,
        None => NO_GRANT as int,
    }
}

/// Why a store call failed, as far as the protocol reads it.
#[derive(PartialEq, Eq, Debug)]
pub enum StoreError {
    /// The store reported an error on the key. `conflict` says that another
    /// transaction has written the key since this one read it.
    KeyError { conflict: bool, reason: String },
    /// Any other failure.
    Other { reason: String },
}

/// A `StoreError` with its text as a sequence of characters.
pub enum StoreErrorView {
    KeyError { conflict: bool, reason: Seq<char> },
    Other { reason: Seq<char> },
}

impl StoreErrorView {
    /// The text of the error.
    pub open spec fn reason(self) -> Seq<char> {
        match self {
            StoreErrorView::KeyError { reason, .. } => reason,
            StoreErrorView::Other { reason } => reason,
        }
    }

    /// Whether the error says that another transaction won the race.
    pub open spec fn is_conflict(self) -> bool {
        self matches StoreErrorView::KeyError { conflict, .. } && conflict
    }
}

impl View for StoreError {
    type V = StoreErrorView;

    open spec fn view(&self) -> StoreErrorView {
        match self {
            StoreError::KeyError { conflict, reason } => StoreErrorView::KeyError {
                conflict: *conflict,
                reason: reason@,
            },
            StoreError::Other { reason } => StoreErrorView::Other { reason: reason@ },
        }
    }
}

/// What the store answered to the call that an attempt waited for.
#[derive(PartialEq, Eq, Debug)]
pub enum StoreReply {
    /// An optimistic transaction was begun.
    Begun,
    /// The record was read for update: its bytes, or `None` where the store
    /// has no record.
    Value(Option<Vec<u8>>),
    /// The new record was written into the transaction.
    Written,
    /// The transaction was committed.
    Committed,
    /// The transaction was rolled back.
    RolledBack,
    /// The call failed.
    Failed(StoreError),
}

/// A `StoreReply` over sequences.
pub enum StoreReplyView {
    Begun,
    Value(Option<Seq<u8>>),
    Written,
    Committed,
    RolledBack,
    Failed(StoreErrorView),
}

impl View for StoreReply {
    type V = StoreReplyView;

    open spec fn view(&self) -> StoreReplyView {
        match self {
            StoreReply::Begun => StoreReplyView::Begun,
            StoreReply::Value(Some(bytes)) => StoreReplyView::Value(Some(bytes@)),
            StoreReply::Value(None) => StoreReplyView::Value(None),
            StoreReply::Written => StoreReplyView::Written,
            StoreReply::Committed => StoreReplyView::Committed,
            StoreReply::RolledBack => StoreReplyView::RolledBack,
            StoreReply::Failed(error) => StoreReplyView::Failed(error@),
        }
    }
}

/// The store call that an attempt waits for.
#[derive(PartialEq, Eq, Debug)]
pub enum StoreAction {
    /// Begin an optimistic transaction.
    BeginOptimistic,
    /// Read the record of `key` and mark it for update.
    GetForUpdate { key: Key },
    /// Write `value` as the record of `key`.
    Put { key: Key, value: Vec<u8> },
    /// Commit the transaction.
    Commit,
    /// Roll the transaction back.
    Rollback,
}

/// A `StoreAction` over sequences.
pub enum StoreActionView {
    BeginOptimistic,
    GetForUpdate { key: Key },
    Put { key: Key, value: Seq<u8> },
    Commit,
    Rollback,
}

impl View for StoreAction {
    type V = StoreActionView;

    open spec fn view(&self) -> StoreActionView {
        match self {
            StoreAction::BeginOptimistic => StoreActionView::BeginOptimistic,
            StoreAction::GetForUpdate { key } => StoreActionView::GetForUpdate { key: *key },
            StoreAction::Put { key, value } => StoreActionView::Put { key: *key, value: value@ },
            StoreAction::Commit => StoreActionView::Commit,
            StoreAction::Rollback => StoreActionView::Rollback,
        }
    }
}

/// How far an attempt has come: the store call that it waits for.
#[derive(Clone, Copy, PartialEq, Eq, Debug, Structural)]
pub enum Phase {
    Beginning,
    Reading,
    Writing,
    Committing,
    /// Rolling back because the proposed value does not exceed the record.
    RollingBack,
    /// Rolling back because the record is malformed.
    Rejecting,
}

/// How an attempt ended: the verdict, or the text of an error.
pub type Outcome = Result<bool, Seq<char>>;

/// An attempt as the protocol's rules see it.
pub struct Attempt {
    pub key: Key,
    pub value: u64,
    pub phase: Phase,
}

/// What follows from one reply: the attempt goes on, or it has ended.
pub enum Next {
    Continue(Attempt),
    Finished(Outcome),
}

/// The error of an attempt whose transaction could not be begun.
pub open spec fn begin_failed(reason: Seq<char>) -> Seq<char> {
    "Could not start transaction, reason: "@ + reason
}

/// The error of an attempt whose record could not be read.
pub open spec fn get_failed(key: Key, reason: Seq<char>) -> Seq<char> {
    "Could not get "@ + key.name() + " value for update, reason: "@ + reason
}

/// The error of an attempt whose record could not be written.
pub open spec fn put_failed(key: Key, reason: Seq<char>) -> Seq<char> {
    "Could not put "@ + key.name() + " value, reason "@ + reason
}

/// The error of an attempt whose commit failed for another reason than a
/// conflict.
pub open spec fn commit_failed(reason: Seq<char>) -> Seq<char> {
    "Could not commit transaction, reason "@ + reason
}

/// The error of an attempt whose rollback failed.
pub open spec fn rollback_failed(reason: Seq<char>) -> Seq<char> {
    "Could not rollback transaction, reason "@ + reason
}

/// The error of an attempt that read a malformed record.
pub open spec fn malformed_record(key: Key) -> Seq<char> {
    "Could not decode "@ + key.name() + " value, reason: the record is malformed"@
}

/// The error of an attempt that was handed a reply which does not answer its
/// pending call.
pub open spec fn unexpected_reply() -> Seq<char> {
    "Unexpected reply from the store"@
}

impl Attempt {
    /// The attempt to claim `value` on the dimension of `key`, before its
    /// first store call.
    pub open spec fn start(key: Key, value: u64) -> Attempt {
        Attempt { key, value, phase: Phase::Beginning }
    }

    /// The store call that the attempt waits for.
    pub open spec fn action(self) -> StoreActionView {
        match self.phase {
            Phase::Beginning => StoreActionView::BeginOptimistic,
            Phase::Reading => StoreActionView::GetForUpdate { key: self.key },
            Phase::Writing => StoreActionView::Put {
                key: self.key,
                value: be_bytes(self.value as nat, RECORD_WIDTH as nat),
            },
            Phase::Committing => StoreActionView::Commit,
            Phase::RollingBack => StoreActionView::Rollback,
            Phase::Rejecting => StoreActionView::Rollback,
        }
    }

    /// The attempt in another phase.
    pub open spec fn at(self, phase: Phase) -> Attempt {
        Attempt { phase, ..self }
    }

    /// What follows when the pending call failed with `error`. A conflict at
    /// commit is the lost race and a plain denial; every other failure is an
    /// error.
    pub open spec fn failed(self, error: StoreErrorView) -> Outcome {
        match self.phase {
            Phase::Beginning => Err(begin_failed(error.reason())),
            Phase::Reading => Err(get_failed(self.key, error.reason())),
            Phase::Writing => Err(put_failed(self.key, error.reason())),
            Phase::Committing => if error.is_conflict() {
                Ok(false)
            } else {
                Err(commit_failed(error.reason()))
            },
            Phase::RollingBack => Err(rollback_failed(error.reason())),
            Phase::Rejecting => Err(rollback_failed(error.reason())),
        }
    }

    /// What follows from `reply`. Over a malformed record nothing is
    /// written: the attempt rolls back and ends with an error. A reply that
    /// does not answer the pending call ends the attempt with an error.
    pub open spec fn next(self, reply: StoreReplyView) -> Next {
        match (self.phase, reply) {
            (_, StoreReplyView::Failed(error)) => Next::Finished(self.failed(error)),
            (Phase::Beginning, StoreReplyView::Begun) => Next::Continue(self.at(Phase::Reading)),
            (Phase::Reading, StoreReplyView::Value(record)) => if is_malformed(record) {
                Next::Continue(self.at(Phase::Rejecting))
            } else if exceeds(stored_level(record), self.value as int) {
                Next::Continue(self.at(Phase::Writing))
            } else {
                Next::Continue(self.at(Phase::RollingBack))
            },
            (Phase::Writing, StoreReplyView::Written) => Next::Continue(
                self.at(Phase::Committing),
            ),
            (Phase::Committing, StoreReplyView::Committed) => Next::Finished(Ok(true)),
            (Phase::RollingBack, StoreReplyView::RolledBack) => Next::Finished(Ok(false)),
            (Phase::Rejecting, StoreReplyView::RolledBack) => Next::Finished(
                Err(malformed_record(self.key)),
            ),
            _ => Next::Finished(Err(unexpected_reply())),
        }
    }
}

impl Attempt {
    /// What has become of the attempt after the store's `replies`, taken one
    /// after the other. Replies that come after its end are not read.
    pub open spec fn run(self, replies: Seq<StoreReplyView>) -> Next
        decreases replies.len(),
    {
        if replies.len() == 0 {
            Next::Continue(self)
        } else {
            match self.next(replies.first()) {
                Next::Continue(attempt) => attempt.run(replies.drop_first()),
                Next::Finished(outcome) => Next::Finished(outcome),
            }
        }
    }
}

/// The verdict that the caller of an arbiter is given for `outcome`: an error
/// is a denial.
pub open spec fn verdict_of(outcome: Outcome) -> bool {
    outcome == Ok::<bool, Seq<char>>(true)
}

/// A failed store call never grants: in every phase it ends the attempt, with
/// an error or, for a conflict at commit, with a denial.
pub proof fn lemma_failure_never_grants(attempt: Attempt, error: StoreErrorView)
    ensures
        attempt.next(StoreReplyView::Failed(error)) is Finished,
        !verdict_of(attempt.next(StoreReplyView::Failed(error))->Finished_0),
        attempt.phase == Phase::Committing && error.is_conflict() ==> attempt.next(
            StoreReplyView::Failed(error),
        ) == Next::Finished(Ok(false)),
{
}

/// An attempt grants only along one path: a transaction was begun, the record
/// that was read is absent or well formed and lies below the proposed value,
/// the new record was written, and the commit succeeded.
pub proof fn lemma_grant_needs_read_and_commit(
    key: Key,
    value: u64,
    replies: Seq<StoreReplyView>,
)
    requires
        Attempt::start(key, value).run(replies) == Next::Finished(Ok(true)),
    ensures
        replies.len() >= 4,
        replies[0] == StoreReplyView::Begun,
        replies[1] is Value,
        !is_malformed(replies[1]->Value_0),
        exceeds(stored_level(replies[1]->Value_0), value as int),
        replies[2] == StoreReplyView::Written,
        replies[3] == StoreReplyView::Committed,
{
    let granted = Next::Finished(Ok::<bool, Seq<char>>(true));
    let start = Attempt::start(key, value);
    // the attempt goes on after each of the first three replies
    let second = replies.drop_first();
    assert(start.at(Phase::Reading).run(second) == granted);
    let third = second.drop_first();
    assert(start.at(Phase::Reading).next(second.first()) == Next::Continue(
        start.at(Phase::Writing),
    )) by {
        lemma_rollback_never_grants(start.at(Phase::RollingBack), third);
        lemma_rollback_never_grants(start.at(Phase::Rejecting), third);
    }
    assert(start.at(Phase::Writing).run(third) == granted);
    let fourth = third.drop_first();
    assert(start.at(Phase::Committing).run(fourth) == granted);
}

/// An attempt that rolls back does not grant, whatever the store replies.
pub proof fn lemma_rollback_never_grants(attempt: Attempt, replies: Seq<StoreReplyView>)
    requires
        attempt.phase == Phase::RollingBack || attempt.phase == Phase::Rejecting,
    ensures
        attempt.run(replies) != Next::Finished(Ok::<bool, Seq<char>>(true)),
{
}

/// No store call that fails is followed by a grant: where one of the replies
/// that an attempt reads is a failure, the attempt does not end with `true`.
pub proof fn lemma_failed_call_never_grants(
    key: Key,
    value: u64,
    replies: Seq<StoreReplyView>,
    failed: int,
)
    requires
        0 <= failed < replies.len(),
        failed < 4,
        replies[failed] is Failed,
    ensures
        Attempt::start(key, value).run(replies) != Next::Finished(Ok::<bool, Seq<char>>(true)),
{
    if Attempt::start(key, value).run(replies) == Next::Finished(Ok::<bool, Seq<char>>(true)) {
        lemma_grant_needs_read_and_commit(key, value, replies);
    }
}

/// Malformed bytes in the store are never claimed over: the attempt that
/// reads them writes nothing, rolls back, and ends with an error, whatever
/// the store replies to the rollback.
pub proof fn lemma_malformed_record_is_rejected(
    key: Key,
    value: u64,
    record: Option<Seq<u8>>,
    reply: StoreReplyView,
)
    requires
        is_malformed(record),
    ensures
        Attempt::start(key, value).at(Phase::Reading).next(StoreReplyView::Value(record))
            == Next::Continue(Attempt::start(key, value).at(Phase::Rejecting)),
        Attempt::start(key, value).at(Phase::Rejecting).action() == StoreActionView::Rollback,
        Attempt::start(key, value).at(Phase::Rejecting).next(reply) is Finished,
        Attempt::start(key, value).at(Phase::Rejecting).next(reply)->Finished_0 is Err,
        reply == StoreReplyView::RolledBack ==> Attempt::start(key, value).at(
            Phase::Rejecting,
        ).next(reply) == Next::Finished(Err(malformed_record(key))),
{
}

/// The path of a grant does grant: these four replies, whatever follows them,
/// end the attempt with `true`.
pub proof fn lemma_committed_claim_is_granted(
    key: Key,
    value: u64,
    record: Option<Seq<u8>>,
    replies: Seq<StoreReplyView>,
)
    requires
        !is_malformed(record),
        exceeds(stored_level(record), value as int),
        replies.len() >= 4,
        replies[0] == StoreReplyView::Begun,
        replies[1] == StoreReplyView::Value(record),
        replies[2] == StoreReplyView::Written,
        replies[3] == StoreReplyView::Committed,
    ensures
        Attempt::start(key, value).run(replies) == Next::Finished(Ok(true)),
{
    let start = Attempt::start(key, value);
    let second = replies.drop_first();
    let third = second.drop_first();
    let fourth = third.drop_first();
    assert(start.at(Phase::Committing).run(fourth) == Next::Finished(Ok(true)));
    assert(start.at(Phase::Writing).run(third) == Next::Finished(Ok(true)));
    assert(start.at(Phase::Reading).run(second) == Next::Finished(Ok(true)));
}

/// Every attempt ends with its fourth reply at the latest: a caller that
/// hands each reply back is answered after at most four store calls.
pub proof fn lemma_attempt_ends(key: Key, value: u64, replies: Seq<StoreReplyView>)
    requires
        replies.len() >= 4,
    ensures
        Attempt::start(key, value).run(replies) is Finished,
{
    let start = Attempt::start(key, value);
    let second = replies.drop_first();
    let third = second.drop_first();
    let fourth = third.drop_first();
    assert(start.at(Phase::Committing).run(fourth) is Finished);
    assert(start.at(Phase::RollingBack).run(third) is Finished);
    assert(start.at(Phase::Rejecting).run(third) is Finished);
    assert(start.at(Phase::Writing).run(third) is Finished);
    assert(start.at(Phase::Reading).run(second) is Finished);
}

/// The record that is written for a granted value denies that value and
/// every lower one: an attempt that reads it goes on to roll back, and an
/// attempt that rolls back does not grant, whatever the store replies.
pub proof fn lemma_written_record_denies(
    key: Key,
    granted: u64,
    later: u64,
    reply: StoreReplyView,
)
    requires
        later <= granted,
    ensures
        Attempt::start(key, granted).at(Phase::Writing).action() == (StoreActionView::Put {
            key,
            value: be_bytes(granted as nat, RECORD_WIDTH as nat),
        }),
        Attempt::start(key, later).at(Phase::Reading).next(
            StoreReplyView::Value(Some(be_bytes(granted as nat, RECORD_WIDTH as nat))),
        ) == Next::Continue(Attempt::start(key, later).at(Phase::RollingBack)),
        Attempt::start(key, later).at(Phase::RollingBack).next(reply) is Finished,
        !verdict_of(Attempt::start(key, later).at(Phase::RollingBack).next(reply)->Finished_0),
{
    lemma_roundtrip(granted);
}

/// One attempt to claim a value in the store.
#[derive(PartialEq, Eq, Debug)]
pub struct ClaimAttempt {
    key: Key,
    value: u64,
    phase: Phase,
}

impl View for ClaimAttempt {
    type V = Attempt;

    closed spec fn view(&self) -> Attempt {
        Attempt { key: self.key, value: self.value, phase: self.phase }
    }
}

/// What follows from one reply: the attempt goes on, or it has ended with a
/// verdict or the text of an error.
#[derive(PartialEq, Eq, Debug)]
pub enum Step {
    Continue(ClaimAttempt),
    Finished(Result<bool, String>),
}

/// An outcome with the text of its error as a sequence of characters.
pub open spec fn outcome_view(outcome: Result<bool, String>) -> Outcome {
    match outcome {
        Ok(granted) => Ok(granted),
        Err(message) => Err(message@),
    }
}

impl View for Step {
    type V = Next;

    open spec fn view(&self) -> Next {
        match self {
            Step::Continue(attempt) => Next::Continue(attempt@),
            Step::Finished(outcome) => Next::Finished(outcome_view(*outcome)),
        }
    }
}

impl ClaimAttempt {
    /// The attempt to claim `value` on the dimension of `key`.
    pub fn new(key: Key, value: u64) -> (attempt: ClaimAttempt)
        ensures
            attempt@ == Attempt::start(key, value),
    {
        ClaimAttempt { key, value, phase: Phase::Beginning }
    }

    /// The attempt to claim the slot `slot`.
    pub fn for_slot(slot: u64) -> (attempt: ClaimAttempt)
        ensures
            attempt@ == Attempt::start(Key::Slot, slot),
    {
        ClaimAttempt::new(Key::Slot, slot)
    }

    /// The attempt to claim the round `round`.
    pub fn for_round(round: u64) -> (attempt: ClaimAttempt)
        ensures
            attempt@ == Attempt::start(Key::Round, round),
    {
        ClaimAttempt::new(Key::Round, round)
    }

    /// The attempt to claim the session `session_index`.
    pub fn for_session(session_index: u32) -> (attempt: ClaimAttempt)
        ensures
            attempt@ == Attempt::start(Key::Session, session_index as u64),
    {
        ClaimAttempt::new(Key::Session, session_index as u64)
    }

    /// The record that the attempt claims.
    pub fn key(&self) -> (key: Key)
        ensures
            key == self@.key,
    {
        self.key
    }

    /// The value that the attempt proposes.
    pub fn value(&self) -> (value: u64)
        ensures
            value == self@.value,
    {
        self.value
    }

    /// The store call that the attempt waits for.
    pub fn action(&self) -> (action: StoreAction)
        ensures
            action@ == self@.action(),
    {
        match self.phase {
            Phase::Beginning => StoreAction::BeginOptimistic,
            Phase::Reading => StoreAction::GetForUpdate { key: self.key },
            Phase::Writing => StoreAction::Put { key: self.key, value: serialize_u64(self.value) },
            Phase::Committing => StoreAction::Commit,
            Phase::RollingBack => StoreAction::Rollback,
            Phase::Rejecting => StoreAction::Rollback,
        }
    }

    /// Takes the store's reply to the pending call and says what follows.
    pub fn step(self, reply: StoreReply) -> (step: Step)
        ensures
            step@ == self@.next(reply@),
    {
        match reply {
            StoreReply::Failed(error) => Step::Finished(self.fail(error)),
            StoreReply::Begun => match self.phase {
                Phase::Beginning => Step::Continue(self.moved_to(Phase::Reading)),
                _ => Step::Finished(Err(unexpected())),
            },
            StoreReply::Value(record) => match self.phase {
                Phase::Reading => {
                    let last_granted = match record {
                        Some(bytes) => match deserialize_u64(bytes) {
                            Some(last_granted) => Some(last_granted),
                            None => {
                                return Step::Continue(self.moved_to(Phase::Rejecting));
                            },
                        },
                        None => None,
                    };
                    let can = match last_granted {
                        Some(last_granted) => self.value > last_granted,
                        None => true,
                    };
                    if can {
                        Step::Continue(self.moved_to(Phase::Writing))
                    } else {
                        Step::Continue(self.moved_to(Phase::RollingBack))
                    }
                },
                _ => Step::Finished(Err(unexpected())),
            },
            StoreReply::Written => match self.phase {
                Phase::Writing => Step::Continue(self.moved_to(Phase::Committing)),
                _ => Step::Finished(Err(unexpected())),
            },
            StoreReply::Committed => match self.phase {
                Phase::Committing => Step::Finished(Ok(true)),
                _ => Step::Finished(Err(unexpected())),
            },
            StoreReply::RolledBack => match self.phase {
                Phase::RollingBack => Step::Finished(Ok(false)),
                Phase::Rejecting => Step::Finished(
                    Err(
                        String::from_str("Could not decode ").concat(self.key.as_str()).concat(
                            " value, reason: the record is malformed",
                        ),
                    ),
                ),
                _ => Step::Finished(Err(unexpected())),
            },
        }
    }

    fn moved_to(self, phase: Phase) -> (attempt: ClaimAttempt)
        ensures
            attempt@ == self@.at(phase),
    {
        ClaimAttempt { key: self.key, value: self.value, phase }
    }

    fn fail(self, error: StoreError) -> (outcome: Result<bool, String>)
        ensures
            outcome_view(outcome) == self@.failed(error@),
    {
        let (conflict, reason) = match error {
            StoreError::KeyError { conflict, reason } => (conflict, reason),
            StoreError::Other { reason } => (false, reason),
        };
        match self.phase {
            Phase::Beginning => Err(
                String::from_str("Could not start transaction, reason: ").concat(reason.as_str()),
            ),
            Phase::Reading => Err(
                String::from_str("Could not get ").concat(self.key.as_str()).concat(
                    " value for update, reason: ",
                ).concat(reason.as_str()),
            ),
            Phase::Writing => Err(
                String::from_str("Could not put ").concat(self.key.as_str()).concat(
                    " value, reason ",
                ).concat(reason.as_str()),
            ),
            Phase::Committing => if conflict {
                Ok(false)
            } else {
                Err(
                    String::from_str("Could not commit transaction, reason ").concat(
                        reason.as_str(),
                    ),
                )
            },
            Phase::RollingBack | Phase::Rejecting => Err(
                String::from_str("Could not rollback transaction, reason ").concat(
                    reason.as_str(),
                ),
            ),
        }
    }
}

/// The verdict that is handed on for the outcome of an attempt. An error is
/// a denial: no failure ever grants.
pub fn verdict(outcome: &Result<bool, String>) -> (granted: bool)
    ensures
        granted == (*outcome == Ok::<bool, String>(true)),
        granted == verdict_of(outcome_view(*outcome)),
{
    match outcome {
        Ok(claimed) => *claimed,
        Err(_) => false,
    }
}

fn unexpected() -> (message: String)
    ensures
        message@ == unexpected_reply(),
{
    String::from_str("Unexpected reply from the store")
}

} // verus!
