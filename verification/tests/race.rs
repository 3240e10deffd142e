use authority_permission::codec::deserialize_u64;
use authority_permission::store::{verdict, ClaimAttempt, Step, StoreAction, StoreError, StoreReply};

/// One record under optimistic concurrency: every commit writes a new
/// version, and a commit is refused with a conflict when the record was
/// written after the version that the transaction read.
struct Record {
    history: Vec<Option<Vec<u8>>>,
    /// Whether a transaction reads the version of the moment at which it
    /// began, or the newest one.
    reads_as_of_begin: bool,
}

fn record(reads_as_of_begin: bool) -> Record {
    Record { history: vec![None], reads_as_of_begin }
}

fn newest(record: &Record) -> usize {
    record.history.len() - 1
}

fn stored(record: &Record) -> u64 {
    deserialize_u64(record.history.last().unwrap().clone().unwrap()).unwrap()
}

struct Caller {
    attempt: Option<ClaimAttempt>,
    begun_at: usize,
    read_version: usize,
    pending: Option<Vec<u8>>,
    outcome: Option<Result<bool, String>>,
}

fn caller(value: u64) -> Caller {
    Caller {
        attempt: Some(ClaimAttempt::for_slot(value)),
        begun_at: 0,
        read_version: 0,
        pending: None,
        outcome: None,
    }
}

/// Makes the pending store call of `caller`; does nothing once it has ended.
fn turn(record: &mut Record, caller: &mut Caller) {
    let attempt = match caller.attempt.take() {
        Some(attempt) => attempt,
        None => return,
    };
    let reply = match attempt.action() {
        StoreAction::BeginOptimistic => {
            caller.begun_at = newest(record);
            StoreReply::Begun
        }
        StoreAction::GetForUpdate { .. } => {
            caller.read_version =
                if record.reads_as_of_begin { caller.begun_at } else { newest(record) };
            StoreReply::Value(record.history[caller.read_version].clone())
        }
        StoreAction::Put { value, .. } => {
            caller.pending = Some(value);
            StoreReply::Written
        }
        StoreAction::Commit => {
            if caller.read_version == newest(record) {
                record.history.push(caller.pending.take());
                StoreReply::Committed
            } else {
                StoreReply::Failed(StoreError::KeyError {
                    conflict: true,
                    reason: "write conflict".to_owned(),
                })
            }
        }
        StoreAction::Rollback => StoreReply::RolledBack,
    };
    match attempt.step(reply) {
        Step::Continue(next) => caller.attempt = Some(next),
        Step::Finished(outcome) => caller.outcome = Some(outcome),
    }
}

fn finish(record: &mut Record, caller: &mut Caller) {
    while caller.outcome.is_none() {
        turn(record, caller);
    }
}

fn granted(caller: &Caller) -> bool {
    verdict(caller.outcome.as_ref().unwrap())
}

#[test]
fn callers_that_read_the_same_record_have_one_winner() {
    for reads_as_of_begin in [false, true] {
        let mut record = record(reads_as_of_begin);
        let mut callers: Vec<Caller> = (1..=5).map(caller).collect();
        // every caller makes one call in turn: all read before any commits
        for _ in 0..4 {
            for caller in callers.iter_mut() {
                turn(&mut record, caller);
            }
        }
        let verdicts: Vec<bool> = callers.iter().map(granted).collect();
        assert_eq!(verdicts, vec![true, false, false, false, false]);
        // the losers lost the race: a denial, not an error
        for loser in &callers[1..] {
            assert_eq!(loser.outcome, Some(Ok(false)));
        }
        assert_eq!(stored(&record), 1);
        assert_eq!(newest(&record), 1);
    }
}

#[test]
fn last_reader_to_commit_first_wins() {
    for reads_as_of_begin in [false, true] {
        let mut record = record(reads_as_of_begin);
        let mut callers: Vec<Caller> = (1..=3).map(caller).collect();
        for _ in 0..3 {
            for caller in callers.iter_mut() {
                turn(&mut record, caller);
            }
        }
        // commits in reverse order
        for caller in callers.iter_mut().rev() {
            turn(&mut record, caller);
        }
        let verdicts: Vec<bool> = callers.iter().map(granted).collect();
        assert_eq!(verdicts, vec![false, false, true]);
        assert_eq!(stored(&record), 3);
    }
}

#[test]
fn callers_one_after_the_other_cross_one_level_each() {
    for reads_as_of_begin in [false, true] {
        let mut record = record(reads_as_of_begin);
        let values = [3u64, 1, 3, 4, 2, 4, 9];
        let mut verdicts = Vec::new();
        for value in values {
            let mut caller = caller(value);
            finish(&mut record, &mut caller);
            verdicts.push(granted(&caller));
        }
        assert_eq!(verdicts, vec![true, false, false, true, false, false, true]);
        assert_eq!(stored(&record), 9);
        assert_eq!(newest(&record), 3);
    }
}

#[test]
fn same_value_is_granted_to_one_caller_only() {
    for reads_as_of_begin in [false, true] {
        let mut record = record(reads_as_of_begin);
        let mut callers: Vec<Caller> = vec![caller(7), caller(7), caller(7)];
        // first and second read, the first commits, the third comes late
        turn(&mut record, &mut callers[0]);
        turn(&mut record, &mut callers[1]);
        turn(&mut record, &mut callers[0]);
        turn(&mut record, &mut callers[1]);
        finish(&mut record, &mut callers[0]);
        finish(&mut record, &mut callers[1]);
        finish(&mut record, &mut callers[2]);
        let verdicts: Vec<bool> = callers.iter().map(granted).collect();
        assert_eq!(verdicts, vec![true, false, false]);
        assert_eq!(newest(&record), 1);
    }
}

#[test]
fn caller_that_began_before_a_commit_cannot_undercut_it() {
    // the first caller begins, a second one claims 9, then the first goes on
    // with 5: it reads 9 and rolls back, or reads the old version and loses
    // at commit
    for reads_as_of_begin in [false, true] {
        let mut record = record(reads_as_of_begin);
        let mut early = caller(5);
        turn(&mut record, &mut early);
        let mut fast = caller(9);
        finish(&mut record, &mut fast);
        assert!(granted(&fast));
        finish(&mut record, &mut early);
        assert_eq!(early.outcome, Some(Ok(false)));
        assert_eq!(stored(&record), 9);
    }
}

#[test]
fn granted_values_rise_under_every_order_of_three_callers() {
    // every schedule of three callers with four calls each
    let values = [2u64, 1, 2];
    for reads_as_of_begin in [false, true] {
        let mut schedule = Vec::new();
        let mut winners = 0;
        explore(reads_as_of_begin, &values, &mut schedule, [4, 4, 4], &mut winners);
        assert!(winners > 0);
    }
}

fn explore(
    reads_as_of_begin: bool,
    values: &[u64; 3],
    schedule: &mut Vec<usize>,
    left: [usize; 3],
    winners: &mut usize,
) {
    if left == [0, 0, 0] {
        let mut record = record(reads_as_of_begin);
        let mut callers: Vec<Caller> = values.iter().map(|value| caller(*value)).collect();
        let mut committed = Vec::new();
        for &next in schedule.iter() {
            let before = newest(&record);
            turn(&mut record, &mut callers[next]);
            if newest(&record) > before {
                committed.push(values[next]);
            }
        }
        let granted_values: Vec<u64> = callers
            .iter()
            .zip(values.iter())
            .filter(|(caller, _)| caller.outcome.as_ref().map_or(false, verdict))
            .map(|(_, value)| *value)
            .collect();
        // in the order of their commits the granted values rise strictly
        assert!(committed.windows(2).all(|pair| pair[0] < pair[1]));
        // every commit is a grant, and no value is granted twice
        assert_eq!(committed.len(), granted_values.len());
        let mut sorted = granted_values.clone();
        sorted.sort();
        sorted.dedup();
        assert_eq!(sorted.len(), granted_values.len());
        *winners += granted_values.len();
        return;
    }
    for next in 0..3 {
        if left[next] > 0 {
            let mut rest = left;
            rest[next] -= 1;
            schedule.push(next);
            explore(reads_as_of_begin, values, schedule, rest, winners);
            schedule.pop();
        }
    }
}

#[test]
fn malformed_record_has_no_winner() {
    for reads_as_of_begin in [false, true] {
        let mut record = Record { history: vec![Some(vec![1, 2, 3])], reads_as_of_begin };
        let mut callers: Vec<Caller> = (1..=3).map(caller).collect();
        for _ in 0..4 {
            for caller in callers.iter_mut() {
                turn(&mut record, caller);
            }
        }
        for caller in &callers {
            assert!(!granted(caller));
            assert!(caller.outcome.as_ref().unwrap().is_err());
        }
        // nothing was written
        assert_eq!(record.history, vec![Some(vec![1, 2, 3])]);
    }
}
