//! The central arbiter: one monotonic claim for each of slot, round and
//! session, and one rotation. Every entry point takes the arbiter by `&mut`,
//! so a check and its update are one step that no other request can enter.
//!
//! Slots and rounds count from zero: their level starts below zero, and a
//! negative value is never granted. Sessions keep "nothing granted yet" apart
//! from every value: the first session claim is granted whatever it proposes.

use vstd::prelude::*;
use crate::claim::{
    exceeds,
    first_or_exceeds,
    granted_after,
    level_after,
    try_first_grant,
    try_grant,
    NO_GRANT,
};
use crate::config::Config;

verus! {

/// One request, as the arbiter's rules see it: a value put to one of the
/// numeric dimensions, or an identity that asks for the next rotation turn.
pub enum Claim {
    Slot(int),
    Round(int),
    Session(int),
    Seat(Seq<char>),
}

impl Claim {
    /// Whether the claim puts a value to slot, round or session.
    pub open spec fn is_numeric(self) -> bool {
        !(self is Seat)
    }

    /// The value that a numeric claim proposes.
    pub open spec fn value(self) -> int {
        match self {
            Claim::Slot(value) => value,
            Claim::Round(value) => value,
            Claim::Session(value) => value,
            Claim::Seat(_) => 0,
        }
    }

    /// Whether two claims are put to the same dimension.
    pub open spec fn same_dimension(self, other: Claim) -> bool {
        ||| self is Slot && other is Slot
        ||| self is Round && other is Round
        ||| self is Session && other is Session
        ||| self is Seat && other is Seat
    }
}

/// What the arbiter remembers: the level of slot and of round, the last
/// granted session if there is one, and the rotation turns that are still to
/// come, the next one first.
pub struct ArbiterState {
    pub slot: int,
    pub round: int,
    pub session: Option<int>,
    pub rotation: Seq<Seq<char>>,
}

impl ArbiterState {
    /// The state of an arbiter that has granted nothing and serves `rotation`.
    pub open spec fn fresh(rotation: Seq<Seq<char>>) -> ArbiterState {
        ArbiterState {
            slot: NO_GRANT as int,
            round: NO_GRANT as int,
            session: None,
            rotation,
        }
    }

    /// Whether `claim` is granted in this state.
    pub open spec fn grants(self, claim: Claim) -> bool {
        match claim {
            Claim::Slot(value) => exceeds(self.slot, value),
            Claim::Round(value) => exceeds(self.round, value),
            Claim::Session(value) => first_or_exceeds(self.session, value),
            Claim::Seat(name) => self.rotation.len() > 0 && self.rotation.first() == name,
        }
    }

    /// The state after `claim` was put to this one. A denied claim changes
    /// nothing; a granted value becomes the level of its dimension; a granted
    /// seat moves the rotation on by one turn.
    pub open spec fn after(self, claim: Claim) -> ArbiterState {
        match claim {
            Claim::Slot(value) => ArbiterState { slot: level_after(self.slot, value), ..self },
            Claim::Round(value) => ArbiterState { round: level_after(self.round, value), ..self },
            Claim::Session(value) => ArbiterState {
                session: granted_after(self.session, value),
                ..self
            },
            Claim::Seat(name) => if self.grants(claim) {
                ArbiterState { rotation: self.rotation.drop_first(), ..self }
            } else {
                self
            },
        }
    }

    /// Whether the dimension of `claim` is closed up to `value`: its level
    /// is at `value` or above it, so that no claim of `value` or less is
    /// granted on it. A session dimension without a grant is closed to
    /// nothing.
    pub open spec fn closed_up_to(self, claim: Claim, value: int) -> bool {
        match claim {
            Claim::Slot(_) => self.slot >= value,
            Claim::Round(_) => self.round >= value,
            Claim::Session(_) => self.session matches Some(last) && last >= value,
            Claim::Seat(_) => false,
        }
    }

    /// The state after `claims` were put to this one, one after the other.
    pub open spec fn after_all(self, claims: Seq<Claim>) -> ArbiterState
        decreases claims.len(),
    {
        if claims.len() == 0 {
            self
        } else {
            self.after_all(claims.drop_last()).after(claims.last())
        }
    }
}

impl ArbiterState {
    /// The identities that were granted a rotation turn while `claims` were
    /// put to this state, in the order of the grants.
    pub open spec fn seats_granted(self, claims: Seq<Claim>) -> Seq<Seq<char>>
        decreases claims.len(),
    {
        if claims.len() == 0 {
            Seq::empty()
        } else {
            let earlier = self.seats_granted(claims.drop_last());
            let last = claims.last();
            if last is Seat && self.after_all(claims.drop_last()).grants(last) {
                earlier.push(last->Seat_0)
            } else {
                earlier
            }
        }
    }
}

/// The request of each of `identities` for the next rotation turn, in their
/// order.
pub open spec fn seat_claims(identities: Seq<Seq<char>>) -> Seq<Claim> {
    Seq::new(identities.len(), |i: int| Claim::Seat(identities[i]))
}

/// A request never lowers the level of a dimension, and after a value was
/// put to a dimension, granted or not, the dimension is closed up to it.
pub proof fn lemma_levels_never_fall(state: ArbiterState, claim: Claim, probe: Claim, value: int)
    ensures
        state.closed_up_to(probe, value) ==> state.after(claim).closed_up_to(probe, value),
        claim.is_numeric() ==> state.after(claim).closed_up_to(claim, claim.value()),
        state.closed_up_to(probe, value) && probe.same_dimension(claim) && claim.value() <= value
            ==> !state.grants(claim),
{
}

/// Once a value was granted on slot, round or session, no later request for
/// that value or a lower one on the same dimension is granted, whatever was
/// asked in between. The request at `granted` is the grant, the one at
/// `later` the later request.
pub proof fn lemma_granted_value_is_never_granted_again(
    start: ArbiterState,
    claims: Seq<Claim>,
    granted: int,
    later: int,
)
    requires
        0 <= granted < later < claims.len(),
        claims[granted].is_numeric(),
        claims[granted].same_dimension(claims[later]),
        start.after_all(claims.take(granted)).grants(claims[granted]),
        claims[later].value() <= claims[granted].value(),
    ensures
        !start.after_all(claims.take(later)).grants(claims[later]),
{
    lemma_level_stays_above_grant(start, claims, granted, later);
    lemma_levels_never_fall(
        start.after_all(claims.take(later)),
        claims[later],
        claims[granted],
        claims[granted].value(),
    );
}

/// No value is granted twice on slot, round or session: of two requests for
/// the same value on the same dimension, whatever was asked between them, at
/// most one is granted.
pub proof fn lemma_no_value_is_granted_twice(
    start: ArbiterState,
    claims: Seq<Claim>,
    first: int,
    second: int,
)
    requires
        0 <= first < second < claims.len(),
        claims[first].is_numeric(),
        claims[first] == claims[second],
    ensures
        !(start.after_all(claims.take(first)).grants(claims[first]) && start.after_all(
            claims.take(second),
        ).grants(claims[second])),
{
    if start.after_all(claims.take(first)).grants(claims[first]) {
        lemma_granted_value_is_never_granted_again(start, claims, first, second);
    }
}

/// After the request at `granted`, its dimension stays closed up to the
/// value that it proposed.
proof fn lemma_level_stays_above_grant(
    start: ArbiterState,
    claims: Seq<Claim>,
    granted: int,
    later: int,
)
    requires
        0 <= granted < later <= claims.len(),
        claims[granted].is_numeric(),
    ensures
        start.after_all(claims.take(later)).closed_up_to(
            claims[granted],
            claims[granted].value(),
        ),
    decreases later - granted,
{
    let before = start.after_all(claims.take(later - 1));
    assert(claims.take(later).drop_last() =~= claims.take(later - 1));
    lemma_levels_never_fall(before, claims[later - 1], claims[granted], claims[granted].value());
    if later - 1 > granted {
        lemma_level_stays_above_grant(start, claims, granted, later - 1);
    }
}

/// A value that was just put to slot, round or session is denied when it is
/// put again, whether it was granted the first time or not. So the same
/// request, made twice, is never granted twice.
pub proof fn lemma_replay_is_denied(state: ArbiterState, claim: Claim)
    requires
        claim.is_numeric(),
    ensures
        !state.after(claim).grants(claim),
{
}

/// Whatever is asked, the identities that are granted a turn are granted it
/// in the declared order, one turn each, and the turns that are left are the
/// rest of the declared order. A request out of turn is denied and changes
/// nothing.
pub proof fn lemma_seats_follow_declared_order(start: ArbiterState, claims: Seq<Claim>)
    ensures
        start.seats_granted(claims).len() <= start.rotation.len(),
        start.seats_granted(claims) == start.rotation.take(
            start.seats_granted(claims).len() as int,
        ),
        start.after_all(claims).rotation == start.rotation.skip(
            start.seats_granted(claims).len() as int,
        ),
    decreases claims.len(),
{
    if claims.len() > 0 {
        lemma_seats_follow_declared_order(start, claims.drop_last());
    }
}

/// When the declared identities ask in the declared order, each of them is
/// granted its turn, and no turn is left afterwards.
pub proof fn lemma_declared_order_is_served(start: ArbiterState, turn: int)
    requires
        0 <= turn <= start.rotation.len(),
    ensures
        start.after_all(seat_claims(start.rotation).take(turn)).rotation == start.rotation.skip(
            turn,
        ),
        turn < start.rotation.len() ==> start.after_all(
            seat_claims(start.rotation).take(turn),
        ).grants(seat_claims(start.rotation)[turn]),
        turn == start.rotation.len() ==> start.after_all(seat_claims(start.rotation)).rotation.len()
            == 0,
    decreases turn,
{
    let claims = seat_claims(start.rotation);
    if turn > 0 {
        lemma_declared_order_is_served(start, turn - 1);
        assert(claims.take(turn).drop_last() =~= claims.take(turn - 1));
    }
}

/// Once every turn has been taken, no identity is granted a turn again.
pub proof fn lemma_exhausted_rotation_denies(
    state: ArbiterState,
    claims: Seq<Claim>,
    name: Seq<char>,
)
    requires
        state.rotation.len() == 0,
    ensures
        !state.after_all(claims).grants(Claim::Seat(name)),
        state.after_all(claims).rotation.len() == 0,
    decreases claims.len(),
{
    if claims.len() > 0 {
        lemma_exhausted_rotation_denies(state, claims.drop_last(), name);
    }
}

/// The arbiter's state. Its fields are read and written by the entry points
/// of this module alone.
pub struct AuthorityData {
    current_slot: i64,
    current_round: i64,
    current_session: Option<i64>,
    config: Config,
}

impl View for AuthorityData {
    type V = ArbiterState;

    closed spec fn view(&self) -> ArbiterState {
        ArbiterState {
            slot: self.current_slot as int,
            round: self.current_round as int,
            session: match self.current_session {
                Some(last) => Some(last as int),
                None => None,
            },
            rotation: self.config@,
        }
    }
}

impl AuthorityData {
    /// A fresh arbiter without a rotation.
    pub fn new() -> (data: AuthorityData)
        ensures
            data@ == ArbiterState::fresh(Seq::empty()),
    {
        AuthorityData {
            current_slot: NO_GRANT,
            current_round: NO_GRANT,
            current_session: None,
            config: Config::new(),
        }
    }

    /// A fresh arbiter that serves the rotation `cfg`.
    pub fn create(cfg: Config) -> (data: AuthorityData)
        ensures
            data@ == ArbiterState::fresh(cfg@),
    {
        AuthorityData {
            current_slot: NO_GRANT,
            current_round: NO_GRANT,
            current_session: None,
            config: cfg,
        }
    }

    /// The level of the slot: the last granted slot, or `NO_GRANT`.
    pub fn current_slot(&self) -> (level: i64)
        ensures
            level == self@.slot,
    {
        self.current_slot
    }

    /// The level of the round: the last granted round, or `NO_GRANT`.
    pub fn current_round(&self) -> (level: i64)
        ensures
            level == self@.round,
    {
        self.current_round
    }

    /// The last granted session, or `None` where no session was granted.
    pub fn current_session(&self) -> (last: Option<i64>)
        ensures
            last is None <==> self@.session is None,
            last matches Some(session) ==> self@.session == Some(session as int),
    {
        self.current_session
    }

    /// The number of rotation turns that are still to come.
    pub fn turns_left(&self) -> (turns: usize)
        ensures
            turns == self@.rotation.len(),
    {
        self.config.len()
    }
}

/// Grants the next rotation turn to `name` if it is `name`'s, and moves the
/// rotation on; denies it, and changes nothing, if it is not.
pub fn authorize_fix_order(name: &str, data: &mut AuthorityData) -> (granted: bool)
    ensures
        granted == old(data)@.grants(Claim::Seat(name@)),
        final(data)@ == old(data)@.after(Claim::Seat(name@)),
{
    if data.config.is_authorized(name) {
        data.config.next();
        return true;
    }
    false
}

/// Grants the slot `slot_nr` iff it lies above the last granted slot, and
/// then makes it the last granted slot.
pub fn authorize_slot(slot_nr: i64, data: &mut AuthorityData) -> (granted: bool)
    ensures
        granted == old(data)@.grants(Claim::Slot(slot_nr as int)),
        final(data)@ == old(data)@.after(Claim::Slot(slot_nr as int)),
{
    if try_grant(data.current_slot, slot_nr) {
        data.current_slot = slot_nr;
        return true;
    }
    false
}

/// Grants the round `round_nr` iff it lies above the last granted round, and
/// then makes it the last granted round.
pub fn authorize_round(round_nr: i64, data: &mut AuthorityData) -> (granted: bool)
    ensures
        granted == old(data)@.grants(Claim::Round(round_nr as int)),
        final(data)@ == old(data)@.after(Claim::Round(round_nr as int)),
{
    if try_grant(data.current_round, round_nr) {
        data.current_round = round_nr;
        return true;
    }
    false
}

/// Grants the session `session_nr` iff no session was granted yet or it lies
/// above the last granted session, and then makes it the last granted
/// session.
pub fn authorize_session(session_nr: i64, data: &mut AuthorityData) -> (granted: bool)
    ensures
        granted == old(data)@.grants(Claim::Session(session_nr as int)),
        final(data)@ == old(data)@.after(Claim::Session(session_nr as int)),
{
    if try_first_grant(data.current_session, session_nr) {
        data.current_session = Some(session_nr);
        return true;
    }
    false
}

} // verus!
