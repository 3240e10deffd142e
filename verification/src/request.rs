//! Requests and verdicts as values, and the choice of the resolver entry point
//! that answers a request.

use vstd::prelude::*;
use crate::resolver::PermissionResolver;
use crate::store::Key;

verus! {

/// The track that a request is put to. The tracks are independent of each
/// other.
#[derive(PartialEq, Eq, Debug)]
pub enum ClaimDimension {
    Slot,
    Round,
    Session,
    /// The rotation, asked for by the identity that wants the next turn.
    RotationSeat(String),
}

/// A `ClaimDimension` with the identity as a sequence of characters.
pub enum ClaimDimensionView {
    Slot,
    Round,
    Session,
    RotationSeat(Seq<char>),
}

impl View for ClaimDimension {
    type V = ClaimDimensionView;

    open spec fn view(&self) -> ClaimDimensionView {
        match self {
            ClaimDimension::Slot => ClaimDimensionView::Slot,
            ClaimDimension::Round => ClaimDimensionView::Round,
            ClaimDimension::Session => ClaimDimensionView::Session,
            ClaimDimension::RotationSeat(identity) => ClaimDimensionView::RotationSeat(identity@),
        }
    }
}

/// One request: a value proposed on a dimension. On a rotation seat the value
/// says nothing.
#[derive(PartialEq, Eq, Debug)]
pub struct PermissionRequest {
    pub dimension: ClaimDimension,
    pub proposed_value: u64,
}

/// A `PermissionRequest` over sequences.
pub struct PermissionRequestView {
    pub dimension: ClaimDimensionView,
    pub proposed_value: u64,
}

impl View for PermissionRequest {
    type V = PermissionRequestView;

    open spec fn view(&self) -> PermissionRequestView {
        PermissionRequestView { dimension: self.dimension@, proposed_value: self.proposed_value }
    }
}

/// The answer to one request.
#[derive(Clone, Copy, PartialEq, Eq, Debug, Structural)]
pub struct PermissionVerdict {
    pub granted: bool,
}

/// An entry point of a resolver, with its argument.
#[derive(Clone, Copy, PartialEq, Eq, Debug, Structural)]
pub enum EntryPoint {
    Slot(u64),
    Round(u64),
    Session(u32),
}

/// The entry point that answers `request`. A resolver has entry points for
/// slots, rounds and sessions; a rotation seat and a session index beyond 32
/// bits fit none of them.
pub open spec fn entry_point_of(request: PermissionRequestView) -> Option<EntryPoint> {
    match request.dimension {
        ClaimDimensionView::Slot => Some(EntryPoint::Slot(request.proposed_value)),
        ClaimDimensionView::Round => Some(EntryPoint::Round(request.proposed_value)),
        ClaimDimensionView::Session => if request.proposed_value <= u32::MAX {
            Some(EntryPoint::Session(request.proposed_value as u32))
        } else {
            None
        },
        ClaimDimensionView::RotationSeat(_) => None,
    }
}

/// Whether `granted` is a verdict that `resolver` may give at `entry`. What
/// no entry point takes can only be denied.
pub open spec fn answers<R: PermissionResolver>(
    resolver: &R,
    entry: Option<EntryPoint>,
    granted: bool,
) -> bool {
    match entry {
        Some(EntryPoint::Slot(slot)) => resolver.admits(Key::Slot, slot, granted),
        Some(EntryPoint::Round(round)) => resolver.admits(Key::Round, round, granted),
        Some(EntryPoint::Session(session_index)) => resolver.admits(
            Key::Session,
            session_index as u64,
            granted,
        ),
        None => !granted,
    }
}

impl PermissionRequest {
    /// The entry point that answers the request, if there is one.
    pub fn entry_point(&self) -> (entry: Option<EntryPoint>)
        ensures
            entry == entry_point_of(self@),
    {
        match &self.dimension {
            ClaimDimension::Slot => Some(EntryPoint::Slot(self.proposed_value)),
            ClaimDimension::Round => Some(EntryPoint::Round(self.proposed_value)),
            ClaimDimension::Session => if self.proposed_value <= u32::MAX as u64 {
                Some(EntryPoint::Session(self.proposed_value as u32))
            } else {
                None
            },
            ClaimDimension::RotationSeat(_) => None,
        }
    }
}

/// Puts `request` to the entry point of `resolver` that answers it, and
/// denies it where there is none.
pub fn resolve<R: PermissionResolver>(resolver: &R, request: &PermissionRequest) -> (verdict:
    PermissionVerdict)
    ensures
        answers(resolver, entry_point_of(request@), verdict.granted),
{
    let granted = match request.entry_point() {
        Some(EntryPoint::Slot(slot)) => resolver.resolve_slot(slot),
        Some(EntryPoint::Round(round)) => resolver.resolve_round(round),
        Some(EntryPoint::Session(session_index)) => resolver.resolve_session(session_index),
        None => false,
    };
    PermissionVerdict { granted }
}

} // verus!
