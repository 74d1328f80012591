//! Decisions of the signing material rotation: what to do next, given where
//! the rotation stands and what just happened.
//!
//! The rotation looks up the configured signature algorithm once and gives up
//! for good when it is unknown (the readiness probe then reports not ready).
//! Otherwise it enrolls a fresh key and chain, publishes the snapshot before
//! it stops monitoring the previous chain, sleeps at least one second, and
//! waits until the leaf is about to expire or a certificate of the chain is
//! revoked, then enrolls again. An enrollment that gives no usable chain is
//! retried after the same one second sleep.

use vstd::prelude::*;

verus! {

/// The least time between two enrollments, in milliseconds.
pub const ROTATION_FLOOR_MILLIS: u64 = 1_000;

/// How long before the leaf's expiry a new chain is enrolled, in seconds.
pub const EXPIRY_LEAD_SECONDS: u64 = 180;

/// Where the rotation stands.
#[derive(Clone, Copy, Debug, PartialEq, Eq, Structural)]
pub enum RotationState {
    /// The signature algorithm is being looked up.
    Starting,
    /// A key pair and chain are being enrolled.
    Enrolling,
    /// A well-formed snapshot is being published.
    Publishing,
    /// The floor sleep after a publication.
    Cooling,
    /// Waiting for the leaf's expiry or a revocation.
    AwaitingLeaf,
    /// The floor sleep after an enrollment without a usable chain.
    Retrying,
    /// The algorithm is unknown: nothing more is done.
    Stopped,
}

/// What just happened.
#[derive(Clone, Copy, Debug, PartialEq, Eq, Structural)]
pub enum RotationEvent {
    /// The signature algorithm lookup ended: known or not.
    AlgorithmKnown(bool),
    /// An enrollment ended: with a chain that makes a well-formed snapshot,
    /// or not.
    Enrolled { well_formed: bool },
    /// The new snapshot is published and the previous chain's monitoring
    /// stopped.
    Published,
    /// A sleep ended.
    Slept,
    /// The leaf is about to expire, or a certificate of the chain was
    /// revoked.
    LeafDue,
}

/// What to do next.
#[derive(Clone, Copy, Debug, PartialEq, Eq, Structural)]
pub enum RotationAction {
    /// Look up the configured signature algorithm.
    LookUpAlgorithm,
    /// Stop for good.
    GiveUp,
    /// Generate a key pair and enroll a chain for it.
    Enroll,
    /// Publish the new snapshot, and only then stop monitoring the previous
    /// chain.
    PublishThenStopPrevious,
    /// Sleep this long.
    Sleep { millis: u64 },
    /// Wait until the leaf expires within this many seconds, or a
    /// certificate of the chain is revoked.
    AwaitLeaf { lead_seconds: u64 },
}

/// The action that a state waits to have performed.
pub open spec fn action_of(s: RotationState) -> RotationAction {
    match s {
        RotationState::Starting => RotationAction::LookUpAlgorithm,
        RotationState::Enrolling => RotationAction::Enroll,
        RotationState::Publishing => RotationAction::PublishThenStopPrevious,
        RotationState::Cooling => RotationAction::Sleep { millis: ROTATION_FLOOR_MILLIS },
        RotationState::AwaitingLeaf => RotationAction::AwaitLeaf {
            lead_seconds: EXPIRY_LEAD_SECONDS,
        },
        RotationState::Retrying => RotationAction::Sleep { millis: ROTATION_FLOOR_MILLIS },
        RotationState::Stopped => RotationAction::GiveUp,
    }
}

/// The next state for an event; an event that the state does not wait for
/// changes nothing.
pub open spec fn next_state_of(s: RotationState, e: RotationEvent) -> RotationState {
    match (s, e) {
        (RotationState::Starting, RotationEvent::AlgorithmKnown(known)) => if known {
            RotationState::Enrolling
        } else {
            RotationState::Stopped
        },
        (RotationState::Enrolling, RotationEvent::Enrolled { well_formed }) => if well_formed {
            RotationState::Publishing
        } else {
            RotationState::Retrying
        },
        (RotationState::Publishing, RotationEvent::Published) => RotationState::Cooling,
        (RotationState::Cooling, RotationEvent::Slept) => RotationState::AwaitingLeaf,
        (RotationState::AwaitingLeaf, RotationEvent::LeafDue) => RotationState::Enrolling,
        (RotationState::Retrying, RotationEvent::Slept) => RotationState::Enrolling,
        _ => s,
    }
}

/// The next state and the action it waits for.
pub open spec fn rotation_step_of(s: RotationState, e: RotationEvent) -> (
    RotationState,
    RotationAction,
) {
    (next_state_of(s, e), action_of(next_state_of(s, e)))
}

/// Where a rotation starts and what it does first.
pub fn rotation_start() -> (r: (RotationState, RotationAction))
    ensures
        r == (RotationState::Starting, action_of(RotationState::Starting)),
{
    (RotationState::Starting, RotationAction::LookUpAlgorithm)
}

fn action_for(s: RotationState) -> (r: RotationAction)
    ensures
        r == action_of(s),
{
    match s {
        RotationState::Starting => RotationAction::LookUpAlgorithm,
        RotationState::Enrolling => RotationAction::Enroll,
        RotationState::Publishing => RotationAction::PublishThenStopPrevious,
        RotationState::Cooling => RotationAction::Sleep { millis: ROTATION_FLOOR_MILLIS },
        RotationState::AwaitingLeaf => RotationAction::AwaitLeaf {
            lead_seconds: EXPIRY_LEAD_SECONDS,
        },
        RotationState::Retrying => RotationAction::Sleep { millis: ROTATION_FLOOR_MILLIS },
        RotationState::Stopped => RotationAction::GiveUp,
    }
}

/// One step of the rotation: the state after `event`, and what to do next.
pub fn rotation_step(state: RotationState, event: RotationEvent) -> (r: (
    RotationState,
    RotationAction,
))
    ensures
        r == rotation_step_of(state, event),
{
    let next = match (state, event) {
        (RotationState::Starting, RotationEvent::AlgorithmKnown(known)) => if known {
            RotationState::Enrolling
        } else {
            RotationState::Stopped
        },
        (RotationState::Enrolling, RotationEvent::Enrolled { well_formed }) => if well_formed {
            RotationState::Publishing
        } else {
            RotationState::Retrying
        },
        (RotationState::Publishing, RotationEvent::Published) => RotationState::Cooling,
        (RotationState::Cooling, RotationEvent::Slept) => RotationState::AwaitingLeaf,
        (RotationState::AwaitingLeaf, RotationEvent::LeafDue) => RotationState::Enrolling,
        (RotationState::Retrying, RotationEvent::Slept) => RotationState::Enrolling,
        _ => state,
    };
    (next, action_for(next))
}

/// Once stopped, the rotation stays stopped whatever happens; and every
/// enrollment is preceded by a floor sleep or a wait for the leaf (or the
/// algorithm lookup, for the first one).
pub proof fn lemma_rotation_paths(s: RotationState, e: RotationEvent)
    ensures
        s == RotationState::Stopped ==> rotation_step_of(s, e) == (
            RotationState::Stopped,
            RotationAction::GiveUp,
        ),
        next_state_of(s, e) == RotationState::Enrolling && s != RotationState::Enrolling ==> (
        s == RotationState::Starting || s == RotationState::Retrying || s
            == RotationState::AwaitingLeaf),
        next_state_of(s, e) == RotationState::Publishing ==> (s == RotationState::Enrolling || s
            == RotationState::Publishing),
{
}

} // verus!
