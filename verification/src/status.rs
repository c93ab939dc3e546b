//! Lifecycle status records. Status is the only externally visible
//! representation of an object's lifecycle: a phase, a ready flag, a
//! human-readable reason and an optional message, exactly the shape of a
//! condition record.

use vstd::prelude::*;
use vstd::string::StringExecFns;

verus! {

/// The closed set of lifecycle phases of an Actor. `Running` is
/// re-enterable when the spec changes; it is not a hard terminal phase.
#[derive(Clone, Copy, PartialEq, Eq, Structural, Debug)]
pub enum ActorPhase {
    Pending,
    Building,
    Deploying,
    Running,
}

/// The closed set of lifecycle phases of a Playbook.
#[derive(Clone, Copy, PartialEq, Eq, Structural, Debug)]
pub enum PlaybookPhase {
    Pending,
    Solving,
    Running,
}

/// The status record of an Actor.
#[derive(Debug)]
pub struct ActorState {
    pub phase: ActorPhase,
    pub ready: bool,
    pub reason: String,
    pub message: Option<String>,
}

/// The status record of a Playbook.
#[derive(Debug)]
pub struct PlaybookState {
    pub phase: PlaybookPhase,
    pub ready: bool,
    pub reason: String,
    pub message: Option<String>,
}

impl ActorState {
    pub open spec fn is_pending(self) -> bool {
        self.phase is Pending
    }

    pub open spec fn is_building(self) -> bool {
        self.phase is Building
    }

    pub open spec fn is_running(self) -> bool {
        self.phase is Running
    }

    /// The status a freshly observed actor is initialized to.
    pub fn pending() -> (r: ActorState)
        ensures
            r.phase == ActorPhase::Pending,
            !r.ready,
            r.reason@ == "Pending"@,
            r.message is None,
    {
        ActorState {
            phase: ActorPhase::Pending,
            ready: false,
            reason: String::from_str("Pending"),
            message: Option::None,
        }
    }

    /// The status of an actor whose build has been dispatched.
    pub fn building() -> (r: ActorState)
        ensures
            r.phase == ActorPhase::Building,
            !r.ready,
            r.reason@ == "Building"@,
            r.message is None,
    {
        ActorState {
            phase: ActorPhase::Building,
            ready: false,
            reason: String::from_str("Building"),
            message: Option::None,
        }
    }

    /// The status of a running actor, with the reason for the transition.
    pub fn running(ready: bool, reason: &str, message: Option<String>) -> (r: ActorState)
        ensures
            r.phase == ActorPhase::Running,
            r.ready == ready,
            r.reason@ == reason@,
            r.message == message,
    {
        ActorState {
            phase: ActorPhase::Running,
            ready,
            reason: String::from_str(reason),
            message,
        }
    }
}

impl PlaybookState {
    pub open spec fn is_pending(self) -> bool {
        self.phase is Pending
    }

    pub open spec fn is_solving(self) -> bool {
        self.phase is Solving
    }

    pub open spec fn is_running(self) -> bool {
        self.phase is Running
    }

    /// The status a freshly observed playbook is initialized to.
    pub fn pending() -> (r: PlaybookState)
        ensures
            r.phase == PlaybookPhase::Pending,
            !r.ready,
            r.reason@ == "Pending"@,
            r.message is None,
    {
        PlaybookState {
            phase: PlaybookPhase::Pending,
            ready: false,
            reason: String::from_str("Pending"),
            message: Option::None,
        }
    }

    /// The status of a playbook whose dependency closure is being solved.
    pub fn solving() -> (r: PlaybookState)
        ensures
            r.phase == PlaybookPhase::Solving,
            !r.ready,
            r.reason@ == "Solving"@,
            r.message is None,
    {
        PlaybookState {
            phase: PlaybookPhase::Solving,
            ready: false,
            reason: String::from_str("Solving"),
            message: Option::None,
        }
    }

    /// The status of a running playbook, with the reason for the transition.
    pub fn running(ready: bool, reason: &str, message: Option<String>) -> (r: PlaybookState)
        ensures
            r.phase == PlaybookPhase::Running,
            r.ready == ready,
            r.reason@ == reason@,
            r.message == message,
    {
        PlaybookState {
            phase: PlaybookPhase::Running,
            ready,
            reason: String::from_str(reason),
            message,
        }
    }
}

} // verus!
