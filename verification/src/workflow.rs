//! The actor workflow: the per-kind state machine that advances an actor
//! through its lifecycle. Each state owns tasks gated by pure
//! preconditions over the current status; a task whose precondition is
//! false is skipped with no side effects, which is what makes repeated
//! reconciliation of an unchanged object a no-op.

use vstd::prelude::*;

use crate::controller::Action;
use crate::error::Error;
use crate::model::Actor;
use crate::status::{ActorPhase, ActorState};
use crate::synchronizer::{is_build_resource, Op};

verus! {

/// The outcome of a state's handling pass: stay and wait for the next
/// reconciliation, or transition to another state. Errors travel in the
/// surrounding `Result`, never in the intent.
#[derive(Debug)]
pub enum Intent<S> {
    Stay,
    TransitionTo(S),
}

/// The observed outcome of the registry existence probe for an image.
#[derive(Clone, Copy, PartialEq, Eq, Structural, Debug)]
pub enum Probe {
    /// The registry holds the image.
    Exists,
    /// The registry answered and does not hold the image.
    Absent,
    /// The registry could not be reached; existence is unknown.
    Unreachable,
}

/// The phase the init task patches a pending actor to; `None` when the
/// probe failed and no decision is possible. A live actor builds without
/// consulting the probe at all.
pub open spec fn init_next_phase(live: bool, probe: Probe) -> Option<ActorPhase> {
    if live {
        Option::Some(ActorPhase::Building)
    } else if probe is Unreachable {
        Option::None
    } else if probe is Exists {
        Option::Some(ActorPhase::Running)
    } else {
        Option::Some(ActorPhase::Building)
    }
}

/// The decision the init task takes for a pending actor: patch exactly one
/// status — building when the actor is live or its image is absent,
/// running when the image is already present, which skips the build stage
/// — and transition accordingly. No build resource is touched here.
pub open spec fn init_decision(
    actor: Actor,
    probe: Probe,
    ops: Seq<Op>,
    intent: Intent<ActorPhase>,
) -> bool {
    &&& ops.len() == 1
    &&& (ops[0] matches Op::PatchActorStatus(st) && Option::Some(st.phase) == init_next_phase(
        actor.spec.live,
        probe,
    ) && !st.is_pending())
    &&& (actor.spec.live || probe is Absent) ==> ((ops[0] matches Op::PatchActorStatus(st)
        && st.is_building() && !st.ready) && intent == Intent::TransitionTo(ActorPhase::Building))
    &&& (!actor.spec.live && probe is Exists) ==> ((ops[0] matches Op::PatchActorStatus(st)
        && st.is_running() && st.ready && st.reason@ == "AutoRun"@ && st.message is None)
        && intent == Intent::TransitionTo(ActorPhase::Deploying))
    &&& forall|k: int| 0 <= k < ops.len() ==> !is_build_resource(ops[k])
}

/// The initial state of the actor workflow.
pub struct InitialState;

impl InitialState {
    /// Handles the initial state: runs the init task when its precondition
    /// holds. A failed execution is swallowed into "no transition, no
    /// mutation", leaving the controller's per-object backoff to retry.
    pub fn handle(&self, actor: &Actor, probe: Probe) -> (r: (Vec<Op>, Intent<ActorPhase>))
        ensures
            !InitTask::spec_matches(*actor) ==> r.0@ == Seq::<Op>::empty() && r.1 is Stay,
            InitTask::spec_matches(*actor) && !actor.spec.live && probe is Unreachable ==> r.0@
                == Seq::<Op>::empty() && r.1 is Stay,
            InitTask::spec_matches(*actor) && (actor.spec.live || !(probe is Unreachable))
                ==> init_decision(*actor, probe, r.0@, r.1),
    {
        let task = InitTask::new();
        if !task.matches(actor) {
            return (Vec::new(), Intent::Stay);
        }
        match task.execute(actor, probe) {
            Result::Ok(d) => d,
            Result::Err(_) => (Vec::new(), Intent::Stay),
        }
    }
}

/// The task that decides, for a pending actor, whether a build is needed.
pub struct InitTask;

impl InitTask {
    /// The task's precondition: the actor reports pending.
    pub open spec fn spec_matches(actor: Actor) -> bool {
        actor.status matches Some(s) && s.is_pending()
    }

    pub fn new() -> (r: InitTask) {
        InitTask
    }

    /// Pure precondition over the current status; false means the task is
    /// skipped with no side effects.
    pub fn matches(&self, actor: &Actor) -> (r: bool)
        ensures
            r == Self::spec_matches(*actor),
    {
        match &actor.status {
            Option::Some(s) => s.phase == ActorPhase::Pending,
            Option::None => false,
        }
    }

    /// Decides the build: a live actor, or one whose image the registry
    /// does not hold, is sent to building; otherwise the build stage is
    /// skipped and the actor advances toward deployment. Fails exactly
    /// when the decision needs the probe and the probe was unreachable.
    pub fn execute(&self, actor: &Actor, probe: Probe) -> (r: Result<
        (Vec<Op>, Intent<ActorPhase>),
        Error,
    >)
        ensures
            r is Err <==> !actor.spec.live && probe is Unreachable,
            r matches Err(e) ==> e is RegistryProbe,
            r matches Ok(d) ==> init_decision(*actor, probe, d.0@, d.1),
    {
        let build_needed: bool = if actor.spec.live {
            true
        } else {
            match self.built(probe) {
                Result::Ok(b) => !b,
                Result::Err(e) => {
                    return Result::Err(e);
                },
            }
        };
        let mut ops: Vec<Op> = Vec::new();
        if build_needed {
            ops.push(Op::PatchActorStatus(ActorState::building()));
            Result::Ok((ops, Intent::TransitionTo(ActorPhase::Building)))
        } else {
            ops.push(Op::PatchActorStatus(ActorState::running(true, "AutoRun", Option::None)));
            Result::Ok((ops, Intent::TransitionTo(ActorPhase::Deploying)))
        }
    }

    /// Whether the actor's image is already built, from the observed probe
    /// outcome; an unreachable registry is an error, never treated as "not
    /// built".
    pub fn built(&self, probe: Probe) -> (r: Result<bool, Error>)
        ensures
            r is Err <==> probe is Unreachable,
            r matches Err(e) ==> e is RegistryProbe,
            r matches Ok(b) ==> (b <==> probe is Exists),
    {
        match probe {
            Probe::Exists => Result::Ok(true),
            Probe::Absent => Result::Ok(false),
            Probe::Unreachable => Result::Err(Error::RegistryProbe),
        }
    }
}

/// One reconciliation pass over an actor. A missing status is initialized
/// to pending — before any task executes — and the pass requeues
/// immediately; a pending actor is handled by the initial state; later
/// phases are owned by their own states' handlers.
pub fn reconcile(actor: &Actor, probe: Probe) -> (r: (Vec<Op>, Action))
    ensures
        actor.status is None ==> r.0@.len() == 1 && (r.0@[0] matches Op::PatchActorStatus(st)
            && st.is_pending() && !st.ready) && r.1 == Action::Requeue(0),
        InitTask::spec_matches(*actor) ==> r.1 == Action::Requeue(
            crate::controller::DEFAULT_REQUEUE_SECS,
        ) && {
            &&& (!actor.spec.live && probe is Unreachable) ==> r.0@ == Seq::<Op>::empty()
            &&& (actor.spec.live || !(probe is Unreachable)) ==> exists|intent: Intent<ActorPhase>|
                init_decision(*actor, probe, r.0@, intent)
        },
        (actor.status matches Some(s) && !s.is_pending()) ==> r.0@ == Seq::<Op>::empty() && r.1
            == Action::Requeue(crate::controller::DEFAULT_REQUEUE_SECS),
{
    match &actor.status {
        Option::None => {
            let mut ops: Vec<Op> = Vec::new();
            ops.push(Op::PatchActorStatus(ActorState::pending()));
            (ops, Action::Requeue(0))
        },
        Option::Some(_) => {
            let state = InitialState;
            let (ops, intent) = state.handle(actor, probe);
            proof {
                if InitTask::spec_matches(*actor) && (actor.spec.live || !(probe
                    is Unreachable)) {
                    assert(init_decision(*actor, probe, ops@, intent));
                }
            }
            (ops, Action::Requeue(crate::controller::DEFAULT_REQUEUE_SECS))
        },
    }
}

/// Idempotence of the init task: any status it patches falsifies the
/// task's own precondition, so reconciling the actor again with no
/// external change in between finds nothing to do and mutates nothing.
pub proof fn lemma_init_idempotent(
    actor: Actor,
    probe: Probe,
    ops: Seq<Op>,
    intent: Intent<ActorPhase>,
    st: ActorState,
    patched: Actor,
)
    requires
        init_decision(actor, probe, ops, intent),
        ops[0] == Op::PatchActorStatus(st),
        patched.status == Option::Some(st),
    ensures
        !InitTask::spec_matches(patched),
{
}

/// Build skip: a non-live actor whose image the registry already holds
/// materializes no build resource; its status advances directly past the
/// build stage toward deployment.
pub proof fn lemma_build_skip(actor: Actor, ops: Seq<Op>, intent: Intent<ActorPhase>)
    requires
        !actor.spec.live,
        init_decision(actor, Probe::Exists, ops, intent),
    ensures
        forall|k: int| 0 <= k < ops.len() ==> !is_build_resource(ops[k]),
        intent == Intent::TransitionTo(ActorPhase::Deploying),
        ops[0] matches Op::PatchActorStatus(st) && st.is_running(),
{
}

/// Build required: a live actor is always sent to building, whatever the
/// registry probe observed — even when the image already exists.
pub proof fn lemma_live_always_builds(
    actor: Actor,
    probe: Probe,
    ops: Seq<Op>,
    intent: Intent<ActorPhase>,
)
    requires
        actor.spec.live,
        init_decision(actor, probe, ops, intent),
    ensures
        intent == Intent::TransitionTo(ActorPhase::Building),
        ops[0] matches Op::PatchActorStatus(st) && st.is_building(),
{
}

} // verus!
