//! The build dispatch strategies. A builder decides between creating a
//! build resource and updating it in place, from whether the resource
//! already exists — the exists-then-branch discipline that keeps repeated
//! dispatch from ever creating twice.

use vstd::prelude::*;
use vstd::string::StringExecFns;

use crate::model::Actor;
use crate::resources::{job_for, BuildJob};
use crate::synchronizer::{is_build_create, is_build_update, Op};

verus! {

/// The dispatch discipline every builder strategy obeys: update in place
/// when the build resource already exists, create it otherwise.
pub open spec fn dispatch_shape(exists: bool, op: Op) -> bool {
    &&& exists ==> is_build_update(op)
    &&& !exists ==> is_build_create(op)
}

/// The lifecycle builder strategy: runs the fixed build pipeline for its
/// actor in a build job.
pub struct LifecycleBuilder {
    pub actor: Actor,
}

impl LifecycleBuilder {
    pub fn new(actor: Actor) -> (r: LifecycleBuilder)
        ensures
            r.actor == actor,
    {
        LifecycleBuilder { actor }
    }

    /// Dispatches the build: updates the actor's build job in place when
    /// it already exists, creates it otherwise.
    pub fn build(&self, exists: bool) -> (r: Op)
        ensures
            dispatch_shape(exists, r),
            exists ==> (r matches Op::UpdateJob(j) && job_for(j, self.actor.spec)),
            !exists ==> (r matches Op::CreateJob(j) && job_for(j, self.actor.spec)),
    {
        let job = BuildJob {
            name: self.actor.spec.name.clone().concat("-builder"),
            actor: self.actor.spec.clone(),
        };
        if exists {
            Op::UpdateJob(job)
        } else {
            Op::CreateJob(job)
        }
    }
}

/// Exists-then-branch: two build dispatches in succession for the same
/// actor — the second after the store holds the resource the first one
/// materialized — create at most once, and never twice; when the resource
/// was absent at first, exactly the first dispatch creates and the second
/// updates in place.
pub proof fn lemma_dispatch_creates_once(first_exists: bool, op1: Op, op2: Op)
    requires
        dispatch_shape(first_exists, op1),
        dispatch_shape(true, op2),
    ensures
        !(is_build_create(op1) && is_build_create(op2)),
        is_build_update(op2),
        !first_exists ==> is_build_create(op1) && is_build_update(op2),
        first_exists ==> is_build_update(op1),
{
}

} // verus!
