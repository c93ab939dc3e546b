//! The performing state of the playbook workflow: while a playbook is
//! running, every reconciliation pass refreshes its actors in the store,
//! updating the ones that exist and creating the ones that do not.

use vstd::prelude::*;

use crate::error::Error;
use crate::model::{actor_like, ActorSpec, Playbook};
use crate::status::PlaybookPhase;
use crate::synchronizer::Op;
use crate::workflow::Intent;

verus! {

/// The refresh a pass requests: one mutation per actor, an in-place
/// update where the actor object exists and a create where it does not.
pub open spec fn refresh_ops(actors: Seq<ActorSpec>, exist: Seq<bool>, ops: Seq<Op>) -> bool {
    &&& ops.len() == actors.len()
    &&& forall|i: int|
        0 <= i < actors.len() ==> (if exist[i] {
            ops[i] matches Op::UpdateActor(a) && actor_like(a, actors[i])
        } else {
            ops[i] matches Op::CreateActor(a) && actor_like(a, actors[i])
        })
}

/// Computes the refresh mutations for the given actors, from the observed
/// existence of each actor's object in the store.
pub fn refresh(actors: &Vec<ActorSpec>, exist: &Vec<bool>) -> (r: Vec<Op>)
    requires
        exist@.len() == actors@.len(),
    ensures
        refresh_ops(actors@, exist@, r@),
{
    let mut ops: Vec<Op> = Vec::new();
    let mut i: usize = 0;
    while i < actors.len()
        invariant
            exist@.len() == actors@.len(),
            i <= actors@.len(),
            ops@.len() == i,
            forall|k: int|
                0 <= k < i ==> (if exist@[k] {
                    ops@[k] matches Op::UpdateActor(a) && actor_like(a, actors@[k])
                } else {
                    ops@[k] matches Op::CreateActor(a) && actor_like(a, actors@[k])
                }),
        decreases actors@.len() - i,
    {
        if exist[i] {
            ops.push(Op::UpdateActor(actors[i].clone()));
        } else {
            ops.push(Op::CreateActor(actors[i].clone()));
        }
        i = i + 1;
    }
    ops
}

/// The state a running playbook is handled in.
pub struct PerformingState;

impl PerformingState {
    /// Handles the performing state: runs the perform task when its
    /// precondition holds; the playbook stays, waiting for the next
    /// reconciliation.
    pub fn handle(&self, playbook: &Playbook, exist: &Vec<bool>) -> (r: (
        Vec<Op>,
        Intent<PlaybookPhase>,
    ))
        requires
            exist@.len() == playbook.spec.actors@.len(),
        ensures
            r.1 is Stay,
            !PerformTask::spec_matches(*playbook) ==> r.0@ == Seq::<Op>::empty(),
            PerformTask::spec_matches(*playbook) ==> refresh_ops(
                playbook.spec.actors@,
                exist@,
                r.0@,
            ),
    {
        let task = PerformTask::new();
        if task.matches(playbook) {
            match task.execute(playbook, exist) {
                Result::Ok(ops) => (ops, Intent::Stay),
                Result::Err(_) => (Vec::new(), Intent::Stay),
            }
        } else {
            (Vec::new(), Intent::Stay)
        }
    }
}

/// The task that refreshes a running playbook's actors.
pub struct PerformTask;

impl PerformTask {
    /// The task's precondition: the playbook reports running.
    pub open spec fn spec_matches(pb: Playbook) -> bool {
        pb.status matches Some(s) && s.is_running()
    }

    pub fn new() -> (r: PerformTask) {
        PerformTask
    }

    /// Pure precondition over the current status; false means the task is
    /// skipped with no side effects.
    pub fn matches(&self, playbook: &Playbook) -> (r: bool)
        ensures
            r == Self::spec_matches(*playbook),
    {
        match &playbook.status {
            Option::Some(s) => s.phase == PlaybookPhase::Running,
            Option::None => false,
        }
    }

    /// Executes the refresh for the playbook's actors.
    pub fn execute(&self, playbook: &Playbook, exist: &Vec<bool>) -> (r: Result<Vec<Op>, Error>)
        requires
            exist@.len() == playbook.spec.actors@.len(),
        ensures
            r is Ok,
            r matches Ok(ops) ==> refresh_ops(playbook.spec.actors@, exist@, ops@),
    {
        self.run(playbook, exist)
    }

    /// Walks the actor list once, choosing update or create per actor from
    /// the observed existence of its object.
    pub fn run(&self, playbook: &Playbook, exist: &Vec<bool>) -> (r: Result<Vec<Op>, Error>)
        requires
            exist@.len() == playbook.spec.actors@.len(),
        ensures
            r is Ok,
            r matches Ok(ops) ==> refresh_ops(playbook.spec.actors@, exist@, ops@),
    {
        Result::Ok(refresh(&playbook.spec.actors, exist))
    }
}

} // verus!
