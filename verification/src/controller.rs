//! The reconciliation controller for playbooks: the finalizer lifecycle,
//! the per-pass dispatch on the current status, and the requeue policy.
//! The design is level-triggered: correctness does not depend on seeing
//! every change event, only on being re-invoked — the fixed requeue is
//! the safety net against missed or coalesced events.

use vstd::prelude::*;
use vstd::string::StringExecFns;

use crate::credential::{Credential, Kind};
use crate::error::Error;
use crate::model::{ActorSpec, Playbook};
use crate::perform::{refresh, refresh_ops};
use crate::resolver::{appended_solution, fetch_ids, fetches};
use crate::model::{actor_id, actor_like, partner_id, read_partner};
use crate::status::{PlaybookPhase, PlaybookState};
use crate::synchronizer::Op;

verus! {

/// How long a pass waits for the next reconciliation when no events
/// arrive.
pub const DEFAULT_REQUEUE_SECS: u64 = 120;

/// The fixed backoff after a failed reconciliation.
pub const ERROR_REQUEUE_SECS: u64 = 60;

/// What the controller does after a pass: requeue the object after a
/// delay in seconds (zero requeues immediately), or wait for the next
/// change event.
#[derive(Clone, Copy, PartialEq, Eq, Structural, Debug)]
pub enum Action {
    Requeue(u64),
    AwaitChange,
}

/// The error handler: every task-level error is logged and converted into
/// "no transition, requeue after the fixed backoff"; no error is treated
/// as permanently fatal.
pub fn error_policy(playbook: &Playbook, err: &Error) -> (r: Action)
    ensures
        r == Action::Requeue(ERROR_REQUEUE_SECS),
{
    Action::Requeue(ERROR_REQUEUE_SECS)
}

/// The fixed registry credential the init pass installs for builds.
pub open spec fn default_registry_credential(c: Credential) -> bool {
    &&& c.kind == Kind::Image
    &&& c.host@ == "harbor.amp-system.svc.cluster.local"@
    &&& c.username@ == "admin"@
    &&& c.password@ == "Harbor12345"@
}

/// The mutations of the init pass: create the playbook's namespace,
/// install the registry credential as a secret, patch it into the default
/// service account, and move the status to solving.
pub open spec fn init_pass_ops(pb: Playbook, ops: Seq<Op>) -> bool {
    &&& ops.len() == 4
    &&& ops[0] == Op::CreateNamespace(pb.spec.namespace)
    &&& (ops[1] matches Op::CreateSecret { namespace, credential } && namespace
        == pb.spec.namespace && default_registry_credential(credential))
    &&& (ops[2] matches Op::PatchServiceAccount { namespace, account, credential } && namespace
        == pb.spec.namespace && account@ == "default"@ && default_registry_credential(credential))
    &&& (ops[3] matches Op::PatchPlaybookStatus(st) && st.is_solving() && !st.ready)
}

/// The mutations of the solve pass: when nothing is left to fetch, a
/// single status patch to running; otherwise a single wholesale actors
/// patch appending one resolved actor per fetched identity.
pub open spec fn solve_pass_ops(pb: Playbook, ops: Seq<Op>) -> bool {
    if fetch_ids(pb.spec.actors@).is_empty() {
        &&& ops.len() == 1
        &&& (ops[0] matches Op::PatchPlaybookStatus(st) && st.is_running() && st.ready
            && st.reason@ == "AutoRun"@ && st.message is None)
    } else {
        &&& ops.len() == 1
        &&& (ops[0] matches Op::PatchActors(list) && appended_solution(pb.spec.actors@, list@))
    }
}

/// One reconciliation pass, dispatched on the current status: a missing
/// status is initialized to pending and requeued immediately; otherwise
/// the pass of the current phase runs and the object is requeued after
/// the fixed interval.
pub open spec fn reconcile_pass(pb: Playbook, exist: Seq<bool>, ops: Seq<Op>, action: Action) -> bool {
    if pb.status is None {
        &&& ops.len() == 1
        &&& (ops[0] matches Op::PatchPlaybookStatus(st) && st.is_pending() && !st.ready)
        &&& action == Action::Requeue(0)
    } else if pb.status->0.is_pending() {
        init_pass_ops(pb, ops) && action == Action::Requeue(DEFAULT_REQUEUE_SECS)
    } else if pb.status->0.is_solving() {
        solve_pass_ops(pb, ops) && action == Action::Requeue(DEFAULT_REQUEUE_SECS)
    } else {
        refresh_ops(pb.spec.actors@, exist, ops) && action == Action::Requeue(
            DEFAULT_REQUEUE_SECS,
        )
    }
}

impl Playbook {
    /// One reconciliation pass over this playbook, from its current
    /// status and the observed existence of each actor's object.
    pub fn reconcile(&self, exist: &Vec<bool>) -> (r: (Vec<Op>, Action))
        requires
            exist@.len() == self.spec.actors@.len(),
        ensures
            reconcile_pass(*self, exist@, r.0@, r.1),
    {
        match &self.status {
            Option::None => {
                let mut ops: Vec<Op> = Vec::new();
                ops.push(Op::PatchPlaybookStatus(PlaybookState::pending()));
                (ops, Action::Requeue(0))
            },
            Option::Some(s) => {
                let ops = match s.phase {
                    PlaybookPhase::Pending => self.init(),
                    PlaybookPhase::Solving => self.solve(),
                    PlaybookPhase::Running => self.run(exist),
                };
                (ops, Action::Requeue(DEFAULT_REQUEUE_SECS))
            },
        }
    }

    /// The init pass: creates the namespace, installs the registry
    /// credential and moves the playbook to solving.
    pub fn init(&self) -> (r: Vec<Op>)
        ensures
            init_pass_ops(*self, r@),
    {
        let mut ops: Vec<Op> = Vec::new();
        ops.push(Op::CreateNamespace(self.spec.namespace.clone()));
        let credential = Credential::basic(
            Kind::Image,
            String::from_str("harbor.amp-system.svc.cluster.local"),
            String::from_str("admin"),
            String::from_str("Harbor12345"),
        );
        ops.push(
            Op::CreateSecret { namespace: self.spec.namespace.clone(), credential },
        );
        let credential = Credential::basic(
            Kind::Image,
            String::from_str("harbor.amp-system.svc.cluster.local"),
            String::from_str("admin"),
            String::from_str("Harbor12345"),
        );
        ops.push(
            Op::PatchServiceAccount {
                namespace: self.spec.namespace.clone(),
                account: String::from_str("default"),
                credential,
            },
        );
        ops.push(Op::PatchPlaybookStatus(PlaybookState::solving()));
        ops
    }

    /// The solve pass: fetches the missing partner dependencies; when the
    /// closure is already complete, moves the playbook to running.
    #[verifier::loop_isolation(false)]
    #[verifier::rlimit(50)]
    pub fn solve(&self) -> (r: Vec<Op>)
        ensures
            solve_pass_ops(*self, r@),
    {
        let fs = fetches(&self.spec.actors);
        let mut ops: Vec<Op> = Vec::new();
        if fs.len() == 0 {
            ops.push(
                Op::PatchPlaybookStatus(PlaybookState::running(true, "AutoRun", Option::None)),
            );
            return ops;
        }
        let mut list: Vec<ActorSpec> = Vec::new();
        let mut i: usize = 0;
        while i < self.spec.actors.len()
            invariant
                i <= self.spec.actors@.len(),
                list@.len() == i,
                forall|k: int| 0 <= k < i ==> actor_like(list@[k], self.spec.actors@[k]),
            decreases self.spec.actors@.len() - i,
        {
            list.push(self.spec.actors[i].clone());
            i = i + 1;
        }
        let ghost base = self.spec.actors@.len() as int;
        let mut extra: Vec<ActorSpec> = Vec::new();
        let mut k: usize = 0;
        while k < fs.len()
            invariant
                k <= fs@.len(),
                extra@.len() == k,
                forall|k2: int|
                    0 <= k2 < k ==> extra@[k2].partners is None && actor_id(extra@[k2])
                        == partner_id(fs@[k2]),
            decreases fs@.len() - k,
        {
            extra.push(read_partner(&fs[k]));
            k = k + 1;
        }
        let ghost extras = extra@;
        let ghost prefix = list@;
        list.append(&mut extra);
        proof {
            assert(list@ == prefix + extras);
            assert forall|i2: int| base <= i2 < list@.len() implies {
                &&& list@[i2].partners is None
                &&& fetch_ids(self.spec.actors@).contains(actor_id(list@[i2]))
            } by {
                assert(list@[i2] == extras[i2 - base]);
                assert(fetch_ids(self.spec.actors@).contains(partner_id(fs@[i2 - base])));
            }
            assert forall|id: crate::model::SourceId|
                fetch_ids(self.spec.actors@).contains(id) implies exists|i2: int|
                base <= i2 < list@.len() && actor_id(list@[i2]) == id by {
                let t = choose|t: int| 0 <= t < fs@.len() && partner_id(fs@[t]) == id;
                assert(list@[base + t] == extras[t]);
                assert(actor_id(list@[base + t]) == id);
            }
            assert(appended_solution(self.spec.actors@, list@));
        }
        ops.push(Op::PatchActors(list));
        ops
    }

    /// The run pass: refreshes every actor object, updating the existing
    /// ones and creating the missing ones.
    pub fn run(&self, exist: &Vec<bool>) -> (r: Vec<Op>)
        requires
            exist@.len() == self.spec.actors@.len(),
        ensures
            refresh_ops(self.spec.actors@, exist@, r@),
    {
        refresh(&self.spec.actors, exist)
    }

    /// The cleanup pass, invoked when deletion is requested while the
    /// finalizer is present. The teardown of the sub-resources the passes
    /// created is not enumerated here yet; the pass releases the object
    /// and waits for the store to proceed with deletion.
    pub fn cleanup(&self) -> (r: (Vec<Op>, Action))
        ensures
            r.0@ == Seq::<Op>::empty(),
            r.1 == Action::AwaitChange,
    {
        (Vec::new(), Action::AwaitChange)
    }
}

/// The reconciler called for every playbook event. A playbook with no
/// actors is rejected with a precondition error before anything else
/// happens. Deletion runs cleanup and releases the finalizer; otherwise
/// the finalizer is attached when absent and the status-dispatched pass
/// runs.
pub fn reconcile(playbook: &Playbook, exist: &Vec<bool>) -> (r: Result<(Vec<Op>, Action), Error>)
    requires
        exist@.len() == playbook.spec.actors@.len(),
    ensures
        playbook.spec.actors@.len() == 0 <==> r is Err,
        r matches Err(e) ==> e is Precondition,
        r matches Ok(d) ==> {
            &&& (playbook.deletion_requested && playbook.finalizer_present) ==> d.0@ == seq![
                Op::RemoveFinalizer,
            ] && d.1 == Action::AwaitChange
            &&& (playbook.deletion_requested && !playbook.finalizer_present) ==> d.0@
                == Seq::<Op>::empty() && d.1 == Action::AwaitChange
            &&& (!playbook.deletion_requested && playbook.finalizer_present) ==> reconcile_pass(
                *playbook,
                exist@,
                d.0@,
                d.1,
            )
            &&& (!playbook.deletion_requested && !playbook.finalizer_present) ==> d.0@.len() >= 1
                && d.0@[0] == Op::AddFinalizer && reconcile_pass(
                *playbook,
                exist@,
                d.0@.skip(1),
                d.1,
            )
        },
{
    if playbook.spec.actors.len() == 0 {
        return Result::Err(Error::Precondition);
    }
    if playbook.deletion_requested {
        if playbook.finalizer_present {
            let (mut ops, action) = playbook.cleanup();
            ops.push(Op::RemoveFinalizer);
            proof {
                assert(ops@ =~= seq![Op::RemoveFinalizer]);
            }
            return Result::Ok((ops, action));
        }
        return Result::Ok((Vec::new(), Action::AwaitChange));
    }
    let (mut inner, action) = playbook.reconcile(exist);
    if playbook.finalizer_present {
        Result::Ok((inner, action))
    } else {
        let ghost inner_ops = inner@;
        let mut ops: Vec<Op> = Vec::new();
        ops.push(Op::AddFinalizer);
        ops.append(&mut inner);
        proof {
            assert(ops@.skip(1) =~= inner_ops);
        }
        Result::Ok((ops, action))
    }
}

/// Idempotence of the status-gated passes: each pass that patches the
/// status moves it to a phase whose own gate no longer holds, so a second
/// reconciliation of the unchanged result never repeats the first pass's
/// mutations. (The run pass refreshes by design on every pass and patches
/// no status.)
pub proof fn lemma_reconcile_idempotent(
    pb: Playbook,
    exist: Seq<bool>,
    ops: Seq<Op>,
    action: Action,
    st: PlaybookState,
    next: Playbook,
)
    requires
        reconcile_pass(pb, exist, ops, action),
        exists|k: int| 0 <= k < ops.len() && ops[k] == Op::PatchPlaybookStatus(st),
        next.status == Option::Some(st),
        next.spec == pb.spec,
    ensures
        pb.status is None ==> st.is_pending(),
        (pb.status matches Some(s) && s.is_pending()) ==> st.is_solving() && !(
        next.status->0.is_pending()),
        (pb.status matches Some(s) && s.is_solving()) ==> st.is_running() && !(
        next.status->0.is_solving()) && fetch_ids(pb.spec.actors@).is_empty(),
{
    let k = choose|k: int| 0 <= k < ops.len() && ops[k] == Op::PatchPlaybookStatus(st);
    if pb.status is Some && pb.status->0.is_solving() {
        if !fetch_ids(pb.spec.actors@).is_empty() {
            assert(ops[0] matches Op::PatchActors(_));
            assert(false);
        }
    }
}

} // verus!
