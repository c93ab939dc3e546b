//! The resource synchronizer interface, as data. A reconciliation pass
//! computes the store mutations it wants — creates, in-place updates and
//! server-side-mergeable patches — and the surrounding program performs
//! them against the object store. Status patches touch only the status
//! sub-resource. The synchronizer does not enforce idempotence itself:
//! callers decide exists-then-branch before choosing create or update.

use vstd::prelude::*;

use crate::credential::Credential;
use crate::model::ActorSpec;
use crate::resources::{BuildJob, ImageResource};
use crate::status::{ActorState, PlaybookState};

verus! {

/// One store mutation requested by a reconciliation pass.
#[derive(Debug)]
pub enum Op {
    /// Create the playbook's namespace.
    CreateNamespace(String),
    /// Create the registry-credential secret in the namespace.
    CreateSecret { namespace: String, credential: Credential },
    /// Patch the credential into a service account of the namespace.
    PatchServiceAccount { namespace: String, account: String, credential: Credential },
    /// Patch the playbook's status sub-resource.
    PatchPlaybookStatus(PlaybookState),
    /// Replace the playbook's actor list wholesale with the given one.
    PatchActors(Vec<ActorSpec>),
    /// Create an actor object for the given spec.
    CreateActor(ActorSpec),
    /// Update the actor object of the given spec in place.
    UpdateActor(ActorSpec),
    /// Patch an actor's status sub-resource.
    PatchActorStatus(ActorState),
    /// Create a build job.
    CreateJob(BuildJob),
    /// Update an existing build job in place.
    UpdateJob(BuildJob),
    /// Create a declarative image resource in the namespace.
    CreateImage { namespace: String, image: ImageResource },
    /// Update an existing image resource in the namespace.
    UpdateImage { namespace: String, image: ImageResource },
    /// Attach the deletion-guard finalizer token to the playbook.
    AddFinalizer,
    /// Remove the finalizer token, letting deletion proceed.
    RemoveFinalizer,
}

/// The mutation materializes a build resource (job or image).
pub open spec fn is_build_resource(op: Op) -> bool {
    ||| op matches Op::CreateJob(_)
    ||| op matches Op::UpdateJob(_)
    ||| op matches Op::CreateImage { .. }
    ||| op matches Op::UpdateImage { .. }
}

/// The mutation creates a build resource anew.
pub open spec fn is_build_create(op: Op) -> bool {
    ||| op matches Op::CreateJob(_)
    ||| op matches Op::CreateImage { .. }
}

/// The mutation updates a build resource in place.
pub open spec fn is_build_update(op: Op) -> bool {
    ||| op matches Op::UpdateJob(_)
    ||| op matches Op::UpdateImage { .. }
}

/// The mutation creates an actor object.
pub open spec fn is_actor_create(op: Op) -> bool {
    op matches Op::CreateActor(_)
}

} // verus!
