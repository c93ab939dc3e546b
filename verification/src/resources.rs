//! Typed builders for the external resources a reconciliation pass
//! materializes: the declarative image resource consumed by the image
//! building operator, and the wholesale actor-list patch. Required fields
//! are validated at construction time, returning a typed error rather
//! than a late runtime failure.

use vstd::prelude::*;
use vstd::string::StringExecFns;

use crate::error::Error;
use crate::model::{actor_like, ActorSpec, Playbook};
use crate::synchronizer::Op;

verus! {

/// The registry every image resource publishes into.
pub open spec fn registry_prefix() -> Seq<char> {
    "harbor.amp-system.svc.cluster.local/library/"@
}

/// A declarative image resource: built from an actor's source coordinates
/// and consumed by the external image-building operator.
#[derive(Debug)]
pub struct ImageResource {
    /// Object name, derived from the actor's name and pinned commit.
    pub name: String,
    /// The image tag the build publishes.
    pub tag: String,
    /// The service account the build runs under.
    pub service_account: String,
    /// The cluster builder that performs the build.
    pub builder_name: String,
    pub builder_kind: String,
    /// Source coordinates.
    pub git_url: String,
    pub git_revision: String,
    pub sub_path: String,
}

/// A build job running the fixed build pipeline for one actor.
#[derive(Debug)]
pub struct BuildJob {
    /// Object name, derived from the actor's name.
    pub name: String,
    /// The actor the job builds.
    pub actor: ActorSpec,
}

/// The image resource is the one this actor's build must materialize.
pub open spec fn image_for(img: ImageResource, a: ActorSpec) -> bool {
    &&& img.name@ == a.name@ + "-"@ + a.commit@
    &&& img.tag@ == registry_prefix() + a.image@ + ":"@ + a.commit@
    &&& img.service_account@ == "default"@
    &&& img.builder_name@ == "amp-default-cluster-builder"@
    &&& img.builder_kind@ == "ClusterBuilder"@
    &&& img.git_url@ == a.repository@
    &&& img.git_revision@ == a.commit@
    &&& img.sub_path@ == a.path@
}

/// The build job is the one that builds this actor.
pub open spec fn job_for(job: BuildJob, a: ActorSpec) -> bool {
    &&& job.name@ == a.name@ + "-builder"@
    &&& actor_like(job.actor, a)
}

/// The image-resource builder strategy: materializes the declarative
/// image resource for an actor in the playbook's namespace, updating it
/// in place when it already exists and creating it otherwise.
///
/// Fails with a serialization error exactly when the playbook carries no
/// namespace to place the resource in.
pub fn build(playbook: &Playbook, actor: &ActorSpec, exists: bool) -> (r: Result<Op, Error>)
    ensures
        playbook.spec.namespace@.len() == 0 <==> r is Err,
        r matches Err(e) ==> e is Serialization,
        r matches Ok(op) ==> {
            &&& exists ==> (op matches Op::UpdateImage { namespace, image } && namespace@
                == playbook.spec.namespace@ && image_for(image, *actor))
            &&& !exists ==> (op matches Op::CreateImage { namespace, image } && namespace@
                == playbook.spec.namespace@ && image_for(image, *actor))
        },
{
    if playbook.spec.namespace.as_str().is_empty() {
        return Result::Err(Error::Serialization);
    }
    let image = ImageResource {
        name: actor.name.clone().concat("-").concat(actor.commit.as_str()),
        tag: String::from_str("harbor.amp-system.svc.cluster.local/library/").concat(
            actor.image.as_str(),
        ).concat(":").concat(actor.commit.as_str()),
        service_account: String::from_str("default"),
        builder_name: String::from_str("amp-default-cluster-builder"),
        builder_kind: String::from_str("ClusterBuilder"),
        git_url: actor.repository.clone(),
        git_revision: actor.commit.clone(),
        sub_path: actor.path.clone(),
    };
    let namespace = playbook.spec.namespace.clone();
    if exists {
        Result::Ok(Op::UpdateImage { namespace, image })
    } else {
        Result::Ok(Op::CreateImage { namespace, image })
    }
}

/// Appends one actor to the playbook's actor list, as the wholesale
/// replacement patch the store's merge semantics expect.
///
/// Fails with a serialization error exactly when the playbook carries no
/// namespace to address the patch to.
pub fn add(playbook: &Playbook, actor: ActorSpec) -> (r: Result<Op, Error>)
    ensures
        playbook.spec.namespace@.len() == 0 <==> r is Err,
        r matches Err(e) ==> e is Serialization,
        r matches Ok(op) ==> (op matches Op::PatchActors(list) && {
            &&& list@.len() == playbook.spec.actors@.len() + 1
            &&& forall|i: int|
                0 <= i < playbook.spec.actors@.len() ==> actor_like(
                    list@[i],
                    playbook.spec.actors@[i],
                )
            &&& list@[playbook.spec.actors@.len() as int] == actor
        }),
{
    if playbook.spec.namespace.as_str().is_empty() {
        return Result::Err(Error::Serialization);
    }
    let mut actors: Vec<ActorSpec> = Vec::new();
    let mut i: usize = 0;
    while i < playbook.spec.actors.len()
        invariant
            i <= playbook.spec.actors@.len(),
            actors@.len() == i,
            forall|k: int| 0 <= k < i ==> actor_like(actors@[k], playbook.spec.actors@[k]),
        decreases playbook.spec.actors@.len() - i,
    {
        actors.push(playbook.spec.actors[i].clone());
        i = i + 1;
    }
    actors.push(actor);
    Result::Ok(Op::PatchActors(actors))
}

} // verus!
