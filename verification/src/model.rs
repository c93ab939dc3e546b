//! The domain objects: Playbooks, the Actors they aggregate, and the
//! Partner references through which actors declare their dependencies.

use vstd::prelude::*;
use vstd::string::StringExecFns;

use crate::status::{ActorState, PlaybookState};

verus! {

/// A dependency edge: the repository, revision and subpath of another
/// buildable unit, together with a logical name. Two partners denote the
/// same unit exactly when their (repository, reference, path) triples are
/// equal; the name takes no part in identity.
#[derive(Debug)]
pub struct Partner {
    pub name: String,
    pub repository: String,
    pub reference: String,
    pub path: String,
}

/// One buildable and deployable unit belonging to a Playbook.
#[derive(Debug)]
pub struct ActorSpec {
    /// Unique within the owning playbook's actor set.
    pub name: String,
    pub description: String,
    /// The image reference the build publishes and the deploy consumes.
    pub image: String,
    /// Source repository URL.
    pub repository: String,
    /// Revision (branch or tag reference) within the repository.
    pub reference: String,
    /// Subpath of the unit inside the repository.
    pub path: String,
    /// The commit the build pins.
    pub commit: String,
    /// A live actor always rebuilds, regardless of what the registry holds.
    pub live: bool,
    /// Dependencies this actor declares, if any.
    pub partners: Option<Vec<Partner>>,
}

/// The normalized identity of a buildable unit: its resolved
/// (repository, revision, subpath) triple.
pub type SourceId = (Seq<char>, Seq<char>, Seq<char>);

/// The identity of a partner: its (repository, revision, subpath) triple.
pub open spec fn partner_id(p: Partner) -> SourceId {
    (p.repository@, p.reference@, p.path@)
}

/// The identity of an actor, comparable with partner identities.
pub open spec fn actor_id(a: ActorSpec) -> SourceId {
    (a.repository@, a.reference@, a.path@)
}

impl Clone for Partner {
    fn clone(&self) -> (r: Self)
        ensures
            r == *self,
    {
        Partner {
            name: self.name.clone(),
            repository: self.repository.clone(),
            reference: self.reference.clone(),
            path: self.path.clone(),
        }
    }
}

fn clone_partners(ps: &Vec<Partner>) -> (r: Vec<Partner>)
    ensures
        r@ == ps@,
{
    let mut r: Vec<Partner> = Vec::new();
    let mut i: usize = 0;
    while i < ps.len()
        invariant
            i <= ps.len(),
            r@ == ps@.subrange(0, i as int),
        decreases ps.len() - i,
    {
        r.push(ps[i].clone());
        i = i + 1;
        proof {
            assert(r@ =~= ps@.subrange(0, i as int));
        }
    }
    proof {
        assert(ps@.subrange(0, ps@.len() as int) =~= ps@);
    }
    r
}

/// Two partners carry the same content.
pub open spec fn partner_like(a: Partner, b: Partner) -> bool {
    &&& a.name@ == b.name@
    &&& a.repository@ == b.repository@
    &&& a.reference@ == b.reference@
    &&& a.path@ == b.path@
}

/// Two partner lists carry the same content, element by element.
pub open spec fn partners_like(a: Option<Vec<Partner>>, b: Option<Vec<Partner>>) -> bool {
    match (a, b) {
        (Option::None, Option::None) => true,
        (Option::Some(x), Option::Some(y)) => {
            &&& x@.len() == y@.len()
            &&& forall|i: int| 0 <= i < x@.len() ==> partner_like(x@[i], y@[i])
        },
        _ => false,
    }
}

/// Two actor specs carry the same content; in particular they have the
/// same identity and declare content-equal partners.
pub open spec fn actor_like(a: ActorSpec, b: ActorSpec) -> bool {
    &&& a.name@ == b.name@
    &&& a.description@ == b.description@
    &&& a.image@ == b.image@
    &&& a.repository@ == b.repository@
    &&& a.reference@ == b.reference@
    &&& a.path@ == b.path@
    &&& a.commit@ == b.commit@
    &&& a.live == b.live
    &&& partners_like(a.partners, b.partners)
}

impl Clone for ActorSpec {
    fn clone(&self) -> (r: Self)
        ensures
            r.name == self.name,
            r.description == self.description,
            r.image == self.image,
            r.repository == self.repository,
            r.reference == self.reference,
            r.path == self.path,
            r.commit == self.commit,
            r.live == self.live,
            partners_like(r.partners, self.partners),
            actor_like(r, *self),
            actor_id(r) == actor_id(*self),
    {
        ActorSpec {
            name: self.name.clone(),
            description: self.description.clone(),
            image: self.image.clone(),
            repository: self.repository.clone(),
            reference: self.reference.clone(),
            path: self.path.clone(),
            commit: self.commit.clone(),
            live: self.live,
            partners: match &self.partners {
                Option::Some(ps) => Option::Some(clone_partners(ps)),
                Option::None => Option::None,
            },
        }
    }
}

/// Resolves a fetched partner reference into a full actor spec.
///
/// Richer metadata for the partner is not available at resolution time, so
/// description, image and commit are filled with fixed fallback values;
/// the identity fields are carried over unchanged, and the resolved actor
/// declares no partners of its own.
pub fn read_partner(partner: &Partner) -> (r: ActorSpec)
    ensures
        r.name == partner.name,
        r.repository == partner.repository,
        r.reference == partner.reference,
        r.path == partner.path,
        actor_id(r) == partner_id(*partner),
        r.partners is None,
        !r.live,
        r.description@ == "A simple NodeJs example app"@,
        r.image@ == "amp-example-nodejs"@,
        r.commit@ == "285ef2bc98fb6b3db46a96b6a750fad2d0c566b5"@,
{
    ActorSpec {
        name: partner.name.clone(),
        description: String::from_str("A simple NodeJs example app"),
        image: String::from_str("amp-example-nodejs"),
        repository: partner.repository.clone(),
        reference: partner.reference.clone(),
        path: partner.path.clone(),
        commit: String::from_str("285ef2bc98fb6b3db46a96b6a750fad2d0c566b5"),
        live: false,
        partners: Option::None,
    }
}

/// The desired state of a playbook: what to run, and where.
#[derive(Debug)]
pub struct PlaybookSpec {
    pub title: String,
    pub description: String,
    /// Derived deterministically from the playbook's identifier when the
    /// playbook is created; immutable once assigned.
    pub namespace: String,
    /// The ordered actor list. It grows only through the synchronizer's
    /// patch path, which replaces it wholesale on each append.
    pub actors: Vec<ActorSpec>,
    /// Optional sync configuration; carried through, never read here.
    pub sync: Option<String>,
}

/// The aggregate root: a set of actors to bring to a running state
/// together, plus the store-level metadata the controller reads.
#[derive(Debug)]
pub struct Playbook {
    /// The object's name in the store: the playbook's identifier.
    pub name: String,
    pub spec: PlaybookSpec,
    /// The status sub-resource; `None` on a freshly created object.
    pub status: Option<PlaybookState>,
    /// Deletion of the object has been requested in the store.
    pub deletion_requested: bool,
    /// The deletion-guard finalizer token is attached to the object.
    pub finalizer_present: bool,
}

/// One actor as the workflow engine observes it: its spec and its status
/// sub-resource, `None` on a freshly created object.
#[derive(Debug)]
pub struct Actor {
    pub spec: ActorSpec,
    pub status: Option<ActorState>,
}

/// A reference to a playbook object, for event recording.
#[derive(Debug)]
pub struct Reference {
    pub name: String,
    pub namespace: String,
}

impl Playbook {
    /// The reference under which events about this playbook are recorded.
    pub fn reference(&self) -> (r: Reference)
        ensures
            r.name == self.name,
            r.namespace == self.spec.namespace,
    {
        Reference { name: self.name.clone(), namespace: self.spec.namespace.clone() }
    }
}

} // verus!
