//! The playbook service: turns a user's request into a playbook resource,
//! with a fresh identifier as its name and the namespace derived
//! deterministically from that identifier. The surrounding program hands
//! the resource to the store and serves the read paths.

use vstd::prelude::*;
use vstd::string::StringExecFns;

use crate::model::{ActorSpec, Playbook, PlaybookSpec};

verus! {

/// Relies on uuid::Uuid::new_v4 and Uuid's Display rendering: a fresh
/// random identifier in hyphenated form, 36 ASCII characters long.
/// Nothing more is promised of a random value.
#[verifier::external_body]
fn fresh_id() -> (r: String)
    ensures
        r@.len() == 36,
{
    uuid::Uuid::new_v4().to_string()
}

pub struct PlaybookService;

impl PlaybookService {
    /// Creates the playbook resource for a user's request: the submitted
    /// manifest as its single initial actor, a fresh identifier as its
    /// name, and the namespace derived from that identifier. The resource
    /// starts without a status; the first reconciliation initializes it.
    pub fn create(title: &String, description: &String, actor: ActorSpec) -> (r: Playbook)
        ensures
            r.name@.len() == 36,
            r.spec.namespace@ == "amp-"@ + r.name@,
            r.spec.title@ == title@,
            r.spec.description@ == description@,
            r.spec.actors@.len() == 1,
            r.spec.actors@[0] == actor,
            r.spec.sync is None,
            r.status is None,
            !r.deletion_requested,
            !r.finalizer_present,
    {
        let id = fresh_id();
        let namespace = String::from_str("amp-").concat(id.as_str());
        let mut actors: Vec<ActorSpec> = Vec::new();
        actors.push(actor);
        Playbook {
            name: id,
            spec: PlaybookSpec {
                title: title.clone(),
                description: description.clone(),
                namespace,
                actors,
                sync: Option::None,
            },
            status: Option::None,
            deletion_requested: false,
            finalizer_present: false,
        }
    }
}

} // verus!
