//! The error taxonomy of the reconciliation engine. These are kinds, not
//! carriers of foreign payloads: the surrounding program maps each failure
//! of the store, the resolver or the registry onto the matching kind
//! before handing it back to the engine.

use vstd::prelude::*;

verus! {

#[derive(Debug)]
pub enum Error {
    /// A failure talking to the object store. Transient; retried after the
    /// controller's fixed backoff.
    Store,
    /// Wraps a reconciliation error that occurred inside the finalizer
    /// wrapper; the inner error keeps its own kind.
    FinalizerProtocol(Box<Error>),
    /// Dependency resolution failed; retried.
    Resolve,
    /// The registry could not be reached while probing for an image, so
    /// image existence is unknown; the build check fails rather than
    /// treating the image as absent.
    RegistryProbe,
    /// A resource was malformed at construction time, such as a playbook
    /// without a namespace. A programmer error, surfaced loudly.
    Serialization,
    /// The object cannot be reconciled as specified, such as a playbook
    /// with an empty actors list; permanent until the spec is edited.
    Precondition,
}

} // verus!
