//! The credential facade: registry credentials held in a shared,
//! read-mostly cache, resolved per registry host when a build check needs
//! to probe for an image.

use vstd::prelude::*;

verus! {

/// What a credential authenticates against.
#[derive(Clone, Copy, PartialEq, Eq, Structural, Debug)]
pub enum Kind {
    /// An image registry.
    Image,
}

/// A registry credential: kind, host, principal and secret.
#[derive(Debug)]
pub struct Credential {
    pub kind: Kind,
    pub host: String,
    pub username: String,
    pub password: String,
}

impl Credential {
    /// A basic-auth credential.
    pub fn basic(kind: Kind, host: String, username: String, password: String) -> (r: Credential)
        ensures
            r.kind == kind,
            r.host == host,
            r.username == username,
            r.password == password,
    {
        Credential { kind, host, username, password }
    }
}

impl Clone for Credential {
    fn clone(&self) -> (r: Self)
        ensures
            r == *self,
    {
        Credential {
            kind: self.kind,
            host: self.host.clone(),
            username: self.username.clone(),
            password: self.password.clone(),
        }
    }
}

/// The first credential in the cache whose host equals `host`, if any.
pub open spec fn spec_resolve(creds: Seq<Credential>, host: Seq<char>) -> Option<Credential>
    decreases creds.len(),
{
    if creds.len() == 0 {
        Option::None
    } else if creds[0].host@ == host {
        Option::Some(creds[0])
    } else {
        spec_resolve(creds.skip(1), host)
    }
}

/// Resolves the registry credential for a host from the shared cache.
///
/// Returns the first credential registered for the host. `None` means no
/// credential is known; the caller then degrades to an anonymous registry
/// probe rather than failing the build check.
pub fn resolve(credentials: &Vec<Credential>, host: &String) -> (r: Option<Credential>)
    ensures
        r == spec_resolve(credentials@, host@),
        r is None <==> forall|i: int| 0 <= i < credentials@.len() ==> credentials@[i].host@ != host@,
{
    let mut i: usize = 0;
    proof {
        assert(credentials@.skip(0) =~= credentials@);
    }
    while i < credentials.len()
        invariant
            i <= credentials.len(),
            spec_resolve(credentials@, host@) == spec_resolve(credentials@.skip(i as int), host@),
            forall|k: int| 0 <= k < i ==> credentials@[k].host@ != host@,
        decreases credentials.len() - i,
    {
        proof {
            assert(credentials@.skip(i as int)[0] == credentials@[i as int]);
            assert(credentials@.skip(i as int).skip(1) =~= credentials@.skip(i as int + 1));
        }
        if credentials[i].host == *host {
            proof {
                assert(credentials@.skip(i as int).len() > 0);
                assert(spec_resolve(credentials@.skip(i as int), host@) == Option::Some(
                    credentials@[i as int],
                ));
                assert(!(forall|k: int|
                    0 <= k < credentials@.len() ==> credentials@[k].host@ != host@)) by {
                    assert(credentials@[i as int].host@ == host@);
                }
            }
            let c = credentials[i].clone();
            proof {
                assert(c == credentials@[i as int]);
                assert(Option::Some(c) == spec_resolve(credentials@, host@));
            }
            return Option::Some(c);
        }
        i = i + 1;
    }
    proof {
        assert(credentials@.skip(i as int).len() == 0);
    }
    Option::None
}

} // verus!
