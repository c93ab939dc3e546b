//! The dependency resolver: computes which partner references declared by
//! a playbook's actors are not yet materialized as actors. Membership is
//! decided over normalized source identities, order-independently and
//! without duplicates.

use vstd::prelude::*;
use vstd::seq_lib::*;
use vstd::set_lib::*;

use crate::model::{actor_id, actor_like, partner_id, ActorSpec, Partner, SourceId};

verus! {

/// The identities the playbook's current actors materialize.
pub open spec fn existing_ids(actors: Seq<ActorSpec>) -> Set<SourceId> {
    Set::new(|id: SourceId| exists|i: int| 0 <= i < actors.len() && actor_id(actors[i]) == id)
}

/// Actor `a` declares a partner with identity `id`.
pub open spec fn declares_partner(a: ActorSpec, id: SourceId) -> bool {
    exists|j: int| 0 <= j < a.partners->0@.len() && a.partners is Some && partner_id(
        a.partners->0@[j],
    ) == id
}

/// The union of the partner identities declared by any current actor.
pub open spec fn partner_ids(actors: Seq<ActorSpec>) -> Set<SourceId> {
    Set::new(|id: SourceId| exists|i: int| 0 <= i < actors.len() && declares_partner(actors[i], id))
}

/// The identities still to be fetched: declared partners that no current
/// actor materializes.
pub open spec fn fetch_ids(actors: Seq<ActorSpec>) -> Set<SourceId> {
    partner_ids(actors).difference(existing_ids(actors))
}

/// Set semantics of resolution: what is fetched is exactly the union of
/// the declared partner identities minus the existing actor identities.
pub proof fn lemma_fetch_set_semantics(actors: Seq<ActorSpec>)
    ensures
        fetch_ids(actors) == partner_ids(actors).difference(existing_ids(actors)),
{
}

/// Identity `id` is either materialized by a current actor or already
/// collected among the fetched partners.
spec fn covered(actors: Seq<ActorSpec>, fetched: Seq<Partner>, id: SourceId) -> bool {
    ||| existing_ids(actors).contains(id)
    ||| exists|k: int| 0 <= k < fetched.len() && partner_id(fetched[k]) == id
}

/// Position (i, j) indexes a declared partner of actor i.
spec fn valid_entry(actors: Seq<ActorSpec>, i: int, j: int) -> bool {
    0 <= i < actors.len() && actors[i].partners is Some && 0 <= j < actors[i].partners->0@.len()
}

/// The identity declared at position (i, j) of the partner table.
spec fn entry(actors: Seq<ActorSpec>, i: int, j: int) -> SourceId {
    partner_id(actors[i].partners->0@[j])
}

fn actor_matches_partner(a: &ActorSpec, p: &Partner) -> (r: bool)
    ensures
        r == (actor_id(*a) == partner_id(*p)),
{
    let r = a.repository == p.repository && a.reference == p.reference && a.path == p.path;
    proof {
        if r {
            assert(actor_id(*a) == partner_id(*p));
        }
    }
    r
}

fn partner_matches_partner(a: &Partner, b: &Partner) -> (r: bool)
    ensures
        r == (partner_id(*a) == partner_id(*b)),
{
    let r = a.repository == b.repository && a.reference == b.reference && a.path == b.path;
    proof {
        if r {
            assert(partner_id(*a) == partner_id(*b));
        }
    }
    r
}

/// Whether some current actor materializes the unit `p` refers to.
fn in_existing(actors: &Vec<ActorSpec>, p: &Partner) -> (r: bool)
    ensures
        r == existing_ids(actors@).contains(partner_id(*p)),
{
    let mut i: usize = 0;
    while i < actors.len()
        invariant
            i <= actors@.len(),
            forall|k: int| 0 <= k < i ==> actor_id(actors@[k]) != partner_id(*p),
        decreases actors@.len() - i,
    {
        if actor_matches_partner(&actors[i], p) {
            proof {
                assert(actor_id(actors@[i as int]) == partner_id(*p));
                assert(existing_ids(actors@).contains(partner_id(*p)));
            }
            return true;
        }
        i = i + 1;
    }
    proof {
        assert(!existing_ids(actors@).contains(partner_id(*p)));
    }
    false
}

/// Whether a partner with the same identity was already collected.
fn in_fetched(fetched: &Vec<Partner>, p: &Partner) -> (r: bool)
    ensures
        r == exists|k: int| 0 <= k < fetched@.len() && partner_id(fetched@[k]) == partner_id(*p),
{
    let mut i: usize = 0;
    while i < fetched.len()
        invariant
            i <= fetched@.len(),
            forall|k: int| 0 <= k < i ==> partner_id(fetched@[k]) != partner_id(*p),
        decreases fetched@.len() - i,
    {
        if partner_matches_partner(&fetched[i], p) {
            proof {
                assert(partner_id(fetched@[i as int]) == partner_id(*p));
            }
            return true;
        }
        i = i + 1;
    }
    false
}

/// Collects the partners still to be fetched: one representative per
/// identity in `fetch_ids`, de-duplicated across all actors' partner
/// lists.
pub fn fetches(actors: &Vec<ActorSpec>) -> (r: Vec<Partner>)
    ensures
        forall|k: int| 0 <= k < r@.len() ==> fetch_ids(actors@).contains(partner_id(r@[k])),
        forall|k: int, l: int|
            0 <= k < l < r@.len() ==> partner_id(r@[k]) != partner_id(r@[l]),
        forall|id: SourceId|
            fetch_ids(actors@).contains(id) ==> exists|k: int|
                0 <= k < r@.len() && partner_id(r@[k]) == id,
        r@.map_values(|p: Partner| partner_id(p)).to_set() == fetch_ids(actors@),
        r@.len() == 0 <==> fetch_ids(actors@).is_empty(),
{
    let mut result: Vec<Partner> = Vec::new();
    let mut i: usize = 0;
    while i < actors.len()
        invariant
            i <= actors@.len(),
            forall|k: int|
                0 <= k < result@.len() ==> fetch_ids(actors@).contains(partner_id(result@[k])),
            forall|k: int, l: int|
                0 <= k < l < result@.len() ==> partner_id(result@[k]) != partner_id(result@[l]),
            forall|i2: int, j2: int|
                0 <= i2 < i && valid_entry(actors@, i2, j2) ==> covered(
                    actors@,
                    result@,
                    entry(actors@, i2, j2),
                ),
        decreases actors@.len() - i,
    {
        match &actors[i].partners {
            Option::Some(ps) => {
                let mut j: usize = 0;
                while j < ps.len()
                    invariant
                        i < actors@.len(),
                        actors@[i as int].partners == Option::Some(*ps),
                        j <= ps@.len(),
                        forall|k: int|
                            0 <= k < result@.len() ==> fetch_ids(actors@).contains(
                                partner_id(result@[k]),
                            ),
                        forall|k: int, l: int|
                            0 <= k < l < result@.len() ==> partner_id(result@[k]) != partner_id(
                                result@[l],
                            ),
                        forall|i2: int, j2: int|
                            0 <= i2 < i && valid_entry(actors@, i2, j2) ==> covered(
                                actors@,
                                result@,
                                entry(actors@, i2, j2),
                            ),
                        forall|j2: int|
                            0 <= j2 < j && valid_entry(actors@, i as int, j2) ==> covered(
                                actors@,
                                result@,
                                entry(actors@, i as int, j2),
                            ),
                    decreases ps@.len() - j,
                {
                    let p = &ps[j];
                    proof {
                        assert(valid_entry(actors@, i as int, j as int));
                        assert(entry(actors@, i as int, j as int) == partner_id(*p));
                    }
                    let exists_already = in_existing(actors, p);
                    let fetched_already = in_fetched(&result, p);
                    if !exists_already && !fetched_already {
                        proof {
                            assert(declares_partner(actors@[i as int], partner_id(*p)));
                            assert(partner_ids(actors@).contains(partner_id(*p)));
                            assert(fetch_ids(actors@).contains(partner_id(*p)));
                        }
                        let ghost prev = result@;
                        result.push(p.clone());
                        proof {
                            assert(result@ == prev.push(result@[prev.len() as int]));
                            assert(partner_id(result@[prev.len() as int]) == partner_id(*p));
                            assert forall|id: SourceId| covered(actors@, prev, id) implies covered(
                                actors@,
                                result@,
                                id,
                            ) by {
                                if !existing_ids(actors@).contains(id) {
                                    let k = choose|k: int|
                                        0 <= k < prev.len() && partner_id(prev[k]) == id;
                                    assert(result@[k] == prev[k]);
                                }
                            }
                            assert(covered(actors@, result@, entry(actors@, i as int, j as int)));
                        }
                    } else {
                        proof {
                            assert(covered(actors@, result@, partner_id(*p)));
                        }
                    }
                    j = j + 1;
                }
            },
            Option::None => {},
        }
        i = i + 1;
    }
    proof {
        // Completeness: every identity still to be fetched has a
        // representative among the collected partners.
        assert forall|id: SourceId| fetch_ids(actors@).contains(id) implies exists|k: int|
            0 <= k < result@.len() && partner_id(result@[k]) == id by {
            let i2 = choose|i2: int|
                0 <= i2 < actors@.len() && declares_partner(actors@[i2], id);
            let j2 = choose|j2: int|
                0 <= j2 < actors@[i2].partners->0@.len() && actors@[i2].partners is Some
                    && partner_id(actors@[i2].partners->0@[j2]) == id;
            assert(valid_entry(actors@, i2, j2));
            assert(covered(actors@, result@, entry(actors@, i2, j2)));
        }
        // The collected identities, as a set, are exactly `fetch_ids`.
        let ids = result@.map_values(|p: Partner| partner_id(p));
        assert forall|id: SourceId| ids.to_set().contains(id) implies fetch_ids(
            actors@,
        ).contains(id) by {
            let k = choose|k: int| 0 <= k < ids.len() && ids[k] == id;
            assert(fetch_ids(actors@).contains(partner_id(result@[k])));
        }
        assert forall|id: SourceId| fetch_ids(actors@).contains(id) implies ids.to_set().contains(
            id,
        ) by {
            let k = choose|k: int| 0 <= k < result@.len() && partner_id(result@[k]) == id;
            assert(ids[k] == id);
            assert(ids.to_set().contains(id));
        }
        assert(ids.to_set() =~= fetch_ids(actors@));
        if result@.len() == 0 {
            assert(fetch_ids(actors@) =~= Set::<SourceId>::empty());
        } else {
            assert(fetch_ids(actors@).contains(partner_id(result@[0])));
            assert(!fetch_ids(actors@).is_empty());
        }
    }
    result
}

/// A solved actor list: `new` extends `old` with exactly one resolved
/// actor per fetched identity — never two for the same identity — and the
/// resolved actors declare no partners of their own.
pub open spec fn appended_solution(old: Seq<ActorSpec>, new: Seq<ActorSpec>) -> bool {
    &&& new.len() >= old.len()
    &&& forall|i: int| 0 <= i < old.len() ==> actor_like(new[i], old[i])
    &&& forall|i: int|
        old.len() <= i < new.len() ==> new[i].partners is None && fetch_ids(old).contains(
            actor_id(new[i]),
        )
    &&& forall|i: int, j: int|
        old.len() <= i < j < new.len() ==> actor_id(new[i]) != actor_id(new[j])
    &&& forall|id: SourceId|
        fetch_ids(old).contains(id) ==> exists|i: int|
            old.len() <= i < new.len() && actor_id(new[i]) == id
}

/// Convergence: after one solve pass has appended a resolved actor for
/// every fetched identity, the next pass finds nothing left to fetch, so
/// the closure is complete and the playbook can transition to running.
pub proof fn lemma_solve_converges(old: Seq<ActorSpec>, new: Seq<ActorSpec>)
    requires
        appended_solution(old, new),
    ensures
        fetch_ids(new).is_empty(),
{
    assert forall|id: SourceId| partner_ids(new).contains(id) implies existing_ids(new).contains(
        id,
    ) by {
        let i = choose|i: int| 0 <= i < new.len() && declares_partner(new[i], id);
        if i >= old.len() {
            // appended actors declare no partners
            assert(new[i].partners is None);
            assert(false);
        } else {
            // the same declaration stands in `old`
            assert(actor_like(new[i], old[i]));
            let j = choose|j: int|
                0 <= j < new[i].partners->0@.len() && new[i].partners is Some && partner_id(
                    new[i].partners->0@[j],
                ) == id;
            assert(old[i].partners is Some);
            assert(partner_id(old[i].partners->0@[j]) == id);
            assert(declares_partner(old[i], id));
            assert(partner_ids(old).contains(id));
            if existing_ids(old).contains(id) {
                let w = choose|w: int| 0 <= w < old.len() && actor_id(old[w]) == id;
                assert(actor_like(new[w], old[w]));
                assert(actor_id(new[w]) == id);
                assert(existing_ids(new).contains(id));
            } else {
                assert(fetch_ids(old).contains(id));
                let w = choose|w: int|
                    old.len() <= w < new.len() && actor_id(new[w]) == id;
                assert(existing_ids(new).contains(id));
            }
        }
    }
    assert(fetch_ids(new) =~= Set::<SourceId>::empty());
}

} // verus!
