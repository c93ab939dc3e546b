use amp_composer::controller::Action;
use amp_composer::model::{ActorSpec, Partner, Playbook, PlaybookSpec};
use amp_composer::resolver::fetches;
use amp_composer::status::{PlaybookPhase, PlaybookState};
use amp_composer::synchronizer::Op;

fn partner(name: &str, repository: &str, reference: &str, path: &str) -> Partner {
    Partner {
        name: String::from(name),
        repository: String::from(repository),
        reference: String::from(reference),
        path: String::from(path),
    }
}

fn actor(name: &str, repository: &str, reference: &str, path: &str, partners: Option<Vec<Partner>>) -> ActorSpec {
    ActorSpec {
        name: String::from(name),
        description: String::from("an example app"),
        image: String::from("example"),
        repository: String::from(repository),
        reference: String::from(reference),
        path: String::from(path),
        commit: String::from("0123abcd"),
        live: false,
        partners,
    }
}

fn playbook(actors: Vec<ActorSpec>, status: Option<PlaybookState>) -> Playbook {
    Playbook {
        name: String::from("p"),
        spec: PlaybookSpec {
            title: String::from("t"),
            description: String::from("d"),
            namespace: String::from("amp-p"),
            actors,
            sync: None,
        },
        status,
        deletion_requested: false,
        finalizer_present: true,
    }
}

#[test]
fn fetches_is_union_of_partners_minus_existing() {
    // two actors list overlapping partners; one partner is already
    // materialized by an existing actor
    let b = partner("b", "https://example.com/b", "main", ".");
    let c = partner("c", "https://example.com/c", "main", ".");
    let a1 = actor(
        "a1",
        "https://example.com/a1",
        "main",
        ".",
        Some(vec![b.clone(), c.clone()]),
    );
    let a2 = actor(
        "a2",
        "https://example.com/a2",
        "main",
        ".",
        Some(vec![b.clone(), partner("a1-again", "https://example.com/a1", "main", ".")]),
    );
    let actors = vec![a1, a2];
    let fetched = fetches(&actors);
    // b and c once each; the partner resolving to a1 is already existing
    assert_eq!(fetched.len(), 2);
    let mut repos: Vec<String> = fetched.iter().map(|p| p.repository.clone()).collect();
    repos.sort();
    assert_eq!(repos, vec![
        String::from("https://example.com/b"),
        String::from("https://example.com/c"),
    ]);
}

#[test]
fn fetches_empty_without_partners() {
    let a = actor("a", "https://example.com/a", "main", ".", None);
    let fetched = fetches(&vec![a]);
    assert!(fetched.is_empty());
}

#[test]
fn fetches_treats_identity_by_source_triple() {
    // same repository, different revision: a different unit, so fetched
    let a = actor(
        "a",
        "https://example.com/a",
        "main",
        ".",
        Some(vec![partner("a-v2", "https://example.com/a", "v2", ".")]),
    );
    let fetched = fetches(&vec![a]);
    assert_eq!(fetched.len(), 1);
    assert_eq!(fetched[0].reference, "v2");
}

#[test]
fn solve_converges_after_one_append() {
    // a playbook in solving with one missing partner: the first pass
    // appends the resolved actor, the second finds nothing to fetch and
    // moves the playbook to running
    let b = partner("b", "https://example.com/b", "main", ".");
    let a = actor("a", "https://example.com/a", "main", ".", Some(vec![b]));
    let pb = playbook(vec![a], Some(PlaybookState::solving()));

    let (ops, action) = pb.reconcile(&vec![false]);
    assert_eq!(action, Action::Requeue(120));
    assert_eq!(ops.len(), 1);
    let new_actors = match ops.into_iter().next().unwrap() {
        Op::PatchActors(list) => list,
        other => panic!("expected an actors patch, got {:?}", op_name(&other)),
    };
    assert_eq!(new_actors.len(), 2);
    assert_eq!(new_actors[1].name, "b");
    assert_eq!(new_actors[1].repository, "https://example.com/b");
    assert!(new_actors[1].partners.is_none());

    let pb2 = playbook(new_actors, Some(PlaybookState::solving()));
    let (ops2, _) = pb2.reconcile(&vec![false, false]);
    assert_eq!(ops2.len(), 1);
    match &ops2[0] {
        Op::PatchPlaybookStatus(st) => {
            assert_eq!(st.phase, PlaybookPhase::Running);
            assert!(st.ready);
            assert_eq!(st.reason, "AutoRun");
            assert!(st.message.is_none());
        },
        _ => panic!("expected a status patch"),
    }
}

fn op_name(op: &Op) -> &'static str {
    match op {
        Op::CreateNamespace(_) => "CreateNamespace",
        Op::CreateSecret { .. } => "CreateSecret",
        Op::PatchServiceAccount { .. } => "PatchServiceAccount",
        Op::PatchPlaybookStatus(_) => "PatchPlaybookStatus",
        Op::PatchActors(_) => "PatchActors",
        Op::CreateActor(_) => "CreateActor",
        Op::UpdateActor(_) => "UpdateActor",
        Op::PatchActorStatus(_) => "PatchActorStatus",
        Op::CreateJob(_) => "CreateJob",
        Op::UpdateJob(_) => "UpdateJob",
        Op::CreateImage { .. } => "CreateImage",
        Op::UpdateImage { .. } => "UpdateImage",
        Op::AddFinalizer => "AddFinalizer",
        Op::RemoveFinalizer => "RemoveFinalizer",
    }
}
