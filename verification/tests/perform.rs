use amp_composer::model::{ActorSpec, Playbook, PlaybookSpec};
use amp_composer::perform::{PerformTask, PerformingState};
use amp_composer::status::PlaybookState;
use amp_composer::synchronizer::Op;
use amp_composer::workflow::Intent;

fn actor(name: &str) -> ActorSpec {
    ActorSpec {
        name: String::from(name),
        description: String::from("an example app"),
        image: String::from("example"),
        repository: format!("https://example.com/{name}"),
        reference: String::from("main"),
        path: String::from("."),
        commit: String::from("0123abcd"),
        live: false,
        partners: None,
    }
}

fn running_playbook(actors: Vec<ActorSpec>) -> Playbook {
    Playbook {
        name: String::from("p"),
        spec: PlaybookSpec {
            title: String::from("t"),
            description: String::from("d"),
            namespace: String::from("amp-p"),
            actors,
            sync: None,
        },
        status: Some(PlaybookState::running(true, "AutoRun", None)),
        deletion_requested: false,
        finalizer_present: true,
    }
}

#[test]
fn performing_refreshes_existing_and_creates_missing() {
    let pb = running_playbook(vec![actor("a"), actor("b")]);
    let state = PerformingState;
    let (ops, intent) = state.handle(&pb, &vec![true, false]);
    assert!(matches!(intent, Intent::Stay));
    assert_eq!(ops.len(), 2);
    assert!(matches!(&ops[0], Op::UpdateActor(sp) if sp.name == "a"));
    assert!(matches!(&ops[1], Op::CreateActor(sp) if sp.name == "b"));
}

#[test]
fn performing_is_gated_on_running() {
    let mut pb = running_playbook(vec![actor("a")]);
    pb.status = Some(PlaybookState::solving());
    let task = PerformTask::new();
    assert!(!task.matches(&pb));
    let state = PerformingState;
    let (ops, intent) = state.handle(&pb, &vec![false]);
    assert!(ops.is_empty());
    assert!(matches!(intent, Intent::Stay));
}

#[test]
fn perform_task_runs_over_every_actor() {
    let pb = running_playbook(vec![actor("a"), actor("b"), actor("c")]);
    let task = PerformTask::new();
    assert!(task.matches(&pb));
    let ops = task.execute(&pb, &vec![true, true, true]).unwrap();
    assert_eq!(ops.len(), 3);
    assert!(ops.iter().all(|op| matches!(op, Op::UpdateActor(_))));
}
