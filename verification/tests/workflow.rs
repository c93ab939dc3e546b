use amp_composer::builder::LifecycleBuilder;
use amp_composer::controller::Action;
use amp_composer::error::Error;
use amp_composer::model::{Actor, ActorSpec};
use amp_composer::status::{ActorPhase, ActorState};
use amp_composer::synchronizer::Op;
use amp_composer::workflow::{InitTask, InitialState, Intent, Probe};

fn spec(live: bool) -> ActorSpec {
    ActorSpec {
        name: String::from("a"),
        description: String::from("an example app"),
        image: String::from("example:v1"),
        repository: String::from("https://example.com/a"),
        reference: String::from("main"),
        path: String::from("."),
        commit: String::from("0123abcd"),
        live,
        partners: None,
    }
}

fn pending_actor(live: bool) -> Actor {
    Actor { spec: spec(live), status: Some(ActorState::pending()) }
}

#[test]
fn build_skipped_when_image_exists() {
    let task = InitTask::new();
    let actor = pending_actor(false);
    let (ops, intent) = task.execute(&actor, Probe::Exists).unwrap();
    assert_eq!(ops.len(), 1);
    match &ops[0] {
        Op::PatchActorStatus(st) => {
            assert_eq!(st.phase, ActorPhase::Running);
            assert!(st.ready);
            assert_eq!(st.reason, "AutoRun");
            assert!(st.message.is_none());
        },
        _ => panic!("expected a status patch"),
    }
    assert!(matches!(intent, Intent::TransitionTo(ActorPhase::Deploying)));
}

#[test]
fn live_actor_always_builds() {
    let task = InitTask::new();
    let actor = pending_actor(true);
    // even though the image already exists in the registry
    let (ops, intent) = task.execute(&actor, Probe::Exists).unwrap();
    assert_eq!(ops.len(), 1);
    match &ops[0] {
        Op::PatchActorStatus(st) => {
            assert_eq!(st.phase, ActorPhase::Building);
            assert!(!st.ready);
        },
        _ => panic!("expected a status patch"),
    }
    assert!(matches!(intent, Intent::TransitionTo(ActorPhase::Building)));
}

#[test]
fn absent_image_builds() {
    let task = InitTask::new();
    let actor = pending_actor(false);
    let (_, intent) = task.execute(&actor, Probe::Absent).unwrap();
    assert!(matches!(intent, Intent::TransitionTo(ActorPhase::Building)));
}

#[test]
fn unreachable_registry_is_an_error_not_a_miss() {
    let task = InitTask::new();
    let actor = pending_actor(false);
    let r = task.execute(&actor, Probe::Unreachable);
    assert!(matches!(r, Err(Error::RegistryProbe)));
    // a live actor never consults the probe
    let live = pending_actor(true);
    assert!(task.execute(&live, Probe::Unreachable).is_ok());
    // the state handler swallows the failure into "no transition"
    let state = InitialState;
    let (ops, intent) = state.handle(&actor, Probe::Unreachable);
    assert!(ops.is_empty());
    assert!(matches!(intent, Intent::Stay));
}

#[test]
fn second_pass_is_a_no_op() {
    // reconciling twice with no external change: the status the first
    // pass patched falsifies the task's precondition on the second
    let task = InitTask::new();
    let actor = pending_actor(false);
    let (ops, _) = task.execute(&actor, Probe::Exists).unwrap();
    let patched_status = match ops.into_iter().next().unwrap() {
        Op::PatchActorStatus(st) => st,
        _ => panic!("expected a status patch"),
    };
    let second = Actor { spec: actor.spec.clone(), status: Some(patched_status) };
    assert!(!task.matches(&second));
    let state = InitialState;
    let (ops2, intent2) = state.handle(&second, Probe::Exists);
    assert!(ops2.is_empty());
    assert!(matches!(intent2, Intent::Stay));
}

#[test]
fn fresh_actor_initialized_to_pending() {
    let actor = Actor { spec: spec(false), status: None };
    let (ops, action) = amp_composer::workflow::reconcile(&actor, Probe::Absent);
    assert_eq!(ops.len(), 1);
    match &ops[0] {
        Op::PatchActorStatus(st) => {
            assert_eq!(st.phase, ActorPhase::Pending);
            assert!(!st.ready);
            assert_eq!(st.reason, "Pending");
        },
        _ => panic!("expected a status patch"),
    }
    assert_eq!(action, Action::Requeue(0));
}

#[test]
fn build_dispatch_creates_once_then_updates() {
    let builder = LifecycleBuilder::new(pending_actor(false));
    // first dispatch: the job does not exist yet
    let first = builder.build(false);
    // after the create the job exists, so the second dispatch updates
    let second = builder.build(true);
    let creates = [&first, &second]
        .iter()
        .filter(|op| matches!(op, Op::CreateJob(_)))
        .count();
    assert_eq!(creates, 1);
    match (&first, &second) {
        (Op::CreateJob(j1), Op::UpdateJob(j2)) => {
            assert_eq!(j1.name, "a-builder");
            assert_eq!(j2.name, "a-builder");
            assert_eq!(j1.actor.name, "a");
        },
        _ => panic!("expected create then update"),
    }
}
