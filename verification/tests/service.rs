use amp_composer::credential::{resolve, Credential, Kind};
use amp_composer::model::ActorSpec;
use amp_composer::resources::{add, build};
use amp_composer::service::PlaybookService;
use amp_composer::synchronizer::Op;
use amp_composer::error::Error;

fn manifest_actor() -> ActorSpec {
    ActorSpec {
        name: String::from("web"),
        description: String::from("an example app"),
        image: String::from("example-web"),
        repository: String::from("https://example.com/web"),
        reference: String::from("main"),
        path: String::from("."),
        commit: String::from("feedc0de"),
        live: false,
        partners: None,
    }
}

#[test]
fn create_derives_the_namespace_from_the_identifier() {
    let pb = PlaybookService::create(
        &String::from("my title"),
        &String::from("my description"),
        manifest_actor(),
    );
    assert_eq!(pb.name.len(), 36);
    assert_eq!(pb.spec.namespace, format!("amp-{}", pb.name));
    assert_eq!(pb.spec.title, "my title");
    assert_eq!(pb.spec.description, "my description");
    assert_eq!(pb.spec.actors.len(), 1);
    assert_eq!(pb.spec.actors[0].name, "web");
    assert!(pb.spec.sync.is_none());
    assert!(pb.status.is_none());
    assert!(!pb.deletion_requested);
    assert!(!pb.finalizer_present);
}

#[test]
fn image_resource_is_built_from_the_actor() {
    let pb = PlaybookService::create(&String::from("t"), &String::from("d"), manifest_actor());
    let op = build(&pb, &pb.spec.actors[0], false).unwrap();
    match op {
        Op::CreateImage { namespace, image } => {
            assert_eq!(namespace, pb.spec.namespace);
            assert_eq!(image.name, "web-feedc0de");
            assert_eq!(
                image.tag,
                "harbor.amp-system.svc.cluster.local/library/example-web:feedc0de"
            );
            assert_eq!(image.service_account, "default");
            assert_eq!(image.builder_name, "amp-default-cluster-builder");
            assert_eq!(image.builder_kind, "ClusterBuilder");
            assert_eq!(image.git_url, "https://example.com/web");
            assert_eq!(image.git_revision, "feedc0de");
            assert_eq!(image.sub_path, ".");
        },
        _ => panic!("expected an image create"),
    }
    // once the resource exists, dispatch updates it instead
    let op = build(&pb, &pb.spec.actors[0], true).unwrap();
    assert!(matches!(op, Op::UpdateImage { .. }));
}

#[test]
fn image_resource_requires_a_namespace() {
    let mut pb = PlaybookService::create(&String::from("t"), &String::from("d"), manifest_actor());
    pb.spec.namespace = String::new();
    let r = build(&pb, &manifest_actor(), false);
    assert!(matches!(r, Err(Error::Serialization)));
    let r = add(&pb, manifest_actor());
    assert!(matches!(r, Err(Error::Serialization)));
}

#[test]
fn add_appends_one_actor_wholesale() {
    let pb = PlaybookService::create(&String::from("t"), &String::from("d"), manifest_actor());
    let mut extra = manifest_actor();
    extra.name = String::from("api");
    extra.repository = String::from("https://example.com/api");
    let op = add(&pb, extra).unwrap();
    match op {
        Op::PatchActors(list) => {
            assert_eq!(list.len(), 2);
            assert_eq!(list[0].name, "web");
            assert_eq!(list[1].name, "api");
        },
        _ => panic!("expected an actors patch"),
    }
}

#[test]
fn credential_cache_resolves_first_match_per_host() {
    let creds = vec![
        Credential::basic(
            Kind::Image,
            String::from("registry.example.com"),
            String::from("alice"),
            String::from("SECRET-REDACTED"),
        ),
        Credential::basic(
            Kind::Image,
            String::from("harbor.amp-system.svc.cluster.local"),
            String::from("admin"),
            String::from("Harbor12345"),
        ),
        Credential::basic(
            Kind::Image,
            String::from("registry.example.com"),
            String::from("bob"),
            String::from("SECRET-REDACTED"),
        ),
    ];
    let hit = resolve(&creds, &String::from("registry.example.com")).unwrap();
    assert_eq!(hit.username, "alice");
    // no credential known: the caller degrades to an anonymous probe
    assert!(resolve(&creds, &String::from("ghcr.io")).is_none());
}
