use federation_core::activity::{
    share_origin, Envelope, EnvelopeError, Handled, HandlerError, ObjectField, Payload,
    WireActivity,
};
use federation_core::cache::Cache;
use federation_core::federation::{Instance, APUB_JSON_CONTENT_TYPE};
use federation_core::inbox::{Action, Delivery, Event, Outcome, Rejection, Stage};
use federation_core::instance::{InstanceSettings, LocalInstance};
use federation_core::object_id::{FetchOutcome, ResolutionError};
use federation_core::objects::{ConversionError, Entity, Field, Note, Person, WireDocument};
use federation_core::signature::{Header, Method, Request, VerificationError};
use federation_core::store::Store;

const BODY: &str = "{\"@context\":\"https://www.w3.org/ns/activitystreams\",\"type\":\"Create\",\"id\":\"https://remote.example/activities/1\",\"actor\":\"https://remote.example/u/bob\",\"object\":{\"type\":\"Note\",\"id\":\"https://remote.example/notes/1\",\"attributedTo\":\"https://remote.example/u/bob\",\"content\":\"Hello, Alice!\"}}";
const DIGEST: &str = "SHA-256=vPevGmomtWaaejlZUwIPpzvUyGe5Ew/wpw/u8kLcIx8=";
const SIGNATURE: &str = "ns1IEcpArJRvu/eqssLGJW9gvWAnkgMxyI4uWf0+svEFqNLsfIQ/5JN5zKnuyR5uAIXewUG8J3QVzaoDgBHRzYNae0s5hGNBFwCuzQYBBPGjAQGUUB0qn+EVbUW3WtQDLbCmKhCr/uEE1DkbyZmhnSKJ2RF8JZw6C6V75IbzINHbFkiV3PVndnD7T1bHj0kZS8khoGE1UxG76e1geG7ETAUlWvkhsiO+jMvW+RuwGGmCaWlT8bdy6XlZzp1tsCj8szeaeHLixnVCz4BJJjlWXdOgQrEfC6riTHnQBoGzs30lvKPY8w8byF5dgQt4lePBec2RAj4puDU9kIp0SYNE5Q==";
const PUBLIC_KEY: &str = "-----BEGIN PUBLIC KEY-----\nMIIBIjANBgkqhkiG9w0BAQEFAAOCAQ8AMIIBCgKCAQEA1o9/tr2LjmPNyQCEi/bt\nx5TDbDgApHU9tBdEhcRKjWov9hlIDXIga7N4Es4LYYdoz45fZpAxypOdAV1vz8o2\nd+Snlm/JMKw0yR3ssYlAfgBJiJwkYHOUbvUliTB+ilHt7D930iTeUQWKyIHVPu0y\nn1OS+lBqKkdwp6FgNLjFSDJCuipEB3ScUKULCdbz6brSZneOfFOPeiHLMkFEfp2a\nV9Gk9pIDEjAODtoAv98TAyXQV5IYGir2MQMsmw3MgbIMwiEpnjTkxoXEOq5GNer/\nnlTrpUHTfol0bCoGcwWogFz8riiwgw62Yx5R6LyohfHy4tWhSK2a+t39BxasA+YJ\nxQIDAQAB\n-----END PUBLIC KEY-----\n";
const BOB: &str = "https://remote.example/u/bob";
const ACTIVITY: &str = "https://remote.example/activities/1";

fn header(name: &str, value: &str) -> Header {
    Header { name: name.to_string(), value: value.to_string() }
}

fn request() -> Request {
    Request {
        method: Method::Post,
        path: "/u/alice/inbox".to_string(),
        headers: vec![
            header("host", "example.com"),
            header("date", "Tue, 20 Oct 2026 10:00:00 GMT"),
            header("digest", DIGEST),
            header(
                "signature",
                &format!(
                    "keyId=\"{}#main-key\",algorithm=\"rsa-sha256\",headers=\"(request-target) host date digest\",signature=\"{}\"",
                    BOB, SIGNATURE
                ),
            ),
        ],
        body: BODY.as_bytes().to_vec(),
    }
}

fn bob() -> Person {
    Person {
        id: BOB.to_string(),
        name: "bob".to_string(),
        inbox: format!("{}/inbox", BOB),
        public_key: PUBLIC_KEY.to_string(),
        local: false,
    }
}

fn alice() -> Person {
    Person {
        id: "https://example.com/u/alice".to_string(),
        name: "alice".to_string(),
        inbox: "https://example.com/u/alice/inbox".to_string(),
        public_key: PUBLIC_KEY.to_string(),
        local: true,
    }
}

fn hello() -> Note {
    Note {
        id: "https://remote.example/notes/1".to_string(),
        attributed_to: BOB.to_string(),
        content: "Hello, Alice!".to_string(),
        local: false,
    }
}

fn create(note: &Note) -> Envelope {
    Envelope { id: ACTIVITY.to_string(), actor: BOB.to_string(), payload: Payload::Create(note.to_wire()) }
}

fn server() -> Instance<()> {
    let mut instance = Instance::new("example.com".to_string(), ());
    instance.store.upsert(Entity::Person(alice()));
    instance
}

fn bob_fetched() -> Event {
    Event::Fetched(FetchOutcome::Response { status: 200, document: Some(bob().to_wire()) })
}

/// Runs a delivery to its end, answering every fetch with Bob's document.
fn deliver(instance: &mut Instance<()>, envelope: Envelope, now: u64) -> (Outcome, u32) {
    let mut delivery = Delivery::new(request(), envelope);
    let mut event = Event::Begin;
    let mut fetches = 0;
    loop {
        let (next, action) = instance.post_inbox(delivery, event, now);
        delivery = next;
        match action {
            Action::Finish(outcome) => {
                assert_eq!(delivery.stage, Stage::Finished(outcome));
                return (outcome, fetches);
            }
            Action::Fetch(url) => {
                assert_eq!(url, BOB);
                fetches += 1;
                assert!(fetches < 5);
                event = bob_fetched();
            }
        }
    }
}

#[test]
fn get_object_serves_the_local_user_under_the_default_context() {
    let instance = server();
    let doc = instance.get_object(&"alice".to_string()).unwrap();
    assert_eq!(doc.context, "https://www.w3.org/ns/activitystreams");
    assert_eq!(doc.inner.id.as_deref(), Some("https://example.com/u/alice"));
    assert_eq!(doc.inner.kind, "Person");
    assert_eq!(doc.inner.name.as_deref(), Some("alice"));
    assert_eq!(APUB_JSON_CONTENT_TYPE, "application/activity+json");
}

#[test]
fn get_object_finds_no_remote_or_unknown_user() {
    let mut instance = server();
    instance.store.upsert(Entity::Person(bob()));
    assert_eq!(instance.get_object(&"bob".to_string()), Err(ResolutionError::NotFound));
    assert_eq!(instance.get_object(&"nobody".to_string()), Err(ResolutionError::NotFound));
}

#[test]
fn instance_getters() {
    let instance = server();
    assert_eq!(instance.get_user(), alice());
    assert!(instance.get_all_posts().is_empty());
    assert_eq!(instance.get_local_instance().hostname(), "example.com");
    assert_eq!(*instance.get_local_instance().settings(), InstanceSettings::default());
}

#[test]
fn create_from_an_unknown_actor_resolves_the_actor_and_stores_the_post() {
    let mut instance = server();
    let delivery = Delivery::new(request(), create(&hello()));
    let (delivery, action) = instance.post_inbox(delivery, Event::Begin, 1000);
    assert_eq!(action, Action::Fetch(BOB.to_string()));
    assert!(matches!(delivery.stage, Stage::AwaitingSigner { .. }));
    // nothing has been recorded or stored yet
    assert!(!instance.store.is_processed(&ACTIVITY.to_string()));
    assert_eq!(instance.store.find_by_url(&BOB.to_string()), None);

    let (delivery, action) = instance.post_inbox(delivery, bob_fetched(), 1000);
    assert_eq!(action, Action::Finish(Outcome::Applied));
    assert_eq!(delivery.stage, Stage::Finished(Outcome::Applied));
    assert_eq!(Outcome::Applied.status_code(), 200);
    assert_eq!(instance.store.find_by_url(&BOB.to_string()), Some(Entity::Person(bob())));
    assert_eq!(instance.get_all_posts(), vec![hello()]);
    assert!(instance.store.is_processed(&ACTIVITY.to_string()));
}

#[test]
fn redelivery_succeeds_without_a_second_post() {
    let mut instance = server();
    assert_eq!(deliver(&mut instance, create(&hello()), 1000), (Outcome::Applied, 1));
    assert_eq!(instance.get_all_posts().len(), 1);
    // the actor is cached now, so the second delivery needs no fetch
    assert_eq!(deliver(&mut instance, create(&hello()), 1001), (Outcome::Duplicate, 0));
    assert_eq!(Outcome::Duplicate.status_code(), 200);
    assert_eq!(instance.get_all_posts(), vec![hello()]);
    // also after the cache entry has expired
    assert_eq!(deliver(&mut instance, create(&hello()), 999_999), (Outcome::Duplicate, 1));
    assert_eq!(instance.get_all_posts(), vec![hello()]);
}

#[test]
fn redelivery_with_another_object_changes_nothing() {
    let mut instance = server();
    assert_eq!(deliver(&mut instance, create(&hello()), 1000), (Outcome::Applied, 1));
    let mut other = hello();
    other.id = "https://remote.example/notes/2".to_string();
    assert_eq!(deliver(&mut instance, create(&other), 1001), (Outcome::Duplicate, 0));
    assert_eq!(instance.get_all_posts(), vec![hello()]);
}

#[test]
fn digest_mismatch_is_rejected_before_anything_happens() {
    let mut instance = server();
    let mut tampered = request();
    tampered.body = BODY.replace("Hello", "Jello").into_bytes();
    let delivery = Delivery::new(tampered, create(&hello()));
    let (delivery, action) = instance.post_inbox(delivery, Event::Begin, 1000);
    let outcome = Outcome::Rejected(Rejection::Signature(VerificationError::DigestMismatch));
    assert_eq!(action, Action::Finish(outcome));
    assert_eq!(delivery.stage, Stage::Finished(outcome));
    assert_eq!(outcome.status_code(), 401);
    assert!(instance.get_all_posts().is_empty());
    assert!(!instance.store.is_processed(&ACTIVITY.to_string()));
    assert_eq!(instance.store.find_by_url(&BOB.to_string()), None);
    assert_eq!(instance.cache, Cache::new(1024, 3600));
}

#[test]
fn a_signature_by_another_key_is_rejected() {
    let mut instance = server();
    let mut impostor = bob();
    impostor.public_key = "-----BEGIN PUBLIC KEY-----\nMFwwDQYJKoZIhvcNAQEBBQADSwAwSAJBAKj34GkxFhD90vcNLYLInFEX6Ppy1tPf\n9Cnzj4p4WGeKLs1Pt8QuKUpRKfFLfRYC9AIKjbJTWit+CqvjWYzvQwECAwEAAQ==\n-----END PUBLIC KEY-----\n".to_string();
    let delivery = Delivery::new(request(), create(&hello()));
    let (delivery, _) = instance.post_inbox(delivery, Event::Begin, 1000);
    let fetched =
        Event::Fetched(FetchOutcome::Response { status: 200, document: Some(impostor.to_wire()) });
    let (_, action) = instance.post_inbox(delivery, fetched, 1000);
    assert_eq!(
        action,
        Action::Finish(Outcome::Rejected(Rejection::Signature(VerificationError::BadSignature)))
    );
    assert!(instance.get_all_posts().is_empty());
    assert!(!instance.store.is_processed(&ACTIVITY.to_string()));
}

#[test]
fn an_unresolvable_key_owner_is_rejected() {
    let mut instance = server();
    let delivery = Delivery::new(request(), create(&hello()));
    let (delivery, _) = instance.post_inbox(delivery, Event::Begin, 1000);
    let (_, action) = instance.post_inbox(delivery, Event::Fetched(FetchOutcome::Failed), 1000);
    let outcome = Outcome::Rejected(Rejection::Signature(VerificationError::UnknownKey));
    assert_eq!(action, Action::Finish(outcome));
    assert_eq!(outcome.status_code(), 401);
    assert!(!instance.store.is_processed(&ACTIVITY.to_string()));
}

#[test]
fn a_key_of_someone_else_than_the_sender_is_rejected() {
    let mut instance = server();
    let mut envelope = create(&hello());
    envelope.actor = "https://remote.example/u/eve".to_string();
    assert_eq!(
        deliver(&mut instance, envelope, 1000),
        (Outcome::Rejected(Rejection::Signature(VerificationError::BadSignature)), 0)
    );
    let mut envelope = create(&hello());
    envelope.actor = "not a url".to_string();
    assert_eq!(
        deliver(&mut instance, envelope, 1000),
        (Outcome::Rejected(Rejection::Signature(VerificationError::BadSignature)), 0)
    );
}

#[test]
fn a_blocked_sender_is_not_fetched() {
    let mut settings = InstanceSettings::default();
    settings.blocked_domains = vec!["remote.example".to_string()];
    let mut instance = Instance {
        local_instance: LocalInstance::new("example.com".to_string(), (), settings),
        store: Store::new(),
        cache: Cache::new(16, 60),
    };
    assert_eq!(
        deliver(&mut instance, create(&hello()), 1000),
        (Outcome::Rejected(Rejection::Signature(VerificationError::UnknownKey)), 0)
    );
}

#[test]
fn unknown_kinds_are_dropped_but_recorded() {
    let mut instance = server();
    let envelope = Envelope {
        id: ACTIVITY.to_string(),
        actor: BOB.to_string(),
        payload: Payload::Unknown("Dance".to_string()),
    };
    assert_eq!(deliver(&mut instance, envelope, 1000), (Outcome::Dropped, 1));
    assert_eq!(Outcome::Dropped.status_code(), 200);
    assert!(instance.get_all_posts().is_empty());
    assert!(instance.store.is_processed(&ACTIVITY.to_string()));
}

#[test]
fn a_note_by_someone_else_is_not_created() {
    let mut instance = server();
    let mut note = hello();
    note.attributed_to = "https://remote.example/u/eve".to_string();
    let outcome = Outcome::Rejected(Rejection::Handler(HandlerError::NotAuthor));
    assert_eq!(deliver(&mut instance, create(&note), 1000), (outcome, 1));
    assert_eq!(outcome.status_code(), 400);
    assert!(instance.get_all_posts().is_empty());
}

#[test]
fn create_needs_a_note() {
    let mut instance = server();
    let envelope = Envelope {
        id: ACTIVITY.to_string(),
        actor: BOB.to_string(),
        payload: Payload::Create(bob().to_wire()),
    };
    assert_eq!(
        deliver(&mut instance, envelope, 1000),
        (
            Outcome::Rejected(Rejection::Handler(HandlerError::InvalidObject(
                ConversionError::KindMismatch
            ))),
            1
        )
    );
}

#[test]
fn update_replaces_the_profile_of_the_sender_only() {
    let mut instance = server();
    let mut renamed = bob();
    renamed.name = "robert".to_string();
    let envelope = Envelope {
        id: ACTIVITY.to_string(),
        actor: BOB.to_string(),
        payload: Payload::Update(renamed.to_wire()),
    };
    assert_eq!(deliver(&mut instance, envelope, 1000), (Outcome::Applied, 1));
    assert_eq!(instance.store.find_by_url(&BOB.to_string()), Some(Entity::Person(renamed)));

    let mut hijack = alice();
    hijack.name = "mallory".to_string();
    let envelope = Envelope {
        id: "https://remote.example/activities/2".to_string(),
        actor: BOB.to_string(),
        payload: Payload::Update(hijack.to_wire()),
    };
    assert_eq!(
        deliver(&mut instance, envelope, 1001),
        (Outcome::Rejected(Rejection::Handler(HandlerError::NotAuthor)), 0)
    );
    assert_eq!(instance.get_user(), alice());
}

#[test]
fn without_a_cache_the_sender_is_fetched_again_after_verification() {
    let mut instance = Instance {
        local_instance: LocalInstance::new("example.com".to_string(), (), InstanceSettings::default()),
        store: Store::new(),
        cache: Cache::new(0, 0),
    };
    let delivery = Delivery::new(request(), create(&hello()));
    let (delivery, action) = instance.post_inbox(delivery, Event::Begin, 1000);
    assert_eq!(action, Action::Fetch(BOB.to_string()));
    let (delivery, action) = instance.post_inbox(delivery, bob_fetched(), 1000);
    assert_eq!(action, Action::Fetch(BOB.to_string()));
    assert!(matches!(delivery.stage, Stage::AwaitingActor { .. }));
    // verified and recorded, not yet applied
    assert!(instance.store.is_processed(&ACTIVITY.to_string()));
    assert!(instance.get_all_posts().is_empty());
    // asking again without an answer repeats the request
    let (delivery, action) = instance.post_inbox(delivery, Event::Begin, 1000);
    assert_eq!(action, Action::Fetch(BOB.to_string()));
    let (_, action) = instance.post_inbox(delivery, bob_fetched(), 1000);
    assert_eq!(action, Action::Finish(Outcome::Applied));
    assert_eq!(instance.get_all_posts(), vec![hello()]);
}

#[test]
fn an_unresolvable_sender_is_rejected_after_the_record() {
    let mut instance = Instance {
        local_instance: LocalInstance::new("example.com".to_string(), (), InstanceSettings::default()),
        store: Store::new(),
        cache: Cache::new(0, 0),
    };
    let delivery = Delivery::new(request(), create(&hello()));
    let (delivery, _) = instance.post_inbox(delivery, Event::Begin, 1000);
    let (delivery, _) = instance.post_inbox(delivery, bob_fetched(), 1000);
    let gone = Event::Fetched(FetchOutcome::Response { status: 410, document: None });
    let (_, action) = instance.post_inbox(delivery, gone, 1000);
    let outcome = Outcome::Rejected(Rejection::ActorUnresolvable(ResolutionError::FetchFailed));
    assert_eq!(action, Action::Finish(outcome));
    assert_eq!(outcome.status_code(), 400);
    assert!(instance.get_all_posts().is_empty());
}

#[test]
fn a_finished_delivery_stays_finished() {
    let mut instance = server();
    let delivery = Delivery {
        stage: Stage::Finished(Outcome::Applied),
        request: request(),
        envelope: create(&hello()),
    };
    let (delivery, action) = instance.post_inbox(delivery, bob_fetched(), 1000);
    assert_eq!(action, Action::Finish(Outcome::Applied));
    assert_eq!(delivery.stage, Stage::Finished(Outcome::Applied));
    assert!(instance.get_all_posts().is_empty());
    assert!(!instance.store.is_processed(&ACTIVITY.to_string()));
}

#[test]
fn envelope_is_read_from_the_wire() {
    let wire = |kind: &str, object: ObjectField| WireActivity {
        context: Some("https://www.w3.org/ns/activitystreams".to_string()),
        kind: kind.to_string(),
        id: Some(ACTIVITY.to_string()),
        actor: Some(BOB.to_string()),
        object,
    };
    assert_eq!(
        Envelope::from_wire(wire("Create", ObjectField::Embedded(hello().to_wire()))),
        Ok(create(&hello()))
    );
    assert_eq!(
        Envelope::from_wire(wire("Update", ObjectField::Embedded(bob().to_wire()))),
        Ok(Envelope {
            id: ACTIVITY.to_string(),
            actor: BOB.to_string(),
            payload: Payload::Update(bob().to_wire())
        })
    );
    assert_eq!(
        Envelope::from_wire(wire("Like", ObjectField::Reference("https://x.example/1".to_string()))),
        Ok(Envelope {
            id: ACTIVITY.to_string(),
            actor: BOB.to_string(),
            payload: Payload::Unknown("Like".to_string())
        })
    );
    assert_eq!(
        Envelope::from_wire(wire("Create", ObjectField::Reference("https://x.example/1".to_string()))),
        Err(EnvelopeError::MissingObject)
    );
    assert_eq!(Envelope::from_wire(wire("Update", ObjectField::Absent)), Err(EnvelopeError::MissingObject));
    let mut no_id = wire("Like", ObjectField::Absent);
    no_id.id = None;
    no_id.actor = None;
    assert_eq!(Envelope::from_wire(no_id), Err(EnvelopeError::MissingId));
    let mut no_actor = wire("Create", ObjectField::Absent);
    no_actor.actor = None;
    assert_eq!(Envelope::from_wire(no_actor), Err(EnvelopeError::MissingActor));
}

#[test]
fn handlers_report_what_they_did() {
    let mut store = Store::new();
    let doc: WireDocument = hello().to_wire();
    assert_eq!(Payload::Create(doc.clone()).dispatch(&mut store, &bob()), Handled::Applied);
    assert_eq!(store.get_all_posts(), vec![hello()]);
    assert_eq!(
        Payload::Create(doc.clone()).dispatch(&mut store, &alice()),
        Handled::Failed(HandlerError::NotAuthor)
    );
    assert_eq!(Payload::Unknown("Like".to_string()).dispatch(&mut store, &bob()), Handled::Dropped);
    let mut broken = doc;
    broken.content = None;
    assert_eq!(
        Payload::Create(broken).dispatch(&mut store, &bob()),
        Handled::Failed(HandlerError::InvalidObject(ConversionError::MissingField(Field::Content)))
    );
    assert_eq!(store.get_all_posts(), vec![hello()]);
}

#[test]
fn a_note_under_a_foreign_url_is_not_created() {
    let mut instance = server();
    let mut stolen = hello();
    stolen.id = "https://example.com/notes/1".to_string();
    assert_eq!(
        deliver(&mut instance, create(&stolen), 1000),
        (Outcome::Rejected(Rejection::Handler(HandlerError::NotAuthor)), 1)
    );
    assert!(instance.get_all_posts().is_empty());
    let mut store = Store::new();
    assert_eq!(
        Payload::Create(stolen.to_wire()).dispatch(&mut store, &bob()),
        Handled::Failed(HandlerError::NotAuthor)
    );
    assert!(store.get_all_posts().is_empty());
}

#[test]
fn an_activity_identifier_of_another_host_is_rejected_and_not_recorded() {
    let mut instance = server();
    let mut envelope = create(&hello());
    envelope.id = "https://elsewhere.example/activities/1".to_string();
    assert_eq!(
        deliver(&mut instance, envelope, 1000),
        (Outcome::Rejected(Rejection::Signature(VerificationError::BadSignature)), 0)
    );
    assert!(!instance.store.is_processed(&"https://elsewhere.example/activities/1".to_string()));
    let mut envelope = create(&hello());
    envelope.id = "urn:uuid:1234".to_string();
    assert_eq!(
        deliver(&mut instance, envelope, 1000),
        (Outcome::Rejected(Rejection::Signature(VerificationError::BadSignature)), 0)
    );
    assert!(instance.get_all_posts().is_empty());
}

#[test]
fn share_origin_compares_the_hosts_of_two_urls() {
    assert!(share_origin("https://remote.example/u/bob", "https://remote.example/notes/1"));
    assert!(!share_origin("https://remote.example/u/bob", "https://example.com/notes/1"));
    assert!(!share_origin("bob", "https://remote.example/notes/1"));
    assert!(!share_origin("https://remote.example/u/bob", "notes/1"));
    assert!(share_origin("http://localhost:8001/u/a", "http://localhost:8001/n/1"));
    assert!(!share_origin("http://localhost:8001/u/a", "http://localhost:8002/n/1"));
}
