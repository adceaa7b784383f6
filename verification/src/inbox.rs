//! The inbox pipeline: what one inbound delivery does.
//!
//! A delivery moves through
//! `Received -> Verified -> Deduplicated -> Dispatched -> Applied | Rejected`.
//! The pipeline is a step function: it takes what has happened (the
//! request arrived, a fetch came back), updates the store, and says what to
//! do next (fetch a document, or answer). The embedding server performs the
//! fetches; the pipeline never waits.
//!
//! The sender of an activity is the actor that its envelope names. The
//! signature must be by a key of that actor, and the identifier of the
//! activity must be a URL on that actor's host: a signature vouches for
//! what its owner's server issued and for nothing else, so no peer can use
//! up an identifier that another will send. The digest and the signature
//! are checked before the activity is recorded as processed, and the
//! activity is recorded before its handler runs, so a second delivery of
//! the same identifier ends as `Duplicate` with no handler run.

use vstd::prelude::*;
use crate::activity::{
    lemma_handled_frame, Envelope, EnvelopeView, Handled, HandlerError, PayloadView,
};
use crate::cache::{lemma_put_keeps_wf, Cache, CacheView};
use crate::instance::{LocalInstance, LocalInstanceView};
use crate::object_id::{
    reference, FetchOutcome, FetchOutcomeView, Lookup, LookupView, ObjectId, ObjectIdView,
    ResolutionError,
};
use crate::objects::{Entity, EntityKind, EntityView, WireDocumentView};
use crate::signature::{
    lemma_digest_gate, header_value, digest_matches, Request, RequestView, SignedRequest,
    SignedRequestView, VerificationError,
};
use crate::store::{
    lemma_mark_keeps_wf, lemma_mark_processed, lemma_upsert_keeps_wf, lemma_upsert_posts, Store,
    StoreView,
};

verus! {

/// Why a delivery was turned down.
#[derive(Clone, Copy, Debug, PartialEq, Eq, Structural)]
pub enum Rejection {
    /// The request is not authentic.
    Signature(VerificationError),
    /// The sender could not be resolved.
    ActorUnresolvable(ResolutionError),
    /// The handler failed.
    Handler(HandlerError),
}

/// How a delivery ended.
#[derive(Clone, Copy, Debug, PartialEq, Eq, Structural)]
pub enum Outcome {
    /// The handler ran and the store holds its effect.
    Applied,
    /// The activity had been processed before; nothing was done.
    Duplicate,
    /// The activity is of a kind that this server does not act on.
    Dropped,
    Rejected(Rejection),
}

/// What has happened since the last step.
#[derive(Debug, PartialEq, Eq)]
pub enum Event {
    /// The request has arrived.
    Begin,
    /// The fetch that the last step asked for has ended.
    Fetched(FetchOutcome),
}

pub enum EventView {
    Begin,
    Fetched(FetchOutcomeView),
}

/// What the embedding server is to do next.
#[derive(Debug, PartialEq, Eq)]
pub enum Action {
    /// Fetch the document at this URL and report how the fetch ended.
    Fetch(String),
    /// Answer the request; the delivery is over.
    Finish(Outcome),
}

pub enum ActionView {
    Fetch(Seq<char>),
    Finish(Outcome),
}

/// How far a delivery has come.
#[derive(Debug, PartialEq, Eq)]
pub enum Stage {
    /// Nothing has been checked yet.
    Received,
    /// The digest matches; the sender's key has to be fetched.
    AwaitingSigner { signed: SignedRequest, sender: ObjectId },
    /// The request is authentic and the activity is recorded as processed;
    /// the sender has to be fetched.
    AwaitingActor { sender: ObjectId },
    Finished(Outcome),
}

pub enum StageView {
    Received,
    AwaitingSigner { signed: SignedRequestView, sender: ObjectIdView },
    AwaitingActor { sender: ObjectIdView },
    Finished(Outcome),
}

/// One inbound delivery.
#[derive(Debug, PartialEq, Eq)]
pub struct Delivery {
    pub stage: Stage,
    pub request: Request,
    pub envelope: Envelope,
}

pub struct DeliveryView {
    pub stage: StageView,
    pub request: RequestView,
    pub envelope: EnvelopeView,
}

/// The result of one step.
pub struct StepView {
    pub stage: StageView,
    pub store: StoreView,
    pub cache: CacheView,
    pub action: ActionView,
}

impl View for Event {
    type V = EventView;

    open spec fn view(&self) -> EventView {
        match self {
            Event::Begin => EventView::Begin,
            Event::Fetched(outcome) => EventView::Fetched(outcome@),
        }
    }
}

impl View for Action {
    type V = ActionView;

    open spec fn view(&self) -> ActionView {
        match self {
            Action::Fetch(url) => ActionView::Fetch(url@),
            Action::Finish(outcome) => ActionView::Finish(*outcome),
        }
    }
}

impl View for Stage {
    type V = StageView;

    open spec fn view(&self) -> StageView {
        match self {
            Stage::Received => StageView::Received,
            Stage::AwaitingSigner { signed, sender } => StageView::AwaitingSigner {
                signed: signed@,
                sender: sender@,
            },
            Stage::AwaitingActor { sender } => StageView::AwaitingActor { sender: sender@ },
            Stage::Finished(outcome) => StageView::Finished(*outcome),
        }
    }
}

impl View for Delivery {
    type V = DeliveryView;

    open spec fn view(&self) -> DeliveryView {
        DeliveryView { stage: self.stage@, request: self.request@, envelope: self.envelope@ }
    }
}

/// The step that ends a delivery.
pub open spec fn finish(store: StoreView, cache: CacheView, outcome: Outcome) -> StepView {
    StepView {
        stage: StageView::Finished(outcome),
        store,
        cache,
        action: ActionView::Finish(outcome),
    }
}

/// The outcome that a handler's result stands for.
pub open spec fn outcome_of(handled: Handled) -> Outcome {
    match handled {
        Handled::Applied => Outcome::Applied,
        Handled::Dropped => Outcome::Dropped,
        Handled::Failed(e) => Outcome::Rejected(Rejection::Handler(e)),
    }
}

impl Outcome {
    /// The status that answers the request: 200 where the delivery was
    /// taken, also as a duplicate or unread; 401 where it is not
    /// authentic; 400 where the sender or the object is not acceptable.
    pub open spec fn status(self) -> u16 {
        match self {
            Outcome::Applied => 200,
            Outcome::Duplicate => 200,
            Outcome::Dropped => 200,
            Outcome::Rejected(Rejection::Signature(_)) => 401,
            Outcome::Rejected(Rejection::ActorUnresolvable(_)) => 400,
            Outcome::Rejected(Rejection::Handler(_)) => 400,
        }
    }

    /// The status that answers the request.
    pub fn status_code(self) -> (status: u16)
        ensures
            status == self.status(),
    {
        match self {
            Outcome::Applied => 200,
            Outcome::Duplicate => 200,
            Outcome::Dropped => 200,
            Outcome::Rejected(Rejection::Signature(_)) => 401,
            Outcome::Rejected(Rejection::ActorUnresolvable(_)) => 400,
            Outcome::Rejected(Rejection::Handler(_)) => 400,
        }
    }
}

impl EnvelopeView {
    /// `Dispatched -> Applied | Rejected`: the handler for the activity's
    /// kind runs on behalf of the resolved sender.
    pub open spec fn dispatched(
        self,
        store: StoreView,
        cache: CacheView,
        actor: EntityView,
    ) -> StepView {
        match actor {
            EntityView::Person(person) => {
                let (after, handled) = self.payload.handled(store, person);
                finish(after, cache, outcome_of(handled))
            },
            EntityView::Note(_) => finish(
                store,
                cache,
                Outcome::Rejected(Rejection::ActorUnresolvable(ResolutionError::InvalidKind)),
            ),
        }
    }

    /// `Verified -> Deduplicated -> Dispatched`: an activity that was
    /// processed before ends here as a duplicate. A fresh one is recorded,
    /// and then its sender is resolved.
    pub open spec fn deduplicated(
        self,
        sender: ObjectIdView,
        instance: LocalInstanceView,
        store: StoreView,
        cache: CacheView,
        now: u64,
    ) -> StepView {
        if store.is_processed(self.id) {
            finish(store, cache, Outcome::Duplicate)
        } else {
            let marked = store.mark_processed(self.id);
            match sender.lookup(instance, marked, cache, now) {
                LookupView::Found(actor) => self.dispatched(marked, cache, actor),
                LookupView::Fetch => StepView {
                    stage: StageView::AwaitingActor { sender },
                    store: marked,
                    cache,
                    action: ActionView::Fetch(sender.url),
                },
                LookupView::Failed(e) => finish(
                    marked,
                    cache,
                    Outcome::Rejected(Rejection::ActorUnresolvable(e)),
                ),
            }
        }
    }

    /// `Received -> Verified`, second gate: the signature is held against
    /// the key of `signer`.
    pub open spec fn verified_by(
        self,
        signed: SignedRequestView,
        sender: ObjectIdView,
        signer: EntityView,
        instance: LocalInstanceView,
        store: StoreView,
        cache: CacheView,
        now: u64,
    ) -> StepView {
        match signer {
            EntityView::Person(person) => match signed.verified(person.public_key) {
                Ok(_) => self.deduplicated(sender, instance, store, cache, now),
                Err(e) => finish(store, cache, Outcome::Rejected(Rejection::Signature(e))),
            },
            EntityView::Note(_) => finish(
                store,
                cache,
                Outcome::Rejected(Rejection::Signature(VerificationError::UnknownKey)),
            ),
        }
    }
}

impl DeliveryView {
    /// `Received -> Verified`, first gate: digest and signature header are
    /// checked, the key must belong to the actor that the envelope names,
    /// the identifier of the activity must lie under that actor's
    /// authority, and the actor is looked up.
    pub open spec fn begun(
        self,
        instance: LocalInstanceView,
        store: StoreView,
        cache: CacheView,
        now: u64,
    ) -> StepView {
        match self.request.authenticated() {
            Err(e) => finish(store, cache, Outcome::Rejected(Rejection::Signature(e))),
            Ok(signed) => match reference(signed.signer, EntityKind::Person) {
                None => finish(
                    store,
                    cache,
                    Outcome::Rejected(Rejection::Signature(VerificationError::UnknownKey)),
                ),
                Some(signer) => match reference(self.envelope.actor, EntityKind::Person) {
                    None => finish(
                        store,
                        cache,
                        Outcome::Rejected(Rejection::Signature(VerificationError::BadSignature)),
                    ),
                    Some(sender) => if sender.url != signer.url || !sender.covers(
                        self.envelope.id,
                    ) {
                        finish(
                            store,
                            cache,
                            Outcome::Rejected(
                                Rejection::Signature(VerificationError::BadSignature),
                            ),
                        )
                    } else {
                        match sender.lookup(instance, store, cache, now) {
                            LookupView::Found(actor) => self.envelope.verified_by(
                                signed,
                                sender,
                                actor,
                                instance,
                                store,
                                cache,
                                now,
                            ),
                            LookupView::Fetch => StepView {
                                stage: StageView::AwaitingSigner { signed, sender },
                                store,
                                cache,
                                action: ActionView::Fetch(sender.url),
                            },
                            LookupView::Failed(_) => finish(
                                store,
                                cache,
                                Outcome::Rejected(
                                    Rejection::Signature(VerificationError::UnknownKey),
                                ),
                            ),
                        }
                    },
                },
            },
        }
    }

    /// One step of the pipeline. A finished delivery stays finished, and a
    /// delivery that waits for a fetch asks for it again until it is told
    /// how the fetch ended.
    pub open spec fn step(
        self,
        event: EventView,
        instance: LocalInstanceView,
        store: StoreView,
        cache: CacheView,
        now: u64,
    ) -> StepView {
        match self.stage {
            StageView::Received => self.begun(instance, store, cache, now),
            StageView::AwaitingSigner { signed, sender } => match event {
                EventView::Begin => StepView {
                    stage: self.stage,
                    store,
                    cache,
                    action: ActionView::Fetch(sender.url),
                },
                EventView::Fetched(outcome) => match sender.accepted(outcome) {
                    Err(_) => finish(
                        store,
                        cache,
                        Outcome::Rejected(Rejection::Signature(VerificationError::UnknownKey)),
                    ),
                    Ok(signer) => self.envelope.verified_by(
                        signed,
                        sender,
                        signer,
                        instance,
                        store.upsert(signer),
                        cache.put(sender.url, signer, now),
                        now,
                    ),
                },
            },
            StageView::AwaitingActor { sender } => match event {
                EventView::Begin => StepView {
                    stage: self.stage,
                    store,
                    cache,
                    action: ActionView::Fetch(sender.url),
                },
                EventView::Fetched(outcome) => match sender.accepted(outcome) {
                    Err(e) => finish(
                        store,
                        cache,
                        Outcome::Rejected(Rejection::ActorUnresolvable(e)),
                    ),
                    Ok(actor) => self.envelope.dispatched(
                        store.upsert(actor),
                        cache.put(sender.url, actor, now),
                        actor,
                    ),
                },
            },
            StageView::Finished(outcome) => finish(store, cache, outcome),
        }
    }
}

/// A request that is not authentic is turned down at once, with the store
/// and the cache as they were. In particular a body that does not match
/// its digest header is turned down for that reason, whatever else the
/// request holds.
pub proof fn lemma_unauthentic_is_untouched(
    delivery: DeliveryView,
    event: EventView,
    instance: LocalInstanceView,
    store: StoreView,
    cache: CacheView,
    now: u64,
)
    requires
        delivery.stage is Received,
    ensures
        delivery.request.authenticated() matches Err(e) ==> delivery.step(
            event,
            instance,
            store,
            cache,
            now,
        ) == finish(store, cache, Outcome::Rejected(Rejection::Signature(e))),
        forall|digest: Seq<char>|
            header_value(delivery.request.headers, "digest"@) == Some(digest) && !digest_matches(
                digest,
                delivery.request.body,
            ) ==> delivery.step(event, instance, store, cache, now) == finish(
                store,
                cache,
                Outcome::Rejected(Rejection::Signature(VerificationError::DigestMismatch)),
            ),
{
    assert forall|digest: Seq<char>|
        header_value(delivery.request.headers, "digest"@) == Some(digest) && !digest_matches(
            digest,
            delivery.request.body,
        ) implies delivery.step(event, instance, store, cache, now) == finish(
        store,
        cache,
        Outcome::Rejected(Rejection::Signature(VerificationError::DigestMismatch)),
    ) by {
        lemma_digest_gate(delivery.request, digest);
    }
}

/// The store once the fetch that a delivery waited for has been taken
/// in: it holds the sender's document if the fetch brought one, and is
/// as it was otherwise.
pub open spec fn store_after_fetch(
    delivery: DeliveryView,
    event: EventView,
    store: StoreView,
) -> StoreView {
    match event {
        EventView::Begin => store,
        EventView::Fetched(outcome) => match delivery.stage {
            StageView::AwaitingSigner { signed, sender } => match sender.accepted(outcome) {
                Ok(signer) => store.upsert(signer),
                Err(_) => store,
            },
            StageView::AwaitingActor { sender } => match sender.accepted(outcome) {
                Ok(actor) => store.upsert(actor),
                Err(_) => store,
            },
            _ => store,
        },
    }
}

/// At most once: a delivery of an activity that is already recorded as
/// processed runs no handler. It ends as a duplicate or is turned down as
/// not authentic, never reaches the dispatch stage, and leaves the store as
/// verification alone left it.
pub proof fn lemma_processed_is_not_applied_again(
    delivery: DeliveryView,
    event: EventView,
    instance: LocalInstanceView,
    store: StoreView,
    cache: CacheView,
    now: u64,
)
    requires
        delivery.stage is Received || delivery.stage is AwaitingSigner,
        store.is_processed(delivery.envelope.id),
    ensures
        ({
            let step = delivery.step(event, instance, store, cache, now);
            &&& step.store == store_after_fetch(delivery, event, store)
            &&& !(step.stage is AwaitingActor)
            &&& step.action matches ActionView::Finish(outcome) ==> outcome == Outcome::Duplicate
                || outcome is Rejected && outcome->Rejected_0 is Signature
        }),
{
}

/// Record before effect: a delivery reaches the dispatch stage only for
/// an activity that was not recorded before, and only after recording it.
/// Once it is there, the record stays as it is.
pub proof fn lemma_applied_is_recorded(
    delivery: DeliveryView,
    event: EventView,
    instance: LocalInstanceView,
    store: StoreView,
    cache: CacheView,
    now: u64,
)
    ensures
        ({
            let step = delivery.step(event, instance, store, cache, now);
            let reached = step.stage is AwaitingActor || step.action == ActionView::Finish(
                Outcome::Applied,
            );
            &&& (delivery.stage is Received || delivery.stage is AwaitingSigner) && reached
                ==> !store.is_processed(delivery.envelope.id) && step.store.is_processed(
                delivery.envelope.id,
            )
            &&& delivery.stage is AwaitingActor ==> step.store.processed == store.processed
            &&& delivery.stage is Finished ==> step.store == store && step.cache == cache
                && step.stage == delivery.stage
        }),
{
    let id = delivery.envelope.id;
    if (delivery.stage is Received || delivery.stage is AwaitingSigner) && !store_after_fetch(
        delivery,
        event,
        store,
    ).is_processed(id) {
        let verified = store_after_fetch(delivery, event, store);
        let marked = verified.mark_processed(id);
        lemma_mark_processed(verified, id);
        assert forall|actor: EntityView, other: CacheView|
            (#[trigger] delivery.envelope.dispatched(marked, other, actor)).store.is_processed(
                id,
            ) by {
            if let EntityView::Person(person) = actor {
                lemma_handled_frame(delivery.envelope.payload, marked, person);
            }
        }
    }
    if let StageView::AwaitingActor { sender } = delivery.stage {
        if let EventView::Fetched(outcome) = event {
            if let Ok(actor) = sender.accepted(outcome) {
                if let EntityView::Person(person) = actor {
                    lemma_handled_frame(delivery.envelope.payload, store.upsert(actor), person);
                }
            }
        }
    }
}

/// What is recorded stays recorded: no step takes an identifier out of
/// the record of processed activities.
pub proof fn lemma_record_is_kept(
    delivery: DeliveryView,
    event: EventView,
    instance: LocalInstanceView,
    store: StoreView,
    cache: CacheView,
    now: u64,
    id: Seq<char>,
)
    requires
        store.is_processed(id),
    ensures
        delivery.step(event, instance, store, cache, now).store.is_processed(id),
{
    let fetched = store_after_fetch(delivery, event, store);
    let marked = fetched.mark_processed(delivery.envelope.id);
    lemma_mark_processed(fetched, delivery.envelope.id);
    assert(marked.is_processed(id));
    assert forall|actor: EntityView, at: StoreView, other: CacheView|
        at.is_processed(id) implies (#[trigger] delivery.envelope.dispatched(
        at,
        other,
        actor,
    )).store.is_processed(id) by {
        if let EntityView::Person(person) = actor {
            lemma_handled_frame(delivery.envelope.payload, at, person);
        }
    }
}

/// Delivered twice, applied once: after a delivery has been applied, a
/// new delivery of an activity with the same identifier leaves the store
/// exactly as it is and is never applied, whatever request carries it and
/// whatever the cache holds by then.
pub proof fn lemma_delivered_twice(
    first: DeliveryView,
    first_event: EventView,
    second: DeliveryView,
    second_event: EventView,
    instance: LocalInstanceView,
    store: StoreView,
    cache: CacheView,
    later_cache: CacheView,
    now: u64,
    later: u64,
)
    requires
        first.stage is Received || first.stage is AwaitingSigner,
        first.step(first_event, instance, store, cache, now).action == ActionView::Finish(
            Outcome::Applied,
        ),
        second.stage is Received,
        second.envelope.id == first.envelope.id,
    ensures
        ({
            let applied = first.step(first_event, instance, store, cache, now).store;
            let again = second.step(second_event, instance, applied, later_cache, later);
            &&& again.store == applied
            &&& again.action != ActionView::Finish(Outcome::Applied)
            &&& again.action matches ActionView::Finish(outcome) ==> outcome == Outcome::Duplicate
                || outcome is Rejected && outcome->Rejected_0 is Signature
        }),
{
    lemma_applied_is_recorded(first, first_event, instance, store, cache, now);
    let applied = first.step(first_event, instance, store, cache, now).store;
    lemma_processed_is_not_applied_again(
        second,
        second_event,
        instance,
        applied,
        later_cache,
        later,
    );
}

/// An applied `Create` has one effect: the posts are those that were
/// there when the sender had been resolved, and the new note after them.
pub proof fn lemma_applied_create_adds_one_post(
    delivery: DeliveryView,
    event: EventView,
    instance: LocalInstanceView,
    store: StoreView,
    cache: CacheView,
    now: u64,
    doc: WireDocumentView,
)
    requires
        !(delivery.stage is Finished),
        delivery.envelope.payload == PayloadView::Create(doc),
        delivery.step(event, instance, store, cache, now).action == ActionView::Finish(
            Outcome::Applied,
        ),
        doc.as_note() is Ok,
        store_after_fetch(delivery, event, store).find(doc.as_note()->Ok_0.id) is None,
    ensures
        delivery.step(event, instance, store, cache, now).store.posts() == store_after_fetch(
            delivery,
            event,
            store,
        ).posts().push(doc.as_note()->Ok_0),
{
    let fetched = store_after_fetch(delivery, event, store);
    let note = doc.as_note()->Ok_0;
    let marked = fetched.mark_processed(delivery.envelope.id);
    lemma_upsert_posts(fetched, note);
    lemma_upsert_posts(marked, note);
}

/// The pipeline asks for a fetch only of a sender that is not local, that
/// the cache does not answer for, and whose host the settings allow.
pub proof fn lemma_fetch_is_remote_and_allowed(
    delivery: DeliveryView,
    event: EventView,
    instance: LocalInstanceView,
    store: StoreView,
    cache: CacheView,
    now: u64,
)
    requires
        delivery.stage is Received || event is Fetched,
    ensures
        ({
            let step = delivery.step(event, instance, store, cache, now);
            &&& step.stage matches StageView::AwaitingSigner { signed, sender } ==> {
                &&& step.action == ActionView::Fetch(sender.url)
                &&& !sender.is_local(instance)
                &&& instance.settings.domain_allowed(sender.host)
                &&& step.cache.get(sender.url, now) is None
            }
            &&& step.stage matches StageView::AwaitingActor { sender } ==> {
                &&& step.action == ActionView::Fetch(sender.url)
                &&& !sender.is_local(instance)
                &&& instance.settings.domain_allowed(sender.host)
                &&& step.cache.get(sender.url, now) is None
            }
            &&& step.action is Fetch ==> step.stage is AwaitingSigner || step.stage is AwaitingActor
        }),
{
}

/// Every step keeps a well-formed store and a well-formed cache well
/// formed.
pub proof fn lemma_step_keeps_wf(
    delivery: DeliveryView,
    event: EventView,
    instance: LocalInstanceView,
    store: StoreView,
    cache: CacheView,
    now: u64,
)
    requires
        store.wf(),
        cache.wf(),
    ensures
        delivery.step(event, instance, store, cache, now).store.wf(),
        delivery.step(event, instance, store, cache, now).cache.wf(),
{
    let fetched = store_after_fetch(delivery, event, store);
    if let EventView::Fetched(outcome) = event {
        match delivery.stage {
            StageView::AwaitingSigner { signed, sender } => {
                if let Ok(e) = sender.accepted(outcome) {
                    lemma_upsert_keeps_wf(store, e);
                    lemma_put_keeps_wf(cache, sender.url, e, now);
                }
            },
            StageView::AwaitingActor { sender } => {
                if let Ok(e) = sender.accepted(outcome) {
                    lemma_upsert_keeps_wf(store, e);
                    lemma_put_keeps_wf(cache, sender.url, e, now);
                }
            },
            _ => {},
        }
    }
    lemma_mark_keeps_wf(fetched, delivery.envelope.id);
    assert forall|actor: EntityView, at: StoreView, other: CacheView| at.wf() implies (
    #[trigger] delivery.envelope.dispatched(at, other, actor)).store.wf() by {
        if let EntityView::Person(person) = actor {
            lemma_handled_frame(delivery.envelope.payload, at, person);
        }
    }
}

fn finished(store: &Store, cache: &Cache, outcome: Outcome) -> (res: (Stage, Action))
    ensures
        res.0@ == finish(store@, cache@, outcome).stage,
        res.1@ == finish(store@, cache@, outcome).action,
{
    (Stage::Finished(outcome), Action::Finish(outcome))
}

fn rejected(store: &Store, cache: &Cache, error: VerificationError) -> (res: (Stage, Action))
    ensures
        res.0@ == finish(store@, cache@, Outcome::Rejected(Rejection::Signature(error))).stage,
        res.1@ == finish(store@, cache@, Outcome::Rejected(Rejection::Signature(error))).action,
{
    finished(store, cache, Outcome::Rejected(Rejection::Signature(error)))
}

impl Envelope {
    /// Runs the handler on behalf of the resolved sender.
    pub fn dispatched(&self, store: &mut Store, cache: &Cache, actor: Entity) -> (res: (
        Stage,
        Action,
    ))
        ensures
            res.0@ == self@.dispatched(old(store)@, cache@, actor@).stage,
            res.1@ == self@.dispatched(old(store)@, cache@, actor@).action,
            final(store)@ == self@.dispatched(old(store)@, cache@, actor@).store,
    {
        match actor {
            Entity::Person(person) => {
                let outcome = match self.payload.dispatch(store, &person) {
                    Handled::Applied => Outcome::Applied,
                    Handled::Dropped => Outcome::Dropped,
                    Handled::Failed(e) => Outcome::Rejected(Rejection::Handler(e)),
                };
                finished(store, cache, outcome)
            },
            Entity::Note(_) => finished(
                store,
                cache,
                Outcome::Rejected(Rejection::ActorUnresolvable(ResolutionError::InvalidKind)),
            ),
        }
    }

    /// Ends a repeated delivery as a duplicate; records a fresh one and
    /// resolves its sender.
    pub fn deduplicated<C>(
        &self,
        sender: ObjectId,
        instance: &LocalInstance<C>,
        store: &mut Store,
        cache: &Cache,
        now: u64,
    ) -> (res: (Stage, Action))
        ensures
            res.0@ == self@.deduplicated(sender@, instance@, old(store)@, cache@, now).stage,
            res.1@ == self@.deduplicated(sender@, instance@, old(store)@, cache@, now).action,
            final(store)@ == self@.deduplicated(sender@, instance@, old(store)@, cache@, now).store,
    {
        if !store.mark_processed(&self.id) {
            return finished(store, cache, Outcome::Duplicate);
        }
        match sender.lookup(instance, store, cache, now) {
            Lookup::Found(actor) => self.dispatched(store, cache, actor),
            Lookup::Fetch => {
                let url = sender.url().clone();
                (Stage::AwaitingActor { sender }, Action::Fetch(url))
            },
            Lookup::Failed(e) => finished(
                store,
                cache,
                Outcome::Rejected(Rejection::ActorUnresolvable(e)),
            ),
        }
    }

    /// Holds the signature against the key of `signer`, and goes on where
    /// it is valid.
    pub fn verified_by<C>(
        &self,
        signed: SignedRequest,
        sender: ObjectId,
        signer: Entity,
        instance: &LocalInstance<C>,
        store: &mut Store,
        cache: &Cache,
        now: u64,
    ) -> (res: (Stage, Action))
        ensures
            res.0@ == self@.verified_by(
                signed@,
                sender@,
                signer@,
                instance@,
                old(store)@,
                cache@,
                now,
            ).stage,
            res.1@ == self@.verified_by(
                signed@,
                sender@,
                signer@,
                instance@,
                old(store)@,
                cache@,
                now,
            ).action,
            final(store)@ == self@.verified_by(
                signed@,
                sender@,
                signer@,
                instance@,
                old(store)@,
                cache@,
                now,
            ).store,
    {
        match signer {
            Entity::Person(person) => match signed.verify(person.public_key.as_str()) {
                Ok(_) => self.deduplicated(sender, instance, store, cache, now),
                Err(e) => rejected(store, cache, e),
            },
            Entity::Note(_) => rejected(store, cache, VerificationError::UnknownKey),
        }
    }
}

impl Delivery {
    /// A delivery of `envelope`, which arrived in `request`.
    pub fn new(request: Request, envelope: Envelope) -> (delivery: Delivery)
        ensures
            delivery@ == (DeliveryView {
                stage: StageView::Received,
                request: request@,
                envelope: envelope@,
            }),
    {
        Delivery { stage: Stage::Received, request, envelope }
    }

    fn begun<C>(
        request: &Request,
        envelope: &Envelope,
        instance: &LocalInstance<C>,
        store: &mut Store,
        cache: &Cache,
        now: u64,
    ) -> (res: (Stage, Action))
        ensures
            ({
                let delivery = DeliveryView {
                    stage: StageView::Received,
                    request: request@,
                    envelope: envelope@,
                };
                let step = delivery.begun(instance@, old(store)@, cache@, now);
                &&& res.0@ == step.stage
                &&& res.1@ == step.action
                &&& final(store)@ == step.store
                &&& cache@ == step.cache
            }),
    {
        let signed = match request.authenticate() {
            Ok(signed) => signed,
            Err(e) => { return rejected(store, cache, e); },
        };
        let signer = match ObjectId::parse(signed.signer.as_str(), EntityKind::Person) {
            Some(signer) => signer,
            None => { return rejected(store, cache, VerificationError::UnknownKey); },
        };
        let sender = match ObjectId::parse(envelope.actor.as_str(), EntityKind::Person) {
            Some(sender) => sender,
            None => { return rejected(store, cache, VerificationError::BadSignature); },
        };
        if *sender.url() != *signer.url() || !sender.covers(envelope.id.as_str()) {
            return rejected(store, cache, VerificationError::BadSignature);
        }
        match sender.lookup(instance, store, cache, now) {
            Lookup::Found(actor) => envelope.verified_by(
                signed,
                sender,
                actor,
                instance,
                store,
                cache,
                now,
            ),
            Lookup::Fetch => {
                let url = sender.url().clone();
                (Stage::AwaitingSigner { signed, sender }, Action::Fetch(url))
            },
            Lookup::Failed(_) => rejected(store, cache, VerificationError::UnknownKey),
        }
    }

    /// Takes one step. The result is the delivery in its next stage and
    /// what the embedding server is to do; the store and the cache are
    /// updated as the step requires.
    pub fn advance<C>(
        self,
        instance: &LocalInstance<C>,
        store: &mut Store,
        cache: &mut Cache,
        event: Event,
        now: u64,
    ) -> (next: (Delivery, Action))
        ensures
            ({
                let step = self@.step(event@, instance@, old(store)@, old(cache)@, now);
                &&& next.0@ == (DeliveryView { stage: step.stage, ..self@ })
                &&& next.1@ == step.action
                &&& final(store)@ == step.store
                &&& final(cache)@ == step.cache
            }),
            old(store)@.wf() && old(cache)@.wf() ==> final(store)@.wf() && final(cache)@.wf(),
    {
        proof {
            if store@.wf() && cache@.wf() {
                lemma_step_keeps_wf(self@, event@, instance@, store@, cache@, now);
            }
        }
        let Delivery { stage, request, envelope } = self;
        let (stage, action) = match stage {
            Stage::Received => Self::begun(&request, &envelope, instance, store, cache, now),
            Stage::AwaitingSigner { signed, sender } => match event {
                Event::Begin => {
                    let url = sender.url().clone();
                    (Stage::AwaitingSigner { signed, sender }, Action::Fetch(url))
                },
                Event::Fetched(outcome) => match sender.accept(store, cache, outcome, now) {
                    Err(_) => rejected(store, cache, VerificationError::UnknownKey),
                    Ok(signer) => envelope.verified_by(
                        signed,
                        sender,
                        signer,
                        instance,
                        store,
                        cache,
                        now,
                    ),
                },
            },
            Stage::AwaitingActor { sender } => match event {
                Event::Begin => {
                    let url = sender.url().clone();
                    (Stage::AwaitingActor { sender }, Action::Fetch(url))
                },
                Event::Fetched(outcome) => match sender.accept(store, cache, outcome, now) {
                    Err(e) => finished(
                        store,
                        cache,
                        Outcome::Rejected(Rejection::ActorUnresolvable(e)),
                    ),
                    Ok(actor) => envelope.dispatched(store, cache, actor),
                },
            },
            Stage::Finished(outcome) => finished(store, cache, outcome),
        };
        (Delivery { stage, request, envelope }, action)
    }
}

} // verus!
