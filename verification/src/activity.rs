//! Activities and their handlers.
//!
//! An activity says that an actor did something to an object. The set of
//! kinds that this server acts on is closed: `Create` stores a note,
//! `Update` replaces the sender's own profile. Every other kind is kept
//! under `Unknown` and dropped without complaint, since peers extend the
//! vocabulary on their own schedule.

use vstd::prelude::*;
use vstd::string::StringExecFns;
use crate::object_id::{reference, ObjectId};
use crate::objects::{
    ConversionError, Entity, EntityKind, EntityView, Note, Person, PersonView, WireDocument,
    WireDocumentView,
};
use crate::store::{lemma_upsert_keeps_wf, lemma_upsert_posts, Store, StoreView};

verus! {

/// The `object` of an activity as it arrives.
#[derive(Debug, PartialEq, Eq)]
pub enum ObjectField {
    Absent,
    /// The URL of the object.
    Reference(String),
    /// The object itself.
    Embedded(WireDocument),
}

pub enum ObjectFieldView {
    Absent,
    Reference(Seq<char>),
    Embedded(WireDocumentView),
}

/// An activity as it arrives, before anything is known to be present.
#[derive(Debug, PartialEq, Eq)]
pub struct WireActivity {
    /// The namespace that the document declares, if any.
    pub context: Option<String>,
    /// The declared type.
    pub kind: String,
    pub id: Option<String>,
    pub actor: Option<String>,
    pub object: ObjectField,
}

pub struct WireActivityView {
    pub context: Option<Seq<char>>,
    pub kind: Seq<char>,
    pub id: Option<Seq<char>>,
    pub actor: Option<Seq<char>>,
    pub object: ObjectFieldView,
}

/// What an activity asks for.
#[derive(Debug, PartialEq, Eq)]
pub enum Payload {
    /// Store the note that the document carries.
    Create(WireDocument),
    /// Replace the sender's profile by the person that the document carries.
    Update(WireDocument),
    /// A kind that this server does not act on; holds the declared type.
    Unknown(String),
}

pub enum PayloadView {
    Create(WireDocumentView),
    Update(WireDocumentView),
    Unknown(Seq<char>),
}

/// An activity with its identifier and its sender.
#[derive(Debug, PartialEq, Eq)]
pub struct Envelope {
    /// Globally unique URL of the activity; the key by which a second
    /// delivery is recognised.
    pub id: String,
    /// URL of the actor that claims to have sent it.
    pub actor: String,
    pub payload: Payload,
}

pub struct EnvelopeView {
    pub id: Seq<char>,
    pub actor: Seq<char>,
    pub payload: PayloadView,
}

/// Why an activity could not be read.
#[derive(Clone, Copy, Debug, PartialEq, Eq, Structural)]
pub enum EnvelopeError {
    MissingId,
    MissingActor,
    /// The kind needs an embedded object and the activity has none.
    MissingObject,
}

/// Why a handler turned an activity down.
#[derive(Clone, Copy, Debug, PartialEq, Eq, Structural)]
pub enum HandlerError {
    /// The object is not what the activity kind acts on.
    InvalidObject(ConversionError),
    /// The object does not belong to the sender, or claims a URL on a host
    /// that is not the sender's.
    NotAuthor,
}

/// What a handler did.
#[derive(Clone, Copy, Debug, PartialEq, Eq, Structural)]
pub enum Handled {
    /// The store holds the effect.
    Applied,
    /// The kind is not acted on; the store is as it was.
    Dropped,
    /// The handler failed; the store is as it was.
    Failed(HandlerError),
}

impl View for ObjectField {
    type V = ObjectFieldView;

    open spec fn view(&self) -> ObjectFieldView {
        match self {
            ObjectField::Absent => ObjectFieldView::Absent,
            ObjectField::Reference(url) => ObjectFieldView::Reference(url@),
            ObjectField::Embedded(doc) => ObjectFieldView::Embedded(doc@),
        }
    }
}

impl View for WireActivity {
    type V = WireActivityView;

    open spec fn view(&self) -> WireActivityView {
        WireActivityView {
            context: self.context.deep_view(),
            kind: self.kind@,
            id: self.id.deep_view(),
            actor: self.actor.deep_view(),
            object: self.object@,
        }
    }
}

impl View for Payload {
    type V = PayloadView;

    open spec fn view(&self) -> PayloadView {
        match self {
            Payload::Create(doc) => PayloadView::Create(doc@),
            Payload::Update(doc) => PayloadView::Update(doc@),
            Payload::Unknown(kind) => PayloadView::Unknown(kind@),
        }
    }
}

impl View for Envelope {
    type V = EnvelopeView;

    open spec fn view(&self) -> EnvelopeView {
        EnvelopeView { id: self.id@, actor: self.actor@, payload: self.payload@ }
    }
}

impl WireActivityView {
    /// What the activity asks for, by its declared type. `Create` and
    /// `Update` need an embedded object; every other type is unknown.
    pub open spec fn payload(self) -> Result<PayloadView, EnvelopeError> {
        if self.kind == "Create"@ {
            match self.object {
                ObjectFieldView::Embedded(doc) => Ok(PayloadView::Create(doc)),
                _ => Err(EnvelopeError::MissingObject),
            }
        } else if self.kind == "Update"@ {
            match self.object {
                ObjectFieldView::Embedded(doc) => Ok(PayloadView::Update(doc)),
                _ => Err(EnvelopeError::MissingObject),
            }
        } else {
            Ok(PayloadView::Unknown(self.kind))
        }
    }

    /// The envelope that the activity reads as: identifier and sender must
    /// be present, checked in that order, then the payload must read.
    pub open spec fn envelope(self) -> Result<EnvelopeView, EnvelopeError> {
        match (self.id, self.actor) {
            (None, _) => Err(EnvelopeError::MissingId),
            (Some(_), None) => Err(EnvelopeError::MissingActor),
            (Some(id), Some(actor)) => match self.payload() {
                Ok(payload) => Ok(EnvelopeView { id, actor, payload }),
                Err(e) => Err(e),
            },
        }
    }
}

/// Whether `url` lies under the authority of the actor at `owner`.
pub open spec fn same_origin(owner: Seq<char>, url: Seq<char>) -> bool {
    match reference(owner, EntityKind::Person) {
        Some(home) => home.covers(url),
        None => false,
    }
}

impl PayloadView {
    /// What the handler for this payload does to the store on behalf of
    /// the verified sender `actor`, and how it ends. A note is created for
    /// its author only, and only under a URL of the author's own host; a
    /// profile is replaced by its owner only.
    pub open spec fn handled(self, store: StoreView, actor: PersonView) -> (StoreView, Handled) {
        match self {
            PayloadView::Create(doc) => match doc.as_note() {
                Err(e) => (store, Handled::Failed(HandlerError::InvalidObject(e))),
                Ok(note) => if note.attributed_to != actor.id || !same_origin(actor.id, note.id) {
                    (store, Handled::Failed(HandlerError::NotAuthor))
                } else {
                    (store.upsert(EntityView::Note(note)), Handled::Applied)
                },
            },
            PayloadView::Update(doc) => match doc.as_person() {
                Err(e) => (store, Handled::Failed(HandlerError::InvalidObject(e))),
                Ok(person) => if person.id != actor.id {
                    (store, Handled::Failed(HandlerError::NotAuthor))
                } else {
                    (store.upsert(EntityView::Person(person)), Handled::Applied)
                },
            },
            PayloadView::Unknown(_) => (store, Handled::Dropped),
        }
    }
}

/// A handler never touches the record of processed activities, leaves
/// the store alone unless it applies the activity, and keeps a well-formed
/// store well formed.
pub proof fn lemma_handled_frame(payload: PayloadView, store: StoreView, actor: PersonView)
    ensures
        payload.handled(store, actor).0.processed == store.processed,
        payload.handled(store, actor).1 != Handled::Applied ==> payload.handled(store, actor).0
            == store,
        payload is Unknown ==> payload.handled(store, actor).1 == Handled::Dropped,
        store.wf() ==> payload.handled(store, actor).0.wf(),
{
    if store.wf() {
        match payload {
            PayloadView::Create(doc) => {
                if let Ok(note) = doc.as_note() {
                    lemma_upsert_keeps_wf(store, EntityView::Note(note));
                }
            },
            PayloadView::Update(doc) => {
                if let Ok(person) = doc.as_person() {
                    lemma_upsert_keeps_wf(store, EntityView::Person(person));
                }
            },
            PayloadView::Unknown(_) => {},
        }
    }
}

/// Creating a note whose URL nothing carries yet adds exactly that note to
/// the posts.
pub proof fn lemma_create_adds_one_post(doc: WireDocumentView, store: StoreView, actor: PersonView)
    requires
        doc.as_note() is Ok,
        doc.as_note()->Ok_0.attributed_to == actor.id,
        same_origin(actor.id, doc.as_note()->Ok_0.id),
        store.find(doc.as_note()->Ok_0.id) is None,
    ensures
        PayloadView::Create(doc).handled(store, actor).1 == Handled::Applied,
        PayloadView::Create(doc).handled(store, actor).0.posts() == store.posts().push(
            doc.as_note()->Ok_0,
        ),
{
    lemma_upsert_posts(store, doc.as_note()->Ok_0);
}

impl Envelope {
    /// Reads an activity as it arrived.
    pub fn from_wire(activity: WireActivity) -> (res: Result<Envelope, EnvelopeError>)
        ensures
            match res {
                Ok(envelope) => activity@.envelope() == Ok::<EnvelopeView, EnvelopeError>(
                    envelope@,
                ),
                Err(e) => activity@.envelope() == Err::<EnvelopeView, EnvelopeError>(e),
            },
    {
        let id = match activity.id {
            Some(id) => id,
            None => { return Err(EnvelopeError::MissingId); },
        };
        let actor = match activity.actor {
            Some(actor) => actor,
            None => { return Err(EnvelopeError::MissingActor); },
        };
        let create = String::from_str("Create");
        let update = String::from_str("Update");
        let payload = if activity.kind == create {
            match activity.object {
                ObjectField::Embedded(doc) => Payload::Create(doc),
                _ => { return Err(EnvelopeError::MissingObject); },
            }
        } else if activity.kind == update {
            match activity.object {
                ObjectField::Embedded(doc) => Payload::Update(doc),
                _ => { return Err(EnvelopeError::MissingObject); },
            }
        } else {
            Payload::Unknown(activity.kind)
        };
        Ok(Envelope { id, actor, payload })
    }
}

impl Payload {
    /// Routes the activity to the handler for its kind and runs it on
    /// behalf of the verified sender `actor`.
    pub fn dispatch(&self, store: &mut Store, actor: &Person) -> (handled: Handled)
        ensures
            (final(store)@, handled) == self@.handled(old(store)@, actor@),
    {
        match self {
            Payload::Create(doc) => create_note(doc, store, actor),
            Payload::Update(doc) => update_profile(doc, store, actor),
            Payload::Unknown(_) => Handled::Dropped,
        }
    }
}

/// Whether `url` lies under the authority of the actor at `owner`.
pub fn share_origin(owner: &str, url: &str) -> (same: bool)
    ensures
        same == same_origin(owner@, url@),
{
    match ObjectId::parse(owner, EntityKind::Person) {
        Some(home) => home.covers(url),
        None => false,
    }
}

/// The handler for `Create`: stores the note, provided the sender wrote it
/// and its URL is on the sender's host.
pub fn create_note(doc: &WireDocument, store: &mut Store, actor: &Person) -> (handled: Handled)
    ensures
        (final(store)@, handled) == PayloadView::Create(doc@).handled(old(store)@, actor@),
{
    match Note::from_wire(doc) {
        Err(e) => Handled::Failed(HandlerError::InvalidObject(e)),
        Ok(note) => {
            if note.attributed_to != actor.id || !share_origin(
                actor.id.as_str(),
                note.id.as_str(),
            ) {
                Handled::Failed(HandlerError::NotAuthor)
            } else {
                store.upsert(Entity::Note(note));
                Handled::Applied
            }
        },
    }
}

/// The handler for `Update`: replaces the sender's profile, provided the
/// document is the sender's own.
pub fn update_profile(doc: &WireDocument, store: &mut Store, actor: &Person) -> (handled: Handled)
    ensures
        (final(store)@, handled) == PayloadView::Update(doc@).handled(old(store)@, actor@),
{
    match Person::from_wire(doc) {
        Err(e) => Handled::Failed(HandlerError::InvalidObject(e)),
        Ok(person) => {
            if person.id != actor.id {
                Handled::Failed(HandlerError::NotAuthor)
            } else {
                store.upsert(Entity::Person(person));
                Handled::Applied
            }
        },
    }
}

} // verus!
