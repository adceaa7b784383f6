//! Local entities, their wire documents, and the codec between the two.
//!
//! A wire document is what peers exchange: a declared type and a loose set
//! of fields. An entity is what the server stores. `to_wire` always
//! produces a document that `from_wire` accepts, and reading it back gives
//! the entity again in every field that travels.

use vstd::prelude::*;
use vstd::string::StringExecFns;

verus! {

/// The kinds of entity that a reference can resolve to.
#[derive(Clone, Copy, Debug, PartialEq, Eq, Structural)]
pub enum EntityKind {
    Person,
    Note,
}

/// A field of a wire document.
#[derive(Clone, Copy, Debug, PartialEq, Eq, Structural)]
pub enum Field {
    Id,
    Name,
    Inbox,
    PublicKey,
    AttributedTo,
    Content,
}

/// Why a wire document could not be read as an entity.
#[derive(Clone, Copy, Debug, PartialEq, Eq, Structural)]
pub enum ConversionError {
    /// The declared type is not the one that was asked for.
    KindMismatch,
    /// A field that the kind requires is absent.
    MissingField(Field),
}

/// An actor: a person who sends and receives activities.
#[derive(Debug, PartialEq, Eq)]
pub struct Person {
    /// Canonical URL of the actor.
    pub id: String,
    pub name: String,
    /// URL that accepts activities addressed to this actor.
    pub inbox: String,
    /// Public key in PEM form, against which signatures are checked.
    pub public_key: String,
    /// Whether this server hosts the actor. Does not travel.
    pub local: bool,
}

/// A post.
#[derive(Debug, PartialEq, Eq)]
pub struct Note {
    /// Canonical URL of the post.
    pub id: String,
    /// URL of the authoring actor; kept as a reference, not followed.
    pub attributed_to: String,
    pub content: String,
    /// Whether this server hosts the post. Does not travel.
    pub local: bool,
}

/// Anything a reference can resolve to.
#[derive(Debug, PartialEq, Eq)]
pub enum Entity {
    Person(Person),
    Note(Note),
}

/// The serialised form of an entity, before it is rendered as JSON.
#[derive(Debug, PartialEq, Eq)]
pub struct WireDocument {
    /// The declared type.
    pub kind: String,
    pub id: Option<String>,
    pub name: Option<String>,
    pub inbox: Option<String>,
    pub public_key: Option<String>,
    pub attributed_to: Option<String>,
    pub content: Option<String>,
}

/// A wire document under the namespace that gives its terms their meaning.
#[derive(Debug, PartialEq, Eq)]
pub struct WithContext {
    pub context: String,
    pub inner: WireDocument,
}

pub struct PersonView {
    pub id: Seq<char>,
    pub name: Seq<char>,
    pub inbox: Seq<char>,
    pub public_key: Seq<char>,
    pub local: bool,
}

pub struct NoteView {
    pub id: Seq<char>,
    pub attributed_to: Seq<char>,
    pub content: Seq<char>,
    pub local: bool,
}

pub enum EntityView {
    Person(PersonView),
    Note(NoteView),
}

pub struct WireDocumentView {
    pub kind: Seq<char>,
    pub id: Option<Seq<char>>,
    pub name: Option<Seq<char>>,
    pub inbox: Option<Seq<char>>,
    pub public_key: Option<Seq<char>>,
    pub attributed_to: Option<Seq<char>>,
    pub content: Option<Seq<char>>,
}

pub struct WithContextView {
    pub context: Seq<char>,
    pub inner: WireDocumentView,
}

impl View for Person {
    type V = PersonView;

    open spec fn view(&self) -> PersonView {
        PersonView {
            id: self.id@,
            name: self.name@,
            inbox: self.inbox@,
            public_key: self.public_key@,
            local: self.local,
        }
    }
}

impl View for Note {
    type V = NoteView;

    open spec fn view(&self) -> NoteView {
        NoteView {
            id: self.id@,
            attributed_to: self.attributed_to@,
            content: self.content@,
            local: self.local,
        }
    }
}

impl View for Entity {
    type V = EntityView;

    open spec fn view(&self) -> EntityView {
        match self {
            Entity::Person(p) => EntityView::Person(p@),
            Entity::Note(n) => EntityView::Note(n@),
        }
    }
}

impl View for WireDocument {
    type V = WireDocumentView;

    open spec fn view(&self) -> WireDocumentView {
        WireDocumentView {
            kind: self.kind@,
            id: self.id.deep_view(),
            name: self.name.deep_view(),
            inbox: self.inbox.deep_view(),
            public_key: self.public_key.deep_view(),
            attributed_to: self.attributed_to.deep_view(),
            content: self.content.deep_view(),
        }
    }
}

impl View for WithContext {
    type V = WithContextView;

    open spec fn view(&self) -> WithContextView {
        WithContextView { context: self.context@, inner: self.inner@ }
    }
}

/// The declared type of a person document.
pub open spec fn person_type() -> Seq<char> {
    "Person"@
}

/// The declared type of a note document.
pub open spec fn note_type() -> Seq<char> {
    "Note"@
}

/// The namespace that wraps every outbound document.
pub open spec fn default_context() -> Seq<char> {
    "https://www.w3.org/ns/activitystreams"@
}

impl EntityKind {
    /// The declared type that documents of this kind carry.
    pub open spec fn declared_type(self) -> Seq<char> {
        match self {
            EntityKind::Person => person_type(),
            EntityKind::Note => note_type(),
        }
    }
}

impl PersonView {
    /// The document that carries this person.
    pub open spec fn to_wire(self) -> WireDocumentView {
        WireDocumentView {
            kind: person_type(),
            id: Some(self.id),
            name: Some(self.name),
            inbox: Some(self.inbox),
            public_key: Some(self.public_key),
            attributed_to: None,
            content: None,
        }
    }

    /// This person as a remote peer's copy would hold it.
    pub open spec fn as_remote(self) -> PersonView {
        PersonView { local: false, ..self }
    }
}

impl NoteView {
    /// The document that carries this note.
    pub open spec fn to_wire(self) -> WireDocumentView {
        WireDocumentView {
            kind: note_type(),
            id: Some(self.id),
            name: None,
            inbox: None,
            public_key: None,
            attributed_to: Some(self.attributed_to),
            content: Some(self.content),
        }
    }

    /// This note as a remote peer's copy would hold it.
    pub open spec fn as_remote(self) -> NoteView {
        NoteView { local: false, ..self }
    }
}

impl EntityView {
    pub open spec fn id(self) -> Seq<char> {
        match self {
            EntityView::Person(p) => p.id,
            EntityView::Note(n) => n.id,
        }
    }

    pub open spec fn kind(self) -> EntityKind {
        match self {
            EntityView::Person(_) => EntityKind::Person,
            EntityView::Note(_) => EntityKind::Note,
        }
    }

    /// The document that carries this entity.
    pub open spec fn to_wire(self) -> WireDocumentView {
        match self {
            EntityView::Person(p) => p.to_wire(),
            EntityView::Note(n) => n.to_wire(),
        }
    }

    /// This entity as a remote peer's copy would hold it.
    pub open spec fn as_remote(self) -> EntityView {
        match self {
            EntityView::Person(p) => EntityView::Person(p.as_remote()),
            EntityView::Note(n) => EntityView::Note(n.as_remote()),
        }
    }
}

impl WireDocumentView {
    /// Reads the document as a person: the type must be right and the
    /// identifier, name, inbox and key present, checked in that order.
    pub open spec fn as_person(self) -> Result<PersonView, ConversionError> {
        if self.kind != person_type() {
            Err(ConversionError::KindMismatch)
        } else if self.id is None {
            Err(ConversionError::MissingField(Field::Id))
        } else if self.name is None {
            Err(ConversionError::MissingField(Field::Name))
        } else if self.inbox is None {
            Err(ConversionError::MissingField(Field::Inbox))
        } else if self.public_key is None {
            Err(ConversionError::MissingField(Field::PublicKey))
        } else {
            Ok(
                PersonView {
                    id: self.id->0,
                    name: self.name->0,
                    inbox: self.inbox->0,
                    public_key: self.public_key->0,
                    local: false,
                },
            )
        }
    }

    /// Reads the document as a note: the type must be right and the
    /// identifier, author and content present, checked in that order.
    pub open spec fn as_note(self) -> Result<NoteView, ConversionError> {
        if self.kind != note_type() {
            Err(ConversionError::KindMismatch)
        } else if self.id is None {
            Err(ConversionError::MissingField(Field::Id))
        } else if self.attributed_to is None {
            Err(ConversionError::MissingField(Field::AttributedTo))
        } else if self.content is None {
            Err(ConversionError::MissingField(Field::Content))
        } else {
            Ok(
                NoteView {
                    id: self.id->0,
                    attributed_to: self.attributed_to->0,
                    content: self.content->0,
                    local: false,
                },
            )
        }
    }

    /// Reads the document as an entity of the expected kind.
    pub open spec fn as_entity(self, kind: EntityKind) -> Result<EntityView, ConversionError> {
        match kind {
            EntityKind::Person => match self.as_person() {
                Ok(p) => Ok(EntityView::Person(p)),
                Err(e) => Err(e),
            },
            EntityKind::Note => match self.as_note() {
                Ok(n) => Ok(EntityView::Note(n)),
                Err(e) => Err(e),
            },
        }
    }
}

/// Reading back what was written gives the entity again, in every field
/// that travels: only the `local` mark is reset.
pub proof fn lemma_round_trip(e: EntityView)
    ensures
        e.to_wire().as_entity(e.kind()) == Ok::<EntityView, ConversionError>(e.as_remote()),
        e.to_wire() == e.as_remote().to_wire(),
{
}

/// A document is never read as a kind other than the one it declares.
pub proof fn lemma_kind_checked(doc: WireDocumentView, kind: EntityKind)
    ensures
        doc.kind != kind.declared_type() ==> doc.as_entity(kind) == Err::<
            EntityView,
            ConversionError,
        >(ConversionError::KindMismatch),
        doc.as_entity(kind) matches Ok(e) ==> doc.kind == kind.declared_type() && e.kind() == kind
            && Some(e.id()) == doc.id,
{
}

impl Clone for Person {
    fn clone(&self) -> (res: Self)
        ensures
            res == *self,
    {
        Person {
            id: self.id.clone(),
            name: self.name.clone(),
            inbox: self.inbox.clone(),
            public_key: self.public_key.clone(),
            local: self.local,
        }
    }
}

impl Clone for Note {
    fn clone(&self) -> (res: Self)
        ensures
            res == *self,
    {
        Note {
            id: self.id.clone(),
            attributed_to: self.attributed_to.clone(),
            content: self.content.clone(),
            local: self.local,
        }
    }
}

impl Clone for Entity {
    fn clone(&self) -> (res: Self)
        ensures
            res == *self,
    {
        match self {
            Entity::Person(p) => Entity::Person(p.clone()),
            Entity::Note(n) => Entity::Note(n.clone()),
        }
    }
}

/// A copy of an optional text.
pub fn clone_text(text: &Option<String>) -> (res: Option<String>)
    ensures
        res == *text,
{
    match text {
        Some(s) => Some(s.clone()),
        None => None,
    }
}

impl Clone for WireDocument {
    fn clone(&self) -> (res: Self)
        ensures
            res == *self,
    {
        WireDocument {
            kind: self.kind.clone(),
            id: clone_text(&self.id),
            name: clone_text(&self.name),
            inbox: clone_text(&self.inbox),
            public_key: clone_text(&self.public_key),
            attributed_to: clone_text(&self.attributed_to),
            content: clone_text(&self.content),
        }
    }
}

impl Person {
    /// Writes the person as a wire document.
    pub fn to_wire(&self) -> (doc: WireDocument)
        ensures
            doc@ == self@.to_wire(),
    {
        WireDocument {
            kind: String::from_str("Person"),
            id: Some(self.id.clone()),
            name: Some(self.name.clone()),
            inbox: Some(self.inbox.clone()),
            public_key: Some(self.public_key.clone()),
            attributed_to: None,
            content: None,
        }
    }

    /// Reads a person from a wire document. Touches nothing but the document.
    pub fn from_wire(doc: &WireDocument) -> (res: Result<Person, ConversionError>)
        ensures
            match res {
                Ok(p) => doc@.as_person() == Ok::<PersonView, ConversionError>(p@),
                Err(e) => doc@.as_person() == Err::<PersonView, ConversionError>(e),
            },
    {
        let expected = String::from_str("Person");
        if doc.kind != expected {
            return Err(ConversionError::KindMismatch);
        }
        let id = match &doc.id {
            Some(id) => id.clone(),
            None => { return Err(ConversionError::MissingField(Field::Id)); },
        };
        let name = match &doc.name {
            Some(name) => name.clone(),
            None => { return Err(ConversionError::MissingField(Field::Name)); },
        };
        let inbox = match &doc.inbox {
            Some(inbox) => inbox.clone(),
            None => { return Err(ConversionError::MissingField(Field::Inbox)); },
        };
        let public_key = match &doc.public_key {
            Some(key) => key.clone(),
            None => { return Err(ConversionError::MissingField(Field::PublicKey)); },
        };
        Ok(Person { id, name, inbox, public_key, local: false })
    }
}

impl Note {
    /// Writes the note as a wire document.
    pub fn to_wire(&self) -> (doc: WireDocument)
        ensures
            doc@ == self@.to_wire(),
    {
        WireDocument {
            kind: String::from_str("Note"),
            id: Some(self.id.clone()),
            name: None,
            inbox: None,
            public_key: None,
            attributed_to: Some(self.attributed_to.clone()),
            content: Some(self.content.clone()),
        }
    }

    /// Reads a note from a wire document. Touches nothing but the document;
    /// the author stays a reference for the caller to follow.
    pub fn from_wire(doc: &WireDocument) -> (res: Result<Note, ConversionError>)
        ensures
            match res {
                Ok(n) => doc@.as_note() == Ok::<NoteView, ConversionError>(n@),
                Err(e) => doc@.as_note() == Err::<NoteView, ConversionError>(e),
            },
    {
        let expected = String::from_str("Note");
        if doc.kind != expected {
            return Err(ConversionError::KindMismatch);
        }
        let id = match &doc.id {
            Some(id) => id.clone(),
            None => { return Err(ConversionError::MissingField(Field::Id)); },
        };
        let attributed_to = match &doc.attributed_to {
            Some(author) => author.clone(),
            None => { return Err(ConversionError::MissingField(Field::AttributedTo)); },
        };
        let content = match &doc.content {
            Some(content) => content.clone(),
            None => { return Err(ConversionError::MissingField(Field::Content)); },
        };
        Ok(Note { id, attributed_to, content, local: false })
    }
}

impl Entity {
    /// The kind of this entity.
    pub fn kind(&self) -> (kind: EntityKind)
        ensures
            kind == self@.kind(),
    {
        match self {
            Entity::Person(_) => EntityKind::Person,
            Entity::Note(_) => EntityKind::Note,
        }
    }

    /// The canonical URL of this entity.
    pub fn id(&self) -> (id: &String)
        ensures
            id@ == self@.id(),
    {
        match self {
            Entity::Person(p) => &p.id,
            Entity::Note(n) => &n.id,
        }
    }

    /// Writes the entity as a wire document.
    pub fn to_wire(&self) -> (doc: WireDocument)
        ensures
            doc@ == self@.to_wire(),
    {
        match self {
            Entity::Person(p) => p.to_wire(),
            Entity::Note(n) => n.to_wire(),
        }
    }

    /// Reads an entity of the expected kind from a wire document.
    pub fn from_wire(doc: &WireDocument, kind: EntityKind) -> (res: Result<Entity, ConversionError>)
        ensures
            match res {
                Ok(e) => doc@.as_entity(kind) == Ok::<EntityView, ConversionError>(e@),
                Err(e) => doc@.as_entity(kind) == Err::<EntityView, ConversionError>(e),
            },
    {
        match kind {
            EntityKind::Person => match Person::from_wire(doc) {
                Ok(p) => Ok(Entity::Person(p)),
                Err(e) => Err(e),
            },
            EntityKind::Note => match Note::from_wire(doc) {
                Ok(n) => Ok(Entity::Note(n)),
                Err(e) => Err(e),
            },
        }
    }
}

impl WithContext {
    /// Wraps a document in the default namespace.
    pub fn new_default(inner: WireDocument) -> (res: WithContext)
        ensures
            res@ == (WithContextView { context: default_context(), inner: inner@ }),
    {
        WithContext { context: String::from_str("https://www.w3.org/ns/activitystreams"), inner }
    }
}

} // verus!
