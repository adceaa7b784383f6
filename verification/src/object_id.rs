//! Typed references and their resolution.
//!
//! An `ObjectId` is an absolute URL together with the kind of entity it is
//! expected to name. Resolution never waits on the network itself: `lookup`
//! answers from the store or the cache, or says that the document has to
//! be fetched, and `accept` takes what the fetch brought back. References
//! inside a resolved entity stay references; nothing is followed on its own.

use vstd::prelude::*;
use vstd::string::StringExecFns;
use crate::cache::{Cache, CacheView};
use crate::instance::{LocalInstance, LocalInstanceView};
use crate::objects::{
    ConversionError, Entity, EntityKind, EntityView, Note, WireDocument, WireDocumentView,
};
use crate::store::{Store, StoreView};
use crate::text::{decimal, decimal_text};

verus! {

/// What the URL parser makes of `input`: nothing if it is no absolute URL
/// with a host, else the URL in normal form, its host, and its port unless
/// that is the default port of the scheme.
pub uninterp spec fn url_parts(input: Seq<char>) -> Option<(Seq<char>, Seq<char>, Option<u16>)>;

/// Parses `input` with `url::Url::parse` and reads the serialisation
/// (`Url::as_str`), the host (`Url::host_str`) and the port (`Url::port`)
/// off the result. The contract only names the outcome: the same text
/// always parses to the same parts.
#[verifier::external_body]
fn parse_url(input: &str) -> (parts: Option<(String, String, Option<u16>)>)
    ensures
        match parts {
            Some((url, host, port)) => url_parts(input@) == Some((url@, host@, port)),
            None => url_parts(input@) is None,
        },
{
    let url = url::Url::parse(input).ok()?;
    let host = url.host_str()?.to_owned();
    Some((url.as_str().to_owned(), host, url.port()))
}

/// A reference to an entity of a known kind.
#[derive(Debug, PartialEq, Eq)]
pub struct ObjectId {
    url: String,
    host: String,
    port: Option<u16>,
    kind: EntityKind,
}

pub struct ObjectIdView {
    pub url: Seq<char>,
    pub host: Seq<char>,
    pub port: Option<u16>,
    pub kind: EntityKind,
}

/// Why a reference could not be resolved.
#[derive(Clone, Copy, Debug, PartialEq, Eq, Structural)]
pub enum ResolutionError {
    /// The reference is local, or may not be fetched, and nothing is stored for it.
    NotFound,
    /// The settings forbid contacting the host.
    DomainBlocked,
    /// The request failed, timed out, or was answered with a status outside 200..=299.
    FetchFailed,
    /// The entity or document is of another kind than the reference expects.
    InvalidKind,
    /// The answer is no document, lacks a field that the kind requires, or
    /// carries a URL that the answering host has no authority over.
    Malformed,
}

/// The answer to a lookup.
#[derive(Debug, PartialEq, Eq)]
pub enum Lookup {
    /// The entity was at hand.
    Found(Entity),
    /// The document has to be fetched from the URL of the reference.
    Fetch,
    Failed(ResolutionError),
}

pub enum LookupView {
    Found(EntityView),
    Fetch,
    Failed(ResolutionError),
}

/// What an outbound fetch brought back.
#[derive(Debug, PartialEq, Eq)]
pub enum FetchOutcome {
    /// No answer: the connection failed or the timeout passed.
    Failed,
    /// An answer with its status, and its body if that is a document.
    Response { status: u16, document: Option<WireDocument> },
}

pub enum FetchOutcomeView {
    Failed,
    Response { status: u16, document: Option<WireDocumentView> },
}

impl View for ObjectId {
    type V = ObjectIdView;

    closed spec fn view(&self) -> ObjectIdView {
        ObjectIdView { url: self.url@, host: self.host@, port: self.port, kind: self.kind }
    }
}

impl View for Lookup {
    type V = LookupView;

    open spec fn view(&self) -> LookupView {
        match self {
            Lookup::Found(e) => LookupView::Found(e@),
            Lookup::Fetch => LookupView::Fetch,
            Lookup::Failed(e) => LookupView::Failed(*e),
        }
    }
}

impl View for FetchOutcome {
    type V = FetchOutcomeView;

    open spec fn view(&self) -> FetchOutcomeView {
        match self {
            FetchOutcome::Failed => FetchOutcomeView::Failed,
            FetchOutcome::Response { status, document } => FetchOutcomeView::Response {
                status: *status,
                document: match document {
                    Some(d) => Some(d@),
                    None => None,
                },
            },
        }
    }
}

/// The reference that `text` reads as: its URL in normal form with host
/// and port, tagged with `kind`. There is none if `text` is no absolute
/// URL with a host.
pub open spec fn reference(text: Seq<char>, kind: EntityKind) -> Option<ObjectIdView> {
    match url_parts(text) {
        Some((url, host, port)) => Some(ObjectIdView { url, host, port, kind }),
        None => None,
    }
}

/// What is at hand, held against the kind that the reference expects.
pub open spec fn of_kind(found: EntityView, kind: EntityKind) -> LookupView {
    if found.kind() == kind {
        LookupView::Found(found)
    } else {
        LookupView::Failed(ResolutionError::InvalidKind)
    }
}

/// The error that a failed conversion resolves to.
pub open spec fn conversion_failure(e: ConversionError) -> ResolutionError {
    match e {
        ConversionError::KindMismatch => ResolutionError::InvalidKind,
        ConversionError::MissingField(_) => ResolutionError::Malformed,
    }
}

impl ObjectIdView {
    /// Host and port as they stand in the URL: the host alone where the
    /// port is the default one.
    pub open spec fn authority(self) -> Seq<char> {
        match self.port {
            None => self.host,
            Some(port) => self.host + seq![':'] + decimal(port as nat),
        }
    }

    /// Whether both references name the same host and port.
    pub open spec fn same_authority(self, other: ObjectIdView) -> bool {
        self.host == other.host && self.port == other.port
    }

    /// Whether `url` is a URL under the authority of this reference.
    pub open spec fn covers(self, url: Seq<char>) -> bool {
        match reference(url, self.kind) {
            Some(other) => self.same_authority(other),
            None => false,
        }
    }

    /// A reference is local when its authority is the server's own name.
    pub open spec fn is_local(self, instance: LocalInstanceView) -> bool {
        self.authority() == instance.hostname
    }

    /// The answer to a lookup. A local reference is answered from the
    /// store alone. A remote one is answered from the cache; on a miss it
    /// is to be fetched, provided the settings allow its host.
    pub open spec fn lookup(
        self,
        instance: LocalInstanceView,
        store: StoreView,
        cache: CacheView,
        now: u64,
    ) -> LookupView {
        if self.is_local(instance) {
            match store.find(self.url) {
                Some(found) => of_kind(found, self.kind),
                None => LookupView::Failed(ResolutionError::NotFound),
            }
        } else {
            match cache.get(self.url, now) {
                Some(found) => of_kind(found, self.kind),
                None => if instance.settings.domain_allowed(self.host) {
                    LookupView::Fetch
                } else {
                    LookupView::Failed(ResolutionError::DomainBlocked)
                },
            }
        }
    }

    /// What a fetch resolves to: the entity that the returned document
    /// carries, if the fetch succeeded, the document is of the expected
    /// kind, and the entity's own URL lies under the authority that was
    /// asked. A peer answers for what it hosts and for nothing else.
    pub open spec fn accepted(self, outcome: FetchOutcomeView) -> Result<
        EntityView,
        ResolutionError,
    > {
        match outcome {
            FetchOutcomeView::Failed => Err(ResolutionError::FetchFailed),
            FetchOutcomeView::Response { status, document } => {
                if !(200 <= status <= 299) {
                    Err(ResolutionError::FetchFailed)
                } else {
                    match document {
                        None => Err(ResolutionError::Malformed),
                        Some(doc) => match doc.as_entity(self.kind) {
                            Ok(e) => if self.covers(e.id()) {
                                Ok(e)
                            } else {
                                Err(ResolutionError::Malformed)
                            },
                            Err(e) => Err(conversion_failure(e)),
                        },
                    }
                }
            },
        }
    }
}

/// A local reference is never fetched, whatever the store and the cache hold.
pub proof fn lemma_local_never_fetched(
    id: ObjectIdView,
    instance: LocalInstanceView,
    store: StoreView,
    cache: CacheView,
    now: u64,
)
    requires
        id.is_local(instance),
    ensures
        !(id.lookup(instance, store, cache, now) is Fetch),
{
}

/// What a lookup finds is of the kind that the reference expects.
pub proof fn lemma_found_is_of_kind(
    id: ObjectIdView,
    instance: LocalInstanceView,
    store: StoreView,
    cache: CacheView,
    now: u64,
)
    ensures
        id.lookup(instance, store, cache, now) matches LookupView::Found(e) ==> e.kind() == id.kind,
        forall|outcome: FetchOutcomeView| #[trigger]
            id.accepted(outcome) matches Ok(e) ==> e.kind() == id.kind,
{
}

/// A cached entity is never fetched again while its entry answers.
pub proof fn lemma_cached_never_fetched(
    id: ObjectIdView,
    instance: LocalInstanceView,
    store: StoreView,
    cache: CacheView,
    now: u64,
)
    requires
        cache.get(id.url, now) is Some,
    ensures
        !(id.lookup(instance, store, cache, now) is Fetch),
{
}

impl Note {
    /// The reference to the author of the note, for the caller to resolve
    /// if and when it wants to. `None` if the author is no absolute URL
    /// with a host.
    pub fn author(&self) -> (author: Option<ObjectId>)
        ensures
            match author {
                Some(id) => reference(self@.attributed_to, EntityKind::Person) == Some(id@),
                None => reference(self@.attributed_to, EntityKind::Person) is None,
            },
    {
        ObjectId::parse(self.attributed_to.as_str(), EntityKind::Person)
    }
}

impl ObjectId {
    /// Reads a reference from text. `None` if the text is no absolute URL
    /// with a host.
    pub fn parse(input: &str, kind: EntityKind) -> (id: Option<ObjectId>)
        ensures
            match id {
                Some(id) => reference(input@, kind) == Some(id@),
                None => reference(input@, kind) is None,
            },
    {
        match parse_url(input) {
            Some((url, host, port)) => Some(ObjectId::from_parts(url, host, port, kind)),
            None => None,
        }
    }

    /// A reference from the parts of a parsed URL.
    pub fn from_parts(url: String, host: String, port: Option<u16>, kind: EntityKind) -> (id:
        ObjectId)
        ensures
            id@ == (ObjectIdView { url: url@, host: host@, port, kind }),
    {
        ObjectId { url, host, port, kind }
    }

    /// The URL in normal form.
    pub fn url(&self) -> (url: &String)
        ensures
            url@ == self@.url,
    {
        &self.url
    }

    /// The kind of entity that the reference expects.
    pub fn kind(&self) -> (kind: EntityKind)
        ensures
            kind == self@.kind,
    {
        self.kind
    }

    /// Host and port as they stand in the URL.
    pub fn authority(&self) -> (authority: String)
        ensures
            authority@ == self@.authority(),
    {
        let mut authority = self.host.clone();
        match self.port {
            None => {},
            Some(port) => {
                proof {
                    reveal_strlit(":");
                }
                authority.append(":");
                assert(":"@ =~= seq![':']);
                let digits = decimal_text(port);
                authority.append(digits.as_str());
            },
        }
        authority
    }

    /// Whether both references name the same host and port.
    pub fn same_authority(&self, other: &ObjectId) -> (same: bool)
        ensures
            same == self@.same_authority(other@),
    {
        if self.host != other.host {
            return false;
        }
        match (self.port, other.port) {
            (None, None) => true,
            (Some(a), Some(b)) => a == b,
            _ => false,
        }
    }

    /// Whether `url` is a URL under the authority of this reference.
    pub fn covers(&self, url: &str) -> (covered: bool)
        ensures
            covered == self@.covers(url@),
    {
        match ObjectId::parse(url, self.kind) {
            Some(other) => self.same_authority(&other),
            None => false,
        }
    }

    /// Whether the reference names something on this server.
    pub fn is_local<C>(&self, instance: &LocalInstance<C>) -> (local: bool)
        ensures
            local == self@.is_local(instance@),
    {
        self.authority() == *instance.hostname()
    }

    fn checked(&self, found: Entity) -> (res: Lookup)
        ensures
            res@ == of_kind(found@, self@.kind),
    {
        if found.kind() == self.kind {
            Lookup::Found(found)
        } else {
            Lookup::Failed(ResolutionError::InvalidKind)
        }
    }

    /// Answers from what is at hand, or says that the document has to be
    /// fetched. Reads memory only, and never asks for a fetch of a local
    /// reference or of one that the cache answers.
    pub fn lookup<C>(
        &self,
        instance: &LocalInstance<C>,
        store: &Store,
        cache: &Cache,
        now: u64,
    ) -> (res: Lookup)
        ensures
            res@ == self@.lookup(instance@, store@, cache@, now),
            self@.is_local(instance@) ==> !(res is Fetch),
    {
        if self.is_local(instance) {
            match store.find_by_url(&self.url) {
                Some(found) => self.checked(found),
                None => Lookup::Failed(ResolutionError::NotFound),
            }
        } else {
            match cache.get(&self.url, now) {
                Some(found) => self.checked(found),
                None => {
                    if instance.settings().domain_allowed(&self.host) {
                        Lookup::Fetch
                    } else {
                        Lookup::Failed(ResolutionError::DomainBlocked)
                    }
                },
            }
        }
    }

    /// Resolves without the network: what `lookup` finds, and `NotFound`
    /// where it would ask for a fetch.
    pub fn dereference_local<C>(
        &self,
        instance: &LocalInstance<C>,
        store: &Store,
        cache: &Cache,
        now: u64,
    ) -> (res: Result<Entity, ResolutionError>)
        ensures
            match self@.lookup(instance@, store@, cache@, now) {
                LookupView::Found(e) => res matches Ok(found) && found@ == e,
                LookupView::Fetch => res == Err::<Entity, ResolutionError>(
                    ResolutionError::NotFound,
                ),
                LookupView::Failed(e) => res == Err::<Entity, ResolutionError>(e),
            },
    {
        match self.lookup(instance, store, cache, now) {
            Lookup::Found(found) => Ok(found),
            Lookup::Fetch => Err(ResolutionError::NotFound),
            Lookup::Failed(e) => Err(e),
        }
    }

    /// Takes in what the fetch of this reference brought back. On success
    /// the entity is written to the store under its own URL, cached under
    /// the URL of the reference, and returned. On failure the store and the
    /// cache are as they were. A document that claims a URL on another
    /// host than the one that was asked is turned down as malformed.
    pub fn accept(
        &self,
        store: &mut Store,
        cache: &mut Cache,
        outcome: FetchOutcome,
        now: u64,
    ) -> (res: Result<Entity, ResolutionError>)
        ensures
            match self@.accepted(outcome@) {
                Ok(e) => {
                    &&& res matches Ok(found) && found@ == e
                    &&& final(store)@ == old(store)@.upsert(e)
                    &&& final(cache)@ == old(cache)@.put(self@.url, e, now)
                },
                Err(e) => {
                    &&& res == Err::<Entity, ResolutionError>(e)
                    &&& final(store)@ == old(store)@
                    &&& final(cache)@ == old(cache)@
                },
            },
            old(store)@.wf() ==> final(store)@.wf(),
            old(cache)@.wf() ==> final(cache)@.wf(),
    {
        match outcome {
            FetchOutcome::Failed => Err(ResolutionError::FetchFailed),
            FetchOutcome::Response { status, document } => {
                if status < 200 || status > 299 {
                    return Err(ResolutionError::FetchFailed);
                }
                match document {
                    None => Err(ResolutionError::Malformed),
                    Some(doc) => match Entity::from_wire(&doc, self.kind) {
                        Ok(entity) => {
                            if !self.covers(entity.id().as_str()) {
                                return Err(ResolutionError::Malformed);
                            }
                            let stored = store.upsert(entity);
                            cache.put(self.url.clone(), stored.clone(), now);
                            Ok(stored)
                        },
                        Err(ConversionError::KindMismatch) => Err(ResolutionError::InvalidKind),
                        Err(ConversionError::MissingField(_)) => Err(ResolutionError::Malformed),
                    },
                }
            },
        }
    }
}

} // verus!
