//! One federated server: its context, its store and its cache, and the
//! two endpoints that peers talk to.

use vstd::prelude::*;
use crate::cache::{Cache, CacheView};
use crate::inbox::{Action, Delivery, DeliveryView, Event};
use crate::instance::{default_settings, InstanceSettings, LocalInstance, LocalInstanceView};
use crate::object_id::ResolutionError;
use crate::objects::{default_context, EntityView, Note, Person, WithContext, WithContextView};
use crate::store::{local_user_position, Store, StoreView};

verus! {

/// The content type of every document that is served or asked for.
pub const APUB_JSON_CONTENT_TYPE: &'static str = "application/activity+json";

/// A federated server.
pub struct Instance<C> {
    pub local_instance: LocalInstance<C>,
    pub store: Store,
    pub cache: Cache,
}

pub struct InstanceView {
    pub local_instance: LocalInstanceView,
    pub store: StoreView,
    pub cache: CacheView,
}

impl<C> View for Instance<C> {
    type V = InstanceView;

    open spec fn view(&self) -> InstanceView {
        InstanceView {
            local_instance: self.local_instance@,
            store: self.store@,
            cache: self.cache@,
        }
    }
}

impl InstanceView {
    /// A server is well formed when its store and its cache are.
    pub open spec fn wf(self) -> bool {
        self.store.wf() && self.cache.wf()
    }

    /// The document that `GET /objects/{name}` answers with: the local
    /// person of that name, under the default namespace.
    pub open spec fn object_document(self, name: Seq<char>) -> Result<
        WithContextView,
        ResolutionError,
    > {
        match self.store.local_person(name) {
            Some(person) => Ok(
                WithContextView { context: default_context(), inner: person.to_wire() },
            ),
            None => Err(ResolutionError::NotFound),
        }
    }
}

impl<C> Instance<C> {
    /// A server called `hostname` with default settings, an empty store
    /// and an empty cache. Nothing is contacted.
    pub fn new(hostname: String, client: C) -> (instance: Instance<C>)
        ensures
            instance@.local_instance.hostname == hostname@,
            instance@.local_instance.settings == default_settings(),
            instance@.store.entities.len() == 0,
            instance@.store.processed.len() == 0,
            instance@.cache.entries.len() == 0,
            instance@.cache.capacity == 1024,
            instance@.cache.ttl_secs == 3600,
            instance@.wf(),
    {
        let settings = InstanceSettings::default();
        let cache = Cache::new(settings.cache_capacity, settings.cache_ttl_secs);
        Instance {
            local_instance: LocalInstance::new(hostname, client, settings),
            store: Store::new(),
            cache,
        }
    }

    /// The first person hosted here.
    pub fn get_user(&self) -> (user: Person)
        requires
            self@.store.has_local_user(),
        ensures
            self@.store.entities[local_user_position(self@.store.entities)] == EntityView::Person(
                user@,
            ),
    {
        self.store.get_user()
    }

    /// The stored posts, oldest first.
    pub fn get_all_posts(&self) -> (posts: Vec<Note>)
        ensures
            posts@.map_values(|n: Note| n@) == self@.store.posts(),
    {
        self.store.get_all_posts()
    }

    pub fn get_local_instance(&self) -> (local_instance: &LocalInstance<C>)
        ensures
            local_instance@ == self@.local_instance,
    {
        &self.local_instance
    }

    /// Answers `GET /objects/{name}`. Reads the store only.
    pub fn get_object(&self, name: &String) -> (res: Result<WithContext, ResolutionError>)
        ensures
            match res {
                Ok(doc) => self@.object_document(name@) == Ok::<WithContextView, ResolutionError>(
                    doc@,
                ),
                Err(e) => self@.object_document(name@) == Err::<WithContextView, ResolutionError>(
                    e,
                ),
            },
    {
        match self.store.find_local_person(name) {
            Some(person) => Ok(WithContext::new_default(person.to_wire())),
            None => Err(ResolutionError::NotFound),
        }
    }

    /// Takes one step of a delivery to the inbox.
    pub fn post_inbox(&mut self, delivery: Delivery, event: Event, now: u64) -> (next: (
        Delivery,
        Action,
    ))
        ensures
            ({
                let step = delivery@.step(
                    event@,
                    old(self)@.local_instance,
                    old(self)@.store,
                    old(self)@.cache,
                    now,
                );
                &&& next.0@ == (DeliveryView { stage: step.stage, ..delivery@ })
                &&& next.1@ == step.action
                &&& final(self)@.store == step.store
                &&& final(self)@.cache == step.cache
                &&& final(self)@.local_instance == old(self)@.local_instance
            }),
            old(self)@.wf() ==> final(self)@.wf(),
    {
        delivery.advance(&self.local_instance, &mut self.store, &mut self.cache, event, now)
    }
}

} // verus!
