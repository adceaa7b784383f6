//! The local store: the entities this server knows and the activities it
//! has already taken in.
//!
//! Entities are kept in insertion order and found by their canonical URL.
//! `upsert` replaces the entity that carries the same URL or appends a new
//! one, so storing the same entity twice leaves one copy. The record of
//! processed activity identifiers answers "seen before?" and records the
//! identifier in one step.

use vstd::prelude::*;
use crate::objects::{Entity, EntityView, Note, NoteView, Person, PersonView};
use crate::seq_lemmas::{
    first_index, lemma_first_index, lemma_first_index_is, lemma_take_ends, lemma_take_push,
};

verus! {

/// What the server has stored.
#[derive(Debug, PartialEq, Eq)]
pub struct Store {
    entities: Vec<Entity>,
    processed: Vec<String>,
}

pub struct StoreView {
    /// The stored entities, oldest first.
    pub entities: Seq<EntityView>,
    /// The identifiers of the activities recorded as processed, oldest first.
    pub processed: Seq<Seq<char>>,
}

/// Test: the entity carries `url`.
pub open spec fn has_id(url: Seq<char>) -> spec_fn(EntityView) -> bool {
    |e: EntityView| e.id() == url
}

/// Test: the entity is a person hosted here.
pub open spec fn is_local_person() -> spec_fn(EntityView) -> bool {
    |e: EntityView| e matches EntityView::Person(p) && p.local
}

/// Test: the entity is a person hosted here and called `name`.
pub open spec fn is_local_person_named(name: Seq<char>) -> spec_fn(EntityView) -> bool {
    |e: EntityView| e matches EntityView::Person(p) && p.local && p.name == name
}

/// Index of the first entity that carries `url`, or the length if none does.
pub open spec fn position(entities: Seq<EntityView>, url: Seq<char>) -> int {
    first_index(entities, has_id(url))
}

/// The notes among `entities`, in order.
pub open spec fn notes(entities: Seq<EntityView>) -> Seq<NoteView>
    decreases entities.len(),
{
    if entities.len() == 0 {
        Seq::empty()
    } else {
        match entities.last() {
            EntityView::Note(n) => notes(entities.drop_last()).push(n),
            EntityView::Person(_) => notes(entities.drop_last()),
        }
    }
}

/// Index of the first person hosted here, or the length if there is none.
pub open spec fn local_user_position(entities: Seq<EntityView>) -> int {
    first_index(entities, is_local_person())
}

impl StoreView {
    /// The entity stored under `url`.
    pub open spec fn find(self, url: Seq<char>) -> Option<EntityView> {
        let at = position(self.entities, url);
        if at < self.entities.len() {
            Some(self.entities[at])
        } else {
            None
        }
    }

    /// The store after `entity` was written: it takes the place of the
    /// entity with the same URL, or the end of the list if there is none.
    pub open spec fn upsert(self, entity: EntityView) -> StoreView {
        let at = position(self.entities, entity.id());
        if at < self.entities.len() {
            StoreView { entities: self.entities.update(at, entity), ..self }
        } else {
            StoreView { entities: self.entities.push(entity), ..self }
        }
    }

    /// Whether the activity `id` has been recorded as processed.
    pub open spec fn is_processed(self, id: Seq<char>) -> bool {
        self.processed.contains(id)
    }

    /// The store after the activity `id` was recorded.
    pub open spec fn mark_processed(self, id: Seq<char>) -> StoreView {
        if self.is_processed(id) {
            self
        } else {
            StoreView { processed: self.processed.push(id), ..self }
        }
    }

    /// A store is well formed when no two entities carry the same URL and
    /// no activity is recorded twice.
    pub open spec fn wf(self) -> bool {
        &&& forall|i: int, j: int|
            0 <= i < j < self.entities.len() ==> self.entities[i].id() != self.entities[j].id()
        &&& self.processed.no_duplicates()
    }

    /// The stored posts, oldest first.
    pub open spec fn posts(self) -> Seq<NoteView> {
        notes(self.entities)
    }

    /// The first person hosted here under `name`.
    pub open spec fn local_person(self, name: Seq<char>) -> Option<EntityView> {
        let at = first_index(self.entities, is_local_person_named(name));
        if at < self.entities.len() {
            Some(self.entities[at])
        } else {
            None
        }
    }

    /// Whether some person is hosted here.
    pub open spec fn has_local_user(self) -> bool {
        local_user_position(self.entities) < self.entities.len()
    }
}

/// `position` returns the first index whose entity carries `url`.
pub proof fn lemma_position(entities: Seq<EntityView>, url: Seq<char>)
    ensures
        0 <= position(entities, url) <= entities.len(),
        position(entities, url) < entities.len() ==> entities[position(entities, url)].id() == url,
        forall|j: int| 0 <= j < position(entities, url) ==> (#[trigger] entities[j]).id() != url,
{
    lemma_first_index(entities, has_id(url));
}

/// An index that is preceded by no entity carrying `url`, and that is the
/// end or carries `url` itself, is the position of `url`.
pub proof fn lemma_position_is(entities: Seq<EntityView>, url: Seq<char>, at: int)
    requires
        0 <= at <= entities.len(),
        forall|j: int| 0 <= j < at ==> (#[trigger] entities[j]).id() != url,
        at < entities.len() ==> entities[at].id() == url,
    ensures
        position(entities, url) == at,
{
    lemma_first_index_is(entities, has_id(url), at);
}

/// Writing an entity keeps a store well formed.
pub proof fn lemma_upsert_keeps_wf(store: StoreView, entity: EntityView)
    requires
        store.wf(),
    ensures
        store.upsert(entity).wf(),
{
    lemma_position(store.entities, entity.id());
}

/// Recording an activity keeps a store well formed.
pub proof fn lemma_mark_keeps_wf(store: StoreView, id: Seq<char>)
    requires
        store.wf(),
    ensures
        store.mark_processed(id).wf(),
{
}

/// What was written is what a lookup of its URL finds, and lookups of
/// every other URL find what they found before.
pub proof fn lemma_upsert_find(store: StoreView, entity: EntityView, url: Seq<char>)
    ensures
        store.upsert(entity).find(entity.id()) == Some(entity),
        url != entity.id() ==> store.upsert(entity).find(url) == store.find(url),
        store.upsert(entity).processed == store.processed,
{
    let at = position(store.entities, entity.id());
    let after = store.upsert(entity).entities;
    lemma_position(store.entities, entity.id());
    lemma_position_is(after, entity.id(), at);
    if url != entity.id() {
        let old_at = position(store.entities, url);
        lemma_position(store.entities, url);
        lemma_position_is(after, url, if old_at < store.entities.len() {
            old_at
        } else {
            after.len() as int
        });
    }
}

/// Writing the same entity twice is writing it once.
pub proof fn lemma_upsert_idempotent(store: StoreView, entity: EntityView)
    ensures
        store.upsert(entity).upsert(entity) == store.upsert(entity),
{
    let at = position(store.entities, entity.id());
    let after = store.upsert(entity).entities;
    lemma_position(store.entities, entity.id());
    lemma_position_is(after, entity.id(), at);
    assert(after.update(at, entity) =~= after);
}

/// Writing a note under a URL that nothing carries adds exactly that note
/// to the posts; writing a note over a stored note keeps their number.
pub proof fn lemma_upsert_posts(store: StoreView, note: NoteView)
    ensures
        store.find(note.id) is None ==> store.upsert(EntityView::Note(note)).posts()
            == store.posts().push(note),
        store.find(note.id) matches Some(EntityView::Note(_)) ==> store.upsert(
            EntityView::Note(note),
        ).posts().len() == store.posts().len(),
{
    let entity = EntityView::Note(note);
    let at = position(store.entities, note.id);
    lemma_position(store.entities, note.id);
    if at < store.entities.len() {
        if store.entities[at] is Note {
            lemma_notes_update(store.entities, at, entity);
        }
    } else {
        assert(store.entities.push(entity).drop_last() =~= store.entities);
    }
}

/// Writing a person leaves the posts as they are, unless it takes the
/// place of a note.
pub proof fn lemma_upsert_person_keeps_posts(store: StoreView, person: PersonView)
    requires
        !(store.find(person.id) matches Some(EntityView::Note(_))),
    ensures
        store.upsert(EntityView::Person(person)).posts() == store.posts(),
{
    let entity = EntityView::Person(person);
    let at = position(store.entities, person.id);
    lemma_position(store.entities, person.id);
    if at < store.entities.len() {
        lemma_persons_update(store.entities, at, entity);
    } else {
        assert(store.entities.push(entity).drop_last() =~= store.entities);
    }
}

proof fn lemma_persons_update(entities: Seq<EntityView>, at: int, entity: EntityView)
    requires
        0 <= at < entities.len(),
        entities[at] is Person,
        entity is Person,
    ensures
        notes(entities.update(at, entity)) == notes(entities),
    decreases entities.len(),
{
    let after = entities.update(at, entity);
    if at == entities.len() - 1 {
        assert(after.drop_last() =~= entities.drop_last());
    } else {
        assert(after.drop_last() =~= entities.drop_last().update(at, entity));
        lemma_persons_update(entities.drop_last(), at, entity);
    }
}

proof fn lemma_notes_update(entities: Seq<EntityView>, at: int, entity: EntityView)
    requires
        0 <= at < entities.len(),
        entities[at] is Note,
        entity is Note,
    ensures
        notes(entities.update(at, entity)).len() == notes(entities).len(),
    decreases entities.len(),
{
    let after = entities.update(at, entity);
    if at == entities.len() - 1 {
        assert(after.drop_last() =~= entities.drop_last());
    } else {
        assert(after.drop_last() =~= entities.drop_last().update(at, entity));
        lemma_notes_update(entities.drop_last(), at, entity);
    }
}

/// Recording an activity makes it processed, recording it again changes
/// nothing, and the stored entities are never touched.
pub proof fn lemma_mark_processed(store: StoreView, id: Seq<char>)
    ensures
        store.mark_processed(id).is_processed(id),
        store.mark_processed(id).mark_processed(id) == store.mark_processed(id),
        store.mark_processed(id).entities == store.entities,
        forall|other: Seq<char>|
            store.is_processed(other) ==> #[trigger] store.mark_processed(id).is_processed(other),
{
    if !store.is_processed(id) {
        let after = store.processed.push(id);
        assert(after[after.len() - 1] == id);
        assert forall|other: Seq<char>| store.is_processed(other) implies #[trigger] after.contains(
            other,
        ) by {
            let j = choose|j: int| 0 <= j < store.processed.len() && store.processed[j] == other;
            assert(after[j] == other);
        }
    }
}

impl View for Store {
    type V = StoreView;

    closed spec fn view(&self) -> StoreView {
        StoreView {
            entities: self.entities@.map_values(|e: Entity| e@),
            processed: self.processed@.map_values(|s: String| s@),
        }
    }
}

impl Store {
    /// A store that holds nothing.
    pub fn new() -> (store: Store)
        ensures
            store@ == (StoreView { entities: Seq::empty(), processed: Seq::empty() }),
            store@.wf(),
    {
        let store = Store { entities: Vec::new(), processed: Vec::new() };
        assert(store@.entities =~= Seq::empty());
        assert(store@.processed =~= Seq::empty());
        store
    }

    fn index_of(&self, url: &String) -> (at: usize)
        ensures
            at == position(self@.entities, url@),
            at <= self.entities.len(),
            self.entities.len() == self@.entities.len(),
    {
        let mut i: usize = 0;
        while i < self.entities.len()
            invariant
                i <= self.entities.len(),
                forall|j: int| 0 <= j < i ==> (#[trigger] self@.entities[j]).id() != url@,
            decreases self.entities.len() - i,
        {
            if *self.entities[i].id() == *url {
                proof {
                    lemma_position_is(self@.entities, url@, i as int);
                }
                return i;
            }
            i += 1;
        }
        proof {
            lemma_position_is(self@.entities, url@, i as int);
        }
        i
    }

    /// Looks an entity up by its canonical URL.
    pub fn find_by_url(&self, url: &String) -> (found: Option<Entity>)
        ensures
            found.is_some() == self@.find(url@).is_some(),
            found matches Some(e) ==> self@.find(url@) == Some(e@),
    {
        let at = self.index_of(url);
        if at < self.entities.len() {
            Some(self.entities[at].clone())
        } else {
            None
        }
    }

    /// Writes an entity under its canonical URL and returns it as stored.
    pub fn upsert(&mut self, entity: Entity) -> (stored: Entity)
        ensures
            final(self)@ == old(self)@.upsert(entity@),
            old(self)@.wf() ==> final(self)@.wf(),
            stored@ == entity@,
    {
        proof {
            if self@.wf() {
                lemma_upsert_keeps_wf(self@, entity@);
            }
        }
        let at = self.index_of(entity.id());
        let stored = entity.clone();
        if at < self.entities.len() {
            self.entities.set(at, entity);
            assert(self@.entities =~= old(self)@.entities.update(at as int, entity@));
        } else {
            self.entities.push(entity);
            assert(self@.entities =~= old(self)@.entities.push(entity@));
        }
        assert(self@.processed =~= old(self)@.processed);
        stored
    }

    /// Whether the activity `activity_id` has been recorded as processed.
    pub fn is_processed(&self, activity_id: &String) -> (seen: bool)
        ensures
            seen == self@.is_processed(activity_id@),
    {
        let mut i: usize = 0;
        while i < self.processed.len()
            invariant
                i <= self.processed.len(),
                forall|j: int| 0 <= j < i ==> self@.processed[j] != activity_id@,
            decreases self.processed.len() - i,
        {
            if self.processed[i] == *activity_id {
                assert(self@.processed[i as int] == activity_id@);
                return true;
            }
            i += 1;
        }
        false
    }

    /// Records the activity `activity_id` as processed. Returns `false`, and
    /// changes nothing, if it was recorded before.
    pub fn mark_processed(&mut self, activity_id: &String) -> (fresh: bool)
        ensures
            fresh == !old(self)@.is_processed(activity_id@),
            final(self)@ == old(self)@.mark_processed(activity_id@),
            old(self)@.wf() ==> final(self)@.wf(),
    {
        proof {
            if self@.wf() {
                lemma_mark_keeps_wf(self@, activity_id@);
            }
        }
        if self.is_processed(activity_id) {
            false
        } else {
            self.processed.push(activity_id.clone());
            assert(self@.processed =~= old(self)@.processed.push(activity_id@));
            assert(self@.entities =~= old(self)@.entities);
            true
        }
    }

    /// The stored posts, oldest first.
    pub fn get_all_posts(&self) -> (posts: Vec<Note>)
        ensures
            posts@.map_values(|n: Note| n@) == self@.posts(),
    {
        let mut posts: Vec<Note> = Vec::new();
        let mut i: usize = 0;
        proof {
            lemma_take_ends(self@.entities);
            assert(posts@.map_values(|n: Note| n@) =~= Seq::<NoteView>::empty());
        }
        while i < self.entities.len()
            invariant
                i <= self.entities.len(),
                self.entities.len() == self@.entities.len(),
                posts@.map_values(|n: Note| n@) == notes(self@.entities.take(i as int)),
            decreases self.entities.len() - i,
        {
            proof {
                lemma_take_push(self@.entities, i as int);
                assert(self@.entities.take(i + 1).drop_last() =~= self@.entities.take(i as int));
            }
            let ghost before = posts@;
            match &self.entities[i] {
                Entity::Note(n) => {
                    let copy = n.clone();
                    posts.push(copy);
                    assert(posts@.map_values(|n: Note| n@) =~= before.map_values(|n: Note| n@).push(
                        copy@,
                    ));
                },
                Entity::Person(_) => {},
            }
            i += 1;
        }
        proof {
            lemma_take_ends(self@.entities);
        }
        posts
    }

    /// The first person hosted here under `name`.
    pub fn find_local_person(&self, name: &String) -> (found: Option<Person>)
        ensures
            match found {
                Some(p) => self@.local_person(name@) == Some(EntityView::Person(p@)),
                None => self@.local_person(name@) is None,
            },
    {
        let mut i: usize = 0;
        while i < self.entities.len()
            invariant
                i <= self.entities.len(),
                self.entities.len() == self@.entities.len(),
                forall|j: int|
                    0 <= j < i ==> !is_local_person_named(name@)(#[trigger] self@.entities[j]),
            decreases self.entities.len() - i,
        {
            match &self.entities[i] {
                Entity::Person(p) => {
                    if p.local && p.name == *name {
                        proof {
                            lemma_first_index_is(
                                self@.entities,
                                is_local_person_named(name@),
                                i as int,
                            );
                        }
                        return Some(p.clone());
                    }
                },
                Entity::Note(_) => {},
            }
            i += 1;
        }
        proof {
            lemma_first_index_is(self@.entities, is_local_person_named(name@), i as int);
        }
        None
    }

    /// The first person hosted here, if there is one.
    pub fn local_user(&self) -> (user: Option<Person>)
        ensures
            user.is_some() == self@.has_local_user(),
            user matches Some(p) ==> self@.entities[local_user_position(self@.entities)]
                == EntityView::Person(p@),
    {
        let mut i: usize = 0;
        while i < self.entities.len()
            invariant
                i <= self.entities.len(),
                self.entities.len() == self@.entities.len(),
                forall|j: int| 0 <= j < i ==> !is_local_person()(#[trigger] self@.entities[j]),
            decreases self.entities.len() - i,
        {
            match &self.entities[i] {
                Entity::Person(p) => {
                    if p.local {
                        proof {
                            lemma_first_index_is(self@.entities, is_local_person(), i as int);
                        }
                        return Some(p.clone());
                    }
                },
                Entity::Note(_) => {},
            }
            i += 1;
        }
        proof {
            lemma_first_index_is(self@.entities, is_local_person(), i as int);
        }
        None
    }

    /// The first person hosted here.
    pub fn get_user(&self) -> (user: Person)
        requires
            self@.has_local_user(),
        ensures
            self@.entities[local_user_position(self@.entities)] == EntityView::Person(user@),
    {
        self.local_user().unwrap()
    }
}

} // verus!
