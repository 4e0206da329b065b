//! Scene entities and the scene that numbers them.
use vstd::prelude::*;

use crate::geometry::{Material, PrimitiveShape, Transform};
use crate::ids::{EntityId, ObjectId};

verus! {

/// A scene object: shape, transform, material and segmentation ID.
#[derive(Debug, Clone, PartialEq)]
pub struct Entity<S> {
    pub id: EntityId,
    pub name: String,
    pub shape: PrimitiveShape<S>,
    pub transform: Transform<S>,
    pub material: Material<S>,
    pub object_id: ObjectId,
}

impl<S> Entity<S> {
    /// A new entity, not yet numbered by a scene.
    pub fn new(
        name: &str,
        shape: PrimitiveShape<S>,
        transform: Transform<S>,
        material: Material<S>,
        object_id: ObjectId,
    ) -> (entity: Entity<S>)
        ensures
            entity.id.value() == 0,
            entity.name@ == name@,
            entity.shape == shape,
            entity.transform == transform,
            entity.material == material,
            entity.object_id == object_id,
    {
        Entity {
            id: EntityId::unassigned(),
            name: String::from_str(name),
            shape,
            transform,
            material,
            object_id,
        }
    }
}

/// A collection of entities that hands out entity IDs and answers queries by
/// entity ID and by object ID.
#[derive(Debug, Clone, PartialEq)]
pub struct Scene<S> {
    entities: Vec<Entity<S>>,
    next_id: u64,
}

/// Index of the first entity with entity ID `id`, if any.
pub open spec fn first_with_id<S>(entities: Seq<Entity<S>>, id: EntityId, i: int) -> bool {
    &&& 0 <= i < entities.len()
    &&& entities[i].id == id
    &&& forall|j: int| 0 <= j < i ==> entities[j].id != id
}

/// Index of the first entity with object ID `object_id`, if any.
pub open spec fn first_with_object_id<S>(entities: Seq<Entity<S>>, object_id: ObjectId, i: int) -> bool {
    &&& 0 <= i < entities.len()
    &&& entities[i].object_id == object_id
    &&& forall|j: int| 0 <= j < i ==> entities[j].object_id != object_id
}

impl<S> View for Scene<S> {
    type V = Seq<Entity<S>>;

    closed spec fn view(&self) -> Seq<Entity<S>> {
        self.entities@
    }
}

impl<S> Scene<S> {
    /// The ID the next added entity receives.
    pub closed spec fn next_id(&self) -> u64 {
        self.next_id
    }

    /// Every entity's ID is below the next ID to be handed out, and no two
    /// entities share an ID. Scenes built by `new` and `add_entity` keep this;
    /// one assembled with `from_parts` may not.
    pub open spec fn well_formed(&self) -> bool {
        &&& forall|i: int| 0 <= i < self@.len() ==> (#[trigger] self@[i]).id.value() < self.next_id()
        &&& forall|i: int, j: int|
            0 <= i < j < self@.len() ==> (#[trigger] self@[i]).id != (#[trigger] self@[j]).id
    }

    /// An empty scene; the first entity added receives ID `1`.
    pub fn new() -> (scene: Scene<S>)
        ensures
            scene@ == Seq::<Entity<S>>::empty(),
            scene.next_id() == 1,
            scene.well_formed(),
    {
        Scene { entities: Vec::new(), next_id: 1 }
    }

    /// A scene with the given entities and next ID, as read back from a file.
    pub fn from_parts(entities: Vec<Entity<S>>, next_id: u64) -> (scene: Scene<S>)
        ensures
            scene@ == entities@,
            scene.next_id() == next_id,
    {
        Scene { entities, next_id }
    }

    /// The scene's entities and next ID, for writing it out.
    pub fn into_parts(self) -> (parts: (Vec<Entity<S>>, u64))
        ensures
            parts.0@ == self@,
            parts.1 == self.next_id(),
    {
        (self.entities, self.next_id)
    }

    pub fn next_entity_id(&self) -> (next: u64)
        ensures
            next == self.next_id(),
    {
        self.next_id
    }

    /// Numbers `entity` with the scene's next ID, appends it, and returns the
    /// ID.
    pub fn add_entity(&mut self, entity: Entity<S>) -> (id: EntityId)
        requires
            old(self).next_id() < u64::MAX,
        ensures
            id.value() == old(self).next_id(),
            final(self).next_id() == old(self).next_id() + 1,
            final(self)@ == old(self)@.push(Entity { id, ..entity }),
            old(self).well_formed() ==> final(self).well_formed(),
    {
        let id = EntityId::new(self.next_id);
        self.next_id = self.next_id + 1;
        let mut entity = entity;
        entity.id = id;
        self.entities.push(entity);
        proof {
            if old(self).well_formed() {
                assert forall|i: int, j: int| 0 <= i < j < self@.len() implies (
                #[trigger] self@[i]).id != (#[trigger] self@[j]).id by {
                    if j == self@.len() - 1 {
                        assert(self@[i].id.value() < id.value());
                    } else {
                        assert(old(self)@[i] == self@[i]);
                        assert(old(self)@[j] == self@[j]);
                    }
                }
            }
        }
        id
    }

    /// The first entity with ID `id`, if any.
    pub fn entity(&self, id: EntityId) -> (found: Option<&Entity<S>>)
        ensures
            found is None <==> forall|i: int| 0 <= i < self@.len() ==> self@[i].id != id,
            found matches Some(e) ==> exists|i: int|
                first_with_id(self@, id, i) && *e == #[trigger] self@[i],
    {
        let mut i: usize = 0;
        while i < self.entities.len()
            invariant
                i <= self@.len(),
                forall|j: int| 0 <= j < i ==> self@[j].id != id,
            decreases self@.len() - i,
        {
            if self.entities[i].id == id {
                assert(first_with_id(self@, id, i as int));
                return Some(&self.entities[i]);
            }
            i = i + 1;
        }
        None
    }

    /// Position of the first entity with ID `id`, if any.
    pub fn entity_index(&self, id: EntityId) -> (found: Option<usize>)
        ensures
            found is None <==> forall|i: int| 0 <= i < self@.len() ==> self@[i].id != id,
            found matches Some(i) ==> first_with_id(self@, id, i as int),
    {
        let mut i: usize = 0;
        while i < self.entities.len()
            invariant
                i <= self@.len(),
                forall|j: int| 0 <= j < i ==> self@[j].id != id,
            decreases self@.len() - i,
        {
            if self.entities[i].id == id {
                return Some(i);
            }
            i = i + 1;
        }
        None
    }

    /// Mutable access to the first entity with ID `id`, if any. Whatever is
    /// written through it replaces that entity and nothing else.
    pub fn entity_mut(&mut self, id: EntityId) -> (found: Option<&mut Entity<S>>)
        ensures
            found is None <==> forall|i: int| 0 <= i < old(self)@.len() ==> old(self)@[i].id != id,
            found is None ==> final(self)@ == old(self)@,
            final(self).next_id() == old(self).next_id(),
            found matches Some(e) ==> exists|i: int|
                first_with_id(old(self)@, id, i) && *e == #[trigger] old(self)@[i] && final(self)@
                    == old(self)@.update(i, *final(e)),
    {
        match self.entity_index(id) {
            Some(i) => {
                let e = &mut self.entities[i];
                Some(e)
            },
            None => None,
        }
    }

    /// The first entity with object ID `object_id`, if any.
    pub fn by_object_id(&self, object_id: ObjectId) -> (found: Option<&Entity<S>>)
        ensures
            found is None <==> forall|i: int|
                0 <= i < self@.len() ==> self@[i].object_id != object_id,
            found matches Some(e) ==> exists|i: int|
                first_with_object_id(self@, object_id, i) && *e == #[trigger] self@[i],
    {
        let mut i: usize = 0;
        while i < self.entities.len()
            invariant
                i <= self@.len(),
                forall|j: int| 0 <= j < i ==> self@[j].object_id != object_id,
            decreases self@.len() - i,
        {
            if self.entities[i].object_id == object_id {
                assert(first_with_object_id(self@, object_id, i as int));
                return Some(&self.entities[i]);
            }
            i = i + 1;
        }
        None
    }

    /// The entities in the order they were added.
    pub fn entities(&self) -> (entities: &Vec<Entity<S>>)
        ensures
            entities@ == self@,
    {
        &self.entities
    }

    pub fn len(&self) -> (n: usize)
        ensures
            n == self@.len(),
    {
        self.entities.len()
    }

    pub fn is_empty(&self) -> (empty: bool)
        ensures
            empty <==> self@.len() == 0,
    {
        self.entities.len() == 0
    }
}

impl<S> Default for Scene<S> {
    fn default() -> (scene: Scene<S>)
        ensures
            scene@ == Seq::<Entity<S>>::empty(),
            scene.next_id() == 1,
    {
        Scene::new()
    }
}

/// Read after write: once `entity` has been added to a well-formed scene, a
/// lookup by the returned ID finds exactly that entity, numbered with the ID,
/// at the end of the scene. (`add_entity` states that the scene stays
/// well-formed.)
pub proof fn lemma_lookup_after_add<S>(before: Scene<S>, after: Scene<S>, entity: Entity<S>, id: EntityId)
    requires
        before.well_formed(),
        id.value() == before.next_id(),
        after@ == before@.push(Entity { id, ..entity }),
    ensures
        first_with_id(after@, id, before@.len() as int),
        forall|i: int| first_with_id(after@, id, i) ==> after@[i] == (Entity { id, ..entity }),
{
    let n = before@.len() as int;
    assert forall|j: int| 0 <= j < n implies after@[j].id != id by {
        assert(after@[j] == before@[j]);
        assert(before@[j].id.value() < id.value());
    }
    assert forall|i: int| first_with_id(after@, id, i) implies after@[i] == (Entity { id, ..entity }) by {
        if i < n {
            assert(after@[i] == before@[i]);
            assert(before@[i].id.value() < id.value());
        }
    }
}

} // verus!
