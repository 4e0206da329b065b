//! Metadata written next to sensor frames: the files a frame produced and the
//! labels of the segmentation object IDs.
use vstd::prelude::*;

use crate::geometry::{material_kind_name, primitive_label, primitive_name};
use crate::scene::{Entity, Scene};

verus! {

/// One output file of a frame: its name, its format and its path.
#[derive(Debug, Clone, PartialEq, Eq)]
pub struct FrameOutputMetadata {
    pub name: String,
    pub format: String,
    pub path: String,
}

impl FrameOutputMetadata {
    pub fn new(name: &str, format: &str, path: &str) -> (m: FrameOutputMetadata)
        ensures
            m.name@ == name@,
            m.format@ == format@,
            m.path@ == path@,
    {
        FrameOutputMetadata {
            name: String::from_str(name),
            format: String::from_str(format),
            path: String::from_str(path),
        }
    }
}

/// Human-readable label of a segmentation object ID, with the primitive and
/// material kind of the object where they are known.
#[derive(Debug, PartialEq, Eq)]
pub struct ObjectIdMetadata {
    pub id: u32,
    pub label: String,
    pub primitive: Option<String>,
    pub material: Option<String>,
}

fn clone_text(text: &Option<String>) -> (copy: Option<String>)
    ensures
        copy == *text,
{
    match text {
        Some(t) => Some(t.clone()),
        None => None,
    }
}

impl Clone for ObjectIdMetadata {
    fn clone(&self) -> (m: ObjectIdMetadata)
        ensures
            m == *self,
    {
        ObjectIdMetadata {
            id: self.id,
            label: self.label.clone(),
            primitive: clone_text(&self.primitive),
            material: clone_text(&self.material),
        }
    }
}

impl ObjectIdMetadata {
    pub fn new(id: u32, label: &str) -> (m: ObjectIdMetadata)
        ensures
            m.id == id,
            m.label@ == label@,
            m.primitive is None,
            m.material is None,
    {
        ObjectIdMetadata { id, label: String::from_str(label), primitive: None, material: None }
    }

    pub fn with_primitive(self, primitive: &str) -> (m: ObjectIdMetadata)
        ensures
            m.id == self.id,
            m.label == self.label,
            m.primitive matches Some(p) && p@ == primitive@,
            m.material == self.material,
    {
        ObjectIdMetadata { primitive: Some(String::from_str(primitive)), ..self }
    }

    pub fn with_material(self, material: &str) -> (m: ObjectIdMetadata)
        ensures
            m.id == self.id,
            m.label == self.label,
            m.primitive == self.primitive,
            m.material matches Some(t) && t@ == material@,
    {
        ObjectIdMetadata { material: Some(String::from_str(material)), ..self }
    }
}

/// `m` labels ID `id` with `label` and carries no primitive or material.
pub open spec fn plain_label(m: ObjectIdMetadata, id: u32, label: Seq<char>) -> bool {
    &&& m.id == id
    &&& m.label@ == label
    &&& m.primitive is None
    &&& m.material is None
}

/// The labels of the built-in scene's object IDs.
pub fn builtin_scene_object_ids() -> (ids: Vec<ObjectIdMetadata>)
    ensures
        ids@.len() == 5,
        plain_label(ids@[0], 0, "background"@),
        plain_label(ids@[1], 1, "ground"@),
        plain_label(ids@[2], 2, "red sphere"@),
        plain_label(ids@[3], 3, "green sphere"@),
        plain_label(ids@[4], 4, "blue sphere"@),
{
    let mut ids = Vec::new();
    ids.push(ObjectIdMetadata::new(0, "background"));
    ids.push(ObjectIdMetadata::new(1, "ground"));
    ids.push(ObjectIdMetadata::new(2, "red sphere"));
    ids.push(ObjectIdMetadata::new(3, "green sphere"));
    ids.push(ObjectIdMetadata::new(4, "blue sphere"));
    ids
}

/// `m` labels `entity`'s object ID with the entity's name, primitive kind and
/// material kind.
pub open spec fn describes<S>(m: ObjectIdMetadata, entity: Entity<S>) -> bool {
    &&& m.id == entity.object_id.value()
    &&& m.label@ == entity.name@
    &&& m.primitive matches Some(p) && p@ == primitive_name(entity.shape)
    &&& m.material matches Some(t) && t@ == material_kind_name(entity.material.kind)
}

/// `i` is the first entity whose object ID is `id`.
pub open spec fn first_with_object_value<S>(entities: Seq<Entity<S>>, id: u32, i: int) -> bool {
    &&& 0 <= i < entities.len()
    &&& entities[i].object_id.value() == id
    &&& forall|j: int| 0 <= j < i ==> entities[j].object_id.value() != id
}

/// `m` describes the first entity carrying its ID, and that entity lies
/// before position `upto`.
pub open spec fn describes_first<S>(m: ObjectIdMetadata, entities: Seq<Entity<S>>, upto: int) -> bool {
    exists|e: int|
        0 <= e < upto && first_with_object_value(entities, m.id, e) && describes(m, entities[e])
}

/// Some entry of `table` has ID `id`.
pub open spec fn lists(table: Seq<ObjectIdMetadata>, id: u32) -> bool {
    exists|k: int| 0 <= k < table.len() && table[k].id == id
}

/// Metadata lists of this shape: strictly increasing IDs, each non-zero and
/// describing the first entity that carries it; every non-zero object ID
/// among the first `upto` entities is listed.
pub open spec fn object_table<S>(table: Seq<ObjectIdMetadata>, entities: Seq<Entity<S>>, upto: int) -> bool {
    &&& forall|a: int, b: int| 0 <= a < b < table.len() ==> table[a].id < table[b].id
    &&& forall|k: int| 0 <= k < table.len() ==> #[trigger] describes_first(table[k], entities, upto)
    &&& forall|k: int| 0 <= k < table.len() ==> #[trigger] table[k].id != 0
    &&& forall|i: int|
        0 <= i < upto && entities[i].object_id.value() != 0 ==> #[trigger] lists(
            table,
            entities[i].object_id.value(),
        )
}

fn describe_entity<S>(entity: &Entity<S>) -> (m: ObjectIdMetadata)
    ensures
        describes(m, *entity),
{
    ObjectIdMetadata {
        id: entity.object_id.get(),
        label: entity.name.clone(),
        primitive: Some(String::from_str(primitive_label(&entity.shape))),
        material: Some(String::from_str(entity.material.kind.as_str())),
    }
}

proof fn lemma_describes_first_grows<S>(m: ObjectIdMetadata, entities: Seq<Entity<S>>, upto: int)
    requires
        describes_first(m, entities, upto),
    ensures
        describes_first(m, entities, upto + 1),
{
    let e = choose|e: int|
        0 <= e < upto && first_with_object_value(entities, m.id, e) && describes(m, entities[e]);
    assert(0 <= e < upto + 1 && first_with_object_value(entities, m.id, e) && describes(
        m,
        entities[e],
    ));
}

/// An entity whose object ID is already listed, or is the background, leaves
/// the table valid one entity further on.
proof fn lemma_table_skip<S>(table: Seq<ObjectIdMetadata>, entities: Seq<Entity<S>>, i: int)
    requires
        0 <= i < entities.len(),
        object_table(table, entities, i),
        entities[i].object_id.value() == 0 || lists(table, entities[i].object_id.value()),
    ensures
        object_table(table, entities, i + 1),
{
    assert forall|k: int| 0 <= k < table.len() implies #[trigger] describes_first(
        table[k],
        entities,
        i + 1,
    ) by {
        assert(describes_first(table[k], entities, i));
        lemma_describes_first_grows(table[k], entities, i);
    }
    assert forall|j: int|
        0 <= j < i + 1 && entities[j].object_id.value() != 0 implies #[trigger] lists(
        table,
        entities[j].object_id.value(),
    ) by {
        if j < i {
        }
    }
}

/// An object ID absent from a valid table first appears at entity `i`.
proof fn lemma_first_appearance<S>(table: Seq<ObjectIdMetadata>, entities: Seq<Entity<S>>, i: int)
    requires
        0 <= i < entities.len(),
        object_table(table, entities, i),
        entities[i].object_id.value() != 0,
        !lists(table, entities[i].object_id.value()),
    ensures
        first_with_object_value(entities, entities[i].object_id.value(), i),
{
    let id = entities[i].object_id.value();
    assert forall|j: int| 0 <= j < i implies entities[j].object_id.value() != id by {
        if entities[j].object_id.value() == id {
            assert(lists(table, entities[j].object_id.value()));
        }
    }
}

/// Inserting the description of a newly seen object ID at its sorted
/// position keeps the table valid one entity further on.
proof fn lemma_table_insert<S>(
    table: Seq<ObjectIdMetadata>,
    entities: Seq<Entity<S>>,
    i: int,
    k: int,
    m: ObjectIdMetadata,
)
    requires
        0 <= i < entities.len(),
        object_table(table, entities, i),
        describes(m, entities[i]),
        m.id != 0,
        first_with_object_value(entities, m.id, i),
        0 <= k <= table.len(),
        forall|j: int| 0 <= j < k ==> table[j].id < m.id,
        k < table.len() ==> table[k].id > m.id,
    ensures
        object_table(table.insert(k, m), entities, i + 1),
{
    let t = table.insert(k, m);
    assert forall|a: int, b: int| 0 <= a < b < t.len() implies t[a].id < t[b].id by {
        if b < k {
            assert(t[a] == table[a]);
            assert(t[b] == table[b]);
        } else if b == k {
            assert(t[a] == table[a]);
        } else if a < k {
            assert(t[a] == table[a]);
            assert(t[b] == table[b - 1]);
            assert(table[k].id <= table[b - 1].id);
        } else if a == k {
            assert(t[b] == table[b - 1]);
            assert(table[k].id <= table[b - 1].id);
        } else {
            assert(t[a] == table[a - 1]);
            assert(t[b] == table[b - 1]);
        }
    }
    assert forall|q: int| 0 <= q < t.len() implies #[trigger] describes_first(t[q], entities, i + 1)
        && t[q].id != 0 by {
        if q < k {
            assert(t[q] == table[q]);
            assert(describes_first(table[q], entities, i));
            lemma_describes_first_grows(table[q], entities, i);
        } else if q == k {
            assert(t[q] == m);
            assert(0 <= i < i + 1 && first_with_object_value(entities, m.id, i) && describes(
                m,
                entities[i],
            ));
        } else {
            assert(t[q] == table[q - 1]);
            assert(describes_first(table[q - 1], entities, i));
            lemma_describes_first_grows(table[q - 1], entities, i);
        }
    }
    assert forall|j: int|
        0 <= j < i + 1 && entities[j].object_id.value() != 0 implies #[trigger] lists(
        t,
        entities[j].object_id.value(),
    ) by {
        if j < i {
            assert(lists(table, entities[j].object_id.value()));
            let q0 = choose|q: int|
                0 <= q < table.len() && table[q].id == entities[j].object_id.value();
            if q0 < k {
                assert(t[q0] == table[q0]);
            } else {
                assert(t[q0 + 1] == table[q0]);
            }
        } else {
            assert(t[k] == m);
        }
    }
}

/// Labels of the scene's segmentation object IDs: the background `0` first,
/// then each non-zero object ID of the scene once, in increasing order,
/// described by the first entity that carries it.
pub fn scene_object_ids<S>(scene: &Scene<S>) -> (ids: Vec<ObjectIdMetadata>)
    ensures
        ids@.len() >= 1,
        plain_label(ids@[0], 0, "background"@),
        object_table(ids@.drop_first(), scene@, scene@.len() as int),
{
    let entities = scene.entities();
    let mut table: Vec<ObjectIdMetadata> = Vec::new();
    let mut i: usize = 0;
    while i < entities.len()
        invariant
            entities@ == scene@,
            i <= entities@.len(),
            object_table(table@, entities@, i as int),
        decreases entities@.len() - i,
    {
        let entity = &entities[i];
        let id = entity.object_id.get();
        if id == 0 {
            proof {
                lemma_table_skip(table@, entities@, i as int);
            }
        } else {
            let mut k: usize = 0;
            while k < table.len() && table[k].id < id
                invariant
                    k <= table@.len(),
                    forall|j: int| 0 <= j < k ==> table@[j].id < id,
                decreases table@.len() - k,
            {
                k = k + 1;
            }
            if k < table.len() && table[k].id == id {
                proof {
                    lemma_table_skip(table@, entities@, i as int);
                }
            } else {
                proof {
                    assert forall|q: int| 0 <= q < table@.len() implies table@[q].id != id by {
                        if q >= k {
                            assert(table@[k as int].id <= table@[q].id);
                        }
                    }
                    lemma_first_appearance(table@, entities@, i as int);
                }
                let m = describe_entity(entity);
                proof {
                    lemma_table_insert(table@, entities@, i as int, k as int, m);
                }
                table.insert(k, m);
            }
        }
        i = i + 1;
    }
    let mut ids = Vec::new();
    ids.push(ObjectIdMetadata::new(0, "background"));
    let ghost listed = table@;
    ids.append(&mut table);
    assert(ids@.drop_first() =~= listed);
    ids
}

} // verus!
