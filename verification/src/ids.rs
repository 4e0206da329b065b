//! Stable handles: scene entity IDs and segmentation object IDs.
use vstd::prelude::*;

use crate::text::{append_decimal, decimal_text};

verus! {

/// Stable per-scene entity handle. `0` is the unassigned handle; a scene
/// hands out handles from `1` upwards.
#[derive(Debug, Clone, Copy, PartialEq, Eq, Structural, PartialOrd, Ord, Hash)]
pub struct EntityId(u64);

impl EntityId {
    /// The number behind the handle.
    pub closed spec fn value(self) -> u64 {
        self.0
    }

    pub fn new(value: u64) -> (id: EntityId)
        ensures
            id.value() == value,
    {
        EntityId(value)
    }

    /// The handle of an entity that no scene has numbered yet.
    pub fn unassigned() -> (id: EntityId)
        ensures
            id.value() == 0,
    {
        EntityId(0)
    }

    pub fn get(self) -> (value: u64)
        ensures
            value == self.value(),
    {
        self.0
    }

    /// The handle's number in base ten.
    pub fn to_string(&self) -> (text: String)
        ensures
            text@ == decimal_text(self.value() as nat),
    {
        let mut text = String::new();
        append_decimal(&mut text, self.0);
        text
    }

    /// Two handles are equal exactly when their numbers are.
    pub proof fn lemma_value_injective(a: EntityId, b: EntityId)
        ensures
            a == b <==> a.value() == b.value(),
    {
    }
}

impl Default for EntityId {
    fn default() -> (id: EntityId)
        ensures
            id.value() == 0,
    {
        EntityId(0)
    }
}

/// Segmentation ID of an object; `0` is the background.
#[derive(Debug, Clone, Copy, PartialEq, Eq, Structural, PartialOrd, Ord, Hash)]
pub struct ObjectId(u32);

impl ObjectId {
    /// The number behind the ID.
    pub closed spec fn value(self) -> u32 {
        self.0
    }

    pub fn new(value: u32) -> (id: ObjectId)
        ensures
            id.value() == value,
    {
        ObjectId(value)
    }

    /// The background ID, `0`.
    pub fn background() -> (id: ObjectId)
        ensures
            id.value() == 0,
    {
        ObjectId(0)
    }

    pub fn get(self) -> (value: u32)
        ensures
            value == self.value(),
    {
        self.0
    }

    /// Two IDs are equal exactly when their numbers are.
    pub proof fn lemma_value_injective(a: ObjectId, b: ObjectId)
        ensures
            a == b <==> a.value() == b.value(),
    {
    }
}

impl Default for ObjectId {
    fn default() -> (id: ObjectId)
        ensures
            id.value() == 0,
    {
        ObjectId(0)
    }
}

} // verus!
