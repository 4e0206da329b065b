//! Scene geometry and materials, generic over the scalar type of their
//! coordinates. The library only carries and classifies these values; the
//! arithmetic on coordinates belongs to the caller's scalar type.
use vstd::prelude::*;

verus! {

/// A 3-D vector used for positions, directions, scales and colours.
#[derive(Debug, Clone, Copy, PartialEq)]
pub struct Vec3<S> {
    pub x: S,
    pub y: S,
    pub z: S,
}

impl<S> Vec3<S> {
    pub fn new(x: S, y: S, z: S) -> (v: Vec3<S>)
        ensures
            v == (Vec3 { x, y, z }),
    {
        Vec3 { x, y, z }
    }
}

impl<S: Copy> Vec3<S> {
    /// The vector with all three components equal to `value`.
    pub fn splat(value: S) -> (v: Vec3<S>)
        ensures
            v == (Vec3 { x: value, y: value, z: value }),
    {
        Vec3 { x: value, y: value, z: value }
    }
}

/// Euler rotation in radians: roll about X, then pitch about Y, then yaw
/// about Z.
#[derive(Debug, Clone, Copy, PartialEq)]
pub struct EulerRotation<S> {
    pub roll: S,
    pub pitch: S,
    pub yaw: S,
}

impl<S> EulerRotation<S> {
    pub fn new(roll: S, pitch: S, yaw: S) -> (r: EulerRotation<S>)
        ensures
            r == (EulerRotation { roll, pitch, yaw }),
    {
        EulerRotation { roll, pitch, yaw }
    }
}

/// Position, rotation and scale of a scene entity or sensor.
#[derive(Debug, Clone, Copy, PartialEq)]
pub struct Transform<S> {
    pub translation: Vec3<S>,
    pub rotation: EulerRotation<S>,
    pub scale: Vec3<S>,
}

/// Primitive shapes for rendering and scene queries.
#[derive(Debug, Clone, Copy, PartialEq)]
pub enum PrimitiveShape<S> {
    Sphere { radius: S },
    Box { half_extents: Vec3<S> },
    Plane { normal: Vec3<S>, offset: S },
}

impl<S> PrimitiveShape<S> {
    pub fn sphere(radius: S) -> (shape: PrimitiveShape<S>)
        ensures
            shape == (PrimitiveShape::Sphere { radius }),
    {
        PrimitiveShape::Sphere { radius }
    }

    pub fn box_with_half_extents(half_extents: Vec3<S>) -> (shape: PrimitiveShape<S>)
        ensures
            shape == (PrimitiveShape::Box { half_extents }),
    {
        PrimitiveShape::Box { half_extents }
    }

    pub fn plane(normal: Vec3<S>, offset: S) -> (shape: PrimitiveShape<S>)
        ensures
            shape == (PrimitiveShape::Plane { normal, offset }),
    {
        PrimitiveShape::Plane { normal, offset }
    }
}

/// Lower-case name of a shape's kind.
pub open spec fn primitive_name<S>(shape: PrimitiveShape<S>) -> Seq<char> {
    match shape {
        PrimitiveShape::Sphere { .. } => "sphere"@,
        PrimitiveShape::Box { .. } => "box"@,
        PrimitiveShape::Plane { .. } => "plane"@,
    }
}

/// Lower-case name of a shape's kind (`sphere`, `box` or `plane`).
pub fn primitive_label<S>(shape: &PrimitiveShape<S>) -> (label: &'static str)
    ensures
        label@ == primitive_name(*shape),
{
    match shape {
        PrimitiveShape::Sphere { .. } => "sphere",
        PrimitiveShape::Box { .. } => "box",
        PrimitiveShape::Plane { .. } => "plane",
    }
}

/// Material classifier used by preview renderers.
#[derive(Debug, Clone, Copy, PartialEq, Eq, Structural)]
pub enum MaterialKind {
    Diffuse,
    Emissive,
    Matte,
    MetalPreview,
}

/// Snake-case name of a material kind.
pub open spec fn material_kind_name(kind: MaterialKind) -> Seq<char> {
    match kind {
        MaterialKind::Diffuse => "diffuse"@,
        MaterialKind::Emissive => "emissive"@,
        MaterialKind::Matte => "matte"@,
        MaterialKind::MetalPreview => "metal_preview"@,
    }
}

/// Number of a material kind on the GPU, in declaration order from `0`.
pub open spec fn material_kind_number(kind: MaterialKind) -> u32 {
    match kind {
        MaterialKind::Diffuse => 0,
        MaterialKind::Emissive => 1,
        MaterialKind::Matte => 2,
        MaterialKind::MetalPreview => 3,
    }
}

impl MaterialKind {
    pub fn as_str(self) -> (name: &'static str)
        ensures
            name@ == material_kind_name(self),
    {
        match self {
            MaterialKind::Diffuse => "diffuse",
            MaterialKind::Emissive => "emissive",
            MaterialKind::Matte => "matte",
            MaterialKind::MetalPreview => "metal_preview",
        }
    }

    pub fn gpu_id(self) -> (id: u32)
        ensures
            id == material_kind_number(self),
    {
        match self {
            MaterialKind::Diffuse => 0,
            MaterialKind::Emissive => 1,
            MaterialKind::Matte => 2,
            MaterialKind::MetalPreview => 3,
        }
    }
}

impl Default for MaterialKind {
    fn default() -> (kind: MaterialKind)
        ensures
            kind == MaterialKind::Matte,
    {
        MaterialKind::Matte
    }
}

/// A small physically-inspired material descriptor.
#[derive(Debug, Clone, Copy, PartialEq)]
pub struct Material<S> {
    pub base_color: Vec3<S>,
    pub emission: Vec3<S>,
    pub roughness: S,
    pub metallic: S,
    pub kind: MaterialKind,
}

impl<S> Material<S> {
    /// The same material with another kind.
    pub fn with_kind(self, kind: MaterialKind) -> (m: Material<S>)
        ensures
            m == (Material { kind, ..self }),
    {
        Material { kind, ..self }
    }

    /// The same material with another emission.
    pub fn with_emission(self, emission: Vec3<S>) -> (m: Material<S>)
        ensures
            m == (Material { emission, ..self }),
    {
        Material { emission, ..self }
    }
}

} // verus!
