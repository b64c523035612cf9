use vstd::prelude::*;
use crate::material::MaterialStorage;
use crate::vec3::Vec3Bits;

verus! {

/// Tag word for a sphere record.
pub const KIND_SPHERE: u32 = 0;

/// Tag word for a quad record.
pub const KIND_QUAD: u32 = 1;

/// A shape as authored: a sphere given by center and radius, or a
/// parallelogram given by one corner and its two arm vectors.
#[derive(Clone, Copy, Debug, PartialEq, Eq, Structural)]
pub enum Shape {
    Sphere { center: Vec3Bits, radius: u32 },
    Quad { corner: Vec3Bits, u: Vec3Bits, v: Vec3Bits },
}

/// The fixed-layout geometry record the compute kernel reads: twenty 32-bit
/// words whatever the shape kind, so one stride serves the whole array.
/// Sphere and quad fields occupy the same positions; the fields a kind does
/// not use are zero-filled.
#[derive(Clone, Copy, Debug, PartialEq, Eq, Structural)]
pub struct GeometryStorage {
    pub center: Vec3Bits,
    pub radius: u32,
    pub u: Vec3Bits,
    pub padding: u32,
    pub v: Vec3Bits,
    pub kind: u32,
    pub material: MaterialStorage,
}

impl GeometryStorage {
    /// The record that encoding `shape` with `material` produces.
    pub open spec fn spec_encode(shape: Shape, material: MaterialStorage) -> GeometryStorage {
        match shape {
            Shape::Sphere { center, radius } => GeometryStorage {
                center,
                radius,
                u: Vec3Bits::spec_zero(),
                padding: 0,
                v: Vec3Bits::spec_zero(),
                kind: KIND_SPHERE,
                material,
            },
            Shape::Quad { corner, u, v } => GeometryStorage {
                center: corner,
                radius: 0,
                u,
                padding: 0,
                v,
                kind: KIND_QUAD,
                material,
            },
        }
    }

    /// The authored shape and material a record decodes to, if it is a
    /// well-formed encoding: the tag must be known, the fields the tagged
    /// kind does not use must be zero-filled, and the padding must be zero.
    pub open spec fn spec_decode(self) -> Option<(Shape, MaterialStorage)> {
        if self.padding != 0 {
            None
        } else if self.kind == KIND_SPHERE && self.u == Vec3Bits::spec_zero() && self.v
            == Vec3Bits::spec_zero() {
            Some((Shape::Sphere { center: self.center, radius: self.radius }, self.material))
        } else if self.kind == KIND_QUAD && self.radius == 0 {
            Some((Shape::Quad { corner: self.center, u: self.u, v: self.v }, self.material))
        } else {
            None
        }
    }

    /// The record as the flat word sequence the GPU buffer holds: the twelve
    /// geometry words followed by the eight material words.
    pub open spec fn spec_words(self) -> Seq<u32> {
        seq![
            self.center.x,
            self.center.y,
            self.center.z,
            self.radius,
            self.u.x,
            self.u.y,
            self.u.z,
            self.padding,
            self.v.x,
            self.v.y,
            self.v.z,
            self.kind,
        ] + self.material.spec_words()
    }

    fn new(
        center: Vec3Bits,
        radius: u32,
        u: Vec3Bits,
        v: Vec3Bits,
        kind: u32,
        material: MaterialStorage,
    ) -> (g: GeometryStorage)
        ensures
            g == (GeometryStorage { center, radius, u, padding: 0, v, kind, material }),
    {
        GeometryStorage { center, radius, u, padding: 0, v, kind, material }
    }

    /// Encodes a sphere; the quad fields are zero-filled.
    pub fn new_sphere(center: Vec3Bits, radius: u32, material: MaterialStorage) -> (g:
        GeometryStorage)
        ensures
            g == GeometryStorage::spec_encode(Shape::Sphere { center, radius }, material),
    {
        GeometryStorage::new(center, radius, Vec3Bits::zero(), Vec3Bits::zero(), KIND_SPHERE, material)
    }

    /// Encodes a parallelogram. `corner` is the position of one corner; `u`
    /// and `v` are the arm vectors. The sphere radius field is zero-filled.
    pub fn new_quad(corner: Vec3Bits, u: Vec3Bits, v: Vec3Bits, material: MaterialStorage) -> (g:
        GeometryStorage)
        ensures
            g == GeometryStorage::spec_encode(Shape::Quad { corner, u, v }, material),
    {
        GeometryStorage::new(corner, 0, u, v, KIND_QUAD, material)
    }

    /// Encodes an authored shape and material into a record.
    pub fn encode(shape: Shape, material: MaterialStorage) -> (g: GeometryStorage)
        ensures
            g == GeometryStorage::spec_encode(shape, material),
    {
        match shape {
            Shape::Sphere { center, radius } => GeometryStorage::new_sphere(
                center,
                radius,
                material,
            ),
            Shape::Quad { corner, u, v } => GeometryStorage::new_quad(corner, u, v, material),
        }
    }

    /// Recovers the authored shape and material from a record, if it is a
    /// well-formed encoding.
    pub fn decode(&self) -> (r: Option<(Shape, MaterialStorage)>)
        ensures
            r == self.spec_decode(),
    {
        if self.padding != 0 {
            None
        } else if self.kind == KIND_SPHERE && self.u.x == 0 && self.u.y == 0 && self.u.z == 0
            && self.v.x == 0 && self.v.y == 0 && self.v.z == 0 {
            Some((Shape::Sphere { center: self.center, radius: self.radius }, self.material))
        } else if self.kind == KIND_QUAD && self.radius == 0 {
            Some((Shape::Quad { corner: self.center, u: self.u, v: self.v }, self.material))
        } else {
            None
        }
    }

    /// Writes the record out as the flat word sequence the GPU buffer holds.
    pub fn to_words(&self) -> (w: Vec<u32>)
        ensures
            w@ == self.spec_words(),
    {
        let mut w: Vec<u32> = Vec::new();
        w.push(self.center.x);
        w.push(self.center.y);
        w.push(self.center.z);
        w.push(self.radius);
        w.push(self.u.x);
        w.push(self.u.y);
        w.push(self.u.z);
        w.push(self.padding);
        w.push(self.v.x);
        w.push(self.v.y);
        w.push(self.v.z);
        w.push(self.kind);
        let mut m = self.material.to_words();
        w.append(&mut m);
        proof {
            assert(w@ =~= self.spec_words());
        }
        w
    }
}

/// Encoding any authored shape with any material and decoding the record
/// recovers both exactly; in particular a sphere comes back from a record
/// tagged as a sphere and a quad from one tagged as a quad.
pub proof fn lemma_geometry_round_trip(shape: Shape, material: MaterialStorage)
    ensures
        GeometryStorage::spec_encode(shape, material).spec_decode() == Some((shape, material)),
{
}

} // verus!
