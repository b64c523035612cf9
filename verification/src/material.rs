use vstd::prelude::*;
use crate::vec3::Vec3Bits;

verus! {

/// Tag word for a diffuse material.
pub const KIND_LAMBERTIAN: u32 = 0;

/// Tag word for a reflective material.
pub const KIND_METALLIC: u32 = 1;

/// Tag word for a refractive material.
pub const KIND_DIELECTRIC: u32 = 2;

/// Tag word for an emissive material.
pub const KIND_LIGHT: u32 = 3;

/// A material as authored: the kind decides how the one scalar parameter is
/// read. Scalar payloads are single-precision bit patterns, like everything
/// the encoder touches.
#[derive(Clone, Copy, Debug, PartialEq, Eq, Structural)]
pub enum MaterialKind {
    Lambertian,
    Metallic { fuzz: u32 },
    Dielectric { refractive_index: u32 },
    Light,
}

/// The tag word a material kind is encoded with.
pub open spec fn kind_tag(kind: MaterialKind) -> u32 {
    match kind {
        MaterialKind::Lambertian => KIND_LAMBERTIAN,
        MaterialKind::Metallic { .. } => KIND_METALLIC,
        MaterialKind::Dielectric { .. } => KIND_DIELECTRIC,
        MaterialKind::Light => KIND_LIGHT,
    }
}

/// The scalar parameter a material kind is encoded with: the fuzz word for
/// metallic, the refractive-index word for dielectric, zero otherwise.
pub open spec fn kind_param(kind: MaterialKind) -> u32 {
    match kind {
        MaterialKind::Lambertian => 0,
        MaterialKind::Metallic { fuzz } => fuzz,
        MaterialKind::Dielectric { refractive_index } => refractive_index,
        MaterialKind::Light => 0,
    }
}

/// The fixed-layout material record the compute kernel reads: eight 32-bit
/// words — color, tag, one scalar parameter, and three words of padding that
/// round the record up to a 16-byte-aligned group.
#[derive(Clone, Copy, Debug, PartialEq, Eq, Structural)]
pub struct MaterialStorage {
    pub color: Vec3Bits,
    pub kind: u32,
    pub fuzz_or_refractive_index: u32,
    pub padding: Vec3Bits,
}

impl MaterialStorage {
    /// The record that encoding `kind` with `color` produces.
    pub open spec fn spec_new(color: Vec3Bits, kind: MaterialKind) -> MaterialStorage {
        MaterialStorage {
            color,
            kind: kind_tag(kind),
            fuzz_or_refractive_index: kind_param(kind),
            padding: Vec3Bits::spec_zero(),
        }
    }

    /// The authored material a record decodes to, if it is a well-formed
    /// encoding: the tag must be known, the parameter must be zero for the
    /// kinds that ignore it, and the padding must be zero-filled.
    pub open spec fn spec_decode(self) -> Option<(Vec3Bits, MaterialKind)> {
        if self.padding != Vec3Bits::spec_zero() {
            None
        } else if self.kind == KIND_LAMBERTIAN && self.fuzz_or_refractive_index == 0 {
            Some((self.color, MaterialKind::Lambertian))
        } else if self.kind == KIND_METALLIC {
            Some((self.color, MaterialKind::Metallic { fuzz: self.fuzz_or_refractive_index }))
        } else if self.kind == KIND_DIELECTRIC {
            Some((
                self.color,
                MaterialKind::Dielectric { refractive_index: self.fuzz_or_refractive_index },
            ))
        } else if self.kind == KIND_LIGHT && self.fuzz_or_refractive_index == 0 {
            Some((self.color, MaterialKind::Light))
        } else {
            None
        }
    }

    /// The record as the flat word sequence the GPU buffer holds.
    pub open spec fn spec_words(self) -> Seq<u32> {
        seq![
            self.color.x,
            self.color.y,
            self.color.z,
            self.kind,
            self.fuzz_or_refractive_index,
            self.padding.x,
            self.padding.y,
            self.padding.z,
        ]
    }

    fn new_with_padding(color: Vec3Bits, kind: u32, fuzz_or_refractive_index: u32) -> (m:
        MaterialStorage)
        ensures
            m == (MaterialStorage {
                color,
                kind,
                fuzz_or_refractive_index,
                padding: Vec3Bits::spec_zero(),
            }),
    {
        MaterialStorage { color, kind, fuzz_or_refractive_index, padding: Vec3Bits::zero() }
    }

    /// Encodes an authored material into its fixed-layout record.
    pub fn new(color: Vec3Bits, kind: MaterialKind) -> (m: MaterialStorage)
        ensures
            m == MaterialStorage::spec_new(color, kind),
    {
        match kind {
            MaterialKind::Lambertian => MaterialStorage::new_with_padding(
                color,
                KIND_LAMBERTIAN,
                0,
            ),
            MaterialKind::Metallic { fuzz } => MaterialStorage::new_with_padding(
                color,
                KIND_METALLIC,
                fuzz,
            ),
            MaterialKind::Dielectric { refractive_index } => MaterialStorage::new_with_padding(
                color,
                KIND_DIELECTRIC,
                refractive_index,
            ),
            MaterialKind::Light => MaterialStorage::new_with_padding(color, KIND_LIGHT, 0),
        }
    }

    pub fn new_lambertian(color: Vec3Bits) -> (m: MaterialStorage)
        ensures
            m == MaterialStorage::spec_new(color, MaterialKind::Lambertian),
    {
        MaterialStorage::new(color, MaterialKind::Lambertian)
    }

    pub fn new_metallic(color: Vec3Bits, fuzz: u32) -> (m: MaterialStorage)
        ensures
            m == MaterialStorage::spec_new(color, MaterialKind::Metallic { fuzz }),
    {
        MaterialStorage::new(color, MaterialKind::Metallic { fuzz })
    }

    pub fn new_dielectric(color: Vec3Bits, refractive_index: u32) -> (m: MaterialStorage)
        ensures
            m == MaterialStorage::spec_new(color, MaterialKind::Dielectric { refractive_index }),
    {
        MaterialStorage::new(color, MaterialKind::Dielectric { refractive_index })
    }

    pub fn new_light(color: Vec3Bits) -> (m: MaterialStorage)
        ensures
            m == MaterialStorage::spec_new(color, MaterialKind::Light),
    {
        MaterialStorage::new(color, MaterialKind::Light)
    }

    /// Recovers the authored material from a record, if it is a well-formed
    /// encoding.
    pub fn decode(&self) -> (r: Option<(Vec3Bits, MaterialKind)>)
        ensures
            r == self.spec_decode(),
    {
        if self.padding.x != 0 || self.padding.y != 0 || self.padding.z != 0 {
            None
        } else if self.kind == KIND_LAMBERTIAN && self.fuzz_or_refractive_index == 0 {
            Some((self.color, MaterialKind::Lambertian))
        } else if self.kind == KIND_METALLIC {
            Some((self.color, MaterialKind::Metallic { fuzz: self.fuzz_or_refractive_index }))
        } else if self.kind == KIND_DIELECTRIC {
            Some((
                self.color,
                MaterialKind::Dielectric { refractive_index: self.fuzz_or_refractive_index },
            ))
        } else if self.kind == KIND_LIGHT && self.fuzz_or_refractive_index == 0 {
            Some((self.color, MaterialKind::Light))
        } else {
            None
        }
    }

    /// Writes the record out as the flat word sequence the GPU buffer holds.
    pub fn to_words(&self) -> (w: Vec<u32>)
        ensures
            w@ == self.spec_words(),
    {
        let mut w: Vec<u32> = Vec::new();
        w.push(self.color.x);
        w.push(self.color.y);
        w.push(self.color.z);
        w.push(self.kind);
        w.push(self.fuzz_or_refractive_index);
        w.push(self.padding.x);
        w.push(self.padding.y);
        w.push(self.padding.z);
        proof {
            assert(w@ =~= self.spec_words());
        }
        w
    }
}

/// Encoding an authored material and decoding the record recovers the color
/// and the kind exactly, for every color and every kind.
pub proof fn lemma_material_round_trip(color: Vec3Bits, kind: MaterialKind)
    ensures
        MaterialStorage::spec_new(color, kind).spec_decode() == Some((color, kind)),
{
}

} // verus!
