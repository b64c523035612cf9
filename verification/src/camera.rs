use vstd::prelude::*;
use crate::vec3::Vec3Bits;

verus! {

/// Bit pattern of the single-precision value one, the default forward
/// direction's first component.
pub const DEFAULT_FORWARDS_X: u32 = 0x3F80_0000;

/// Bit pattern of the single-precision value five, the default focus
/// distance.
pub const DEFAULT_FOCUS_DIST: u32 = 0x40A0_0000;

/// Bit pattern of the single-precision value nearest three tenths, the
/// default defocus angle.
pub const DEFAULT_DEFOCUS_ANGLE: u32 = 0x3E99_999A;

/// The viewer's pose as the library sees it: position, forward direction,
/// focus distance and defocus angle, each scalar a single-precision bit
/// pattern carried as an opaque word.
///
/// The renderer's own camera does the floating-point work — translation,
/// rotation, and the derivation of the right and up basis vectors — and hands
/// the resulting words in. Holding the pose as words makes the frame loop's
/// pose check exact: two poses count as equal only when every scalar is
/// bit-identical.
#[derive(Clone, Copy, Debug, PartialEq, Eq, Structural)]
pub struct Camera {
    pub position: Vec3Bits,
    pub forwards: Vec3Bits,
    pub focus_dist: u32,
    pub defocus_angle: u32,
}

/// The uniform record the compute kernel reads each frame: the pose snapshot
/// together with the derived right and up basis vectors, laid out in
/// 16-byte-aligned groups. Each 3-component vector is followed by one scalar
/// word — the focus distance, the defocus angle, or explicit zero padding —
/// so the record is sixteen words.
#[derive(Clone, Copy, Debug, PartialEq, Eq, Structural)]
pub struct CameraUniform {
    pub position: Vec3Bits,
    pub focus_dist: u32,
    pub forwards: Vec3Bits,
    pub defocus_angle: u32,
    pub right: Vec3Bits,
    pub right_padding: u32,
    pub up: Vec3Bits,
    pub up_padding: u32,
}

impl Camera {
    /// The startup pose: at the origin, looking along the first axis, with
    /// the default focus distance and defocus angle.
    pub open spec fn spec_default() -> Camera {
        Camera {
            position: Vec3Bits::spec_zero(),
            forwards: Vec3Bits { x: DEFAULT_FORWARDS_X, y: 0, z: 0 },
            focus_dist: DEFAULT_FOCUS_DIST,
            defocus_angle: DEFAULT_DEFOCUS_ANGLE,
        }
    }

    pub fn new(position: Vec3Bits, forwards: Vec3Bits, focus_dist: u32, defocus_angle: u32) -> (c:
        Camera)
        ensures
            c == (Camera { position, forwards, focus_dist, defocus_angle }),
    {
        Camera { position, forwards, focus_dist, defocus_angle }
    }

    /// Snapshots the pose into the uniform record, next to the right and up
    /// basis vectors the caller derived from the forward direction. The
    /// derivation itself is floating point and happens outside the library;
    /// this function pins where every word of it lands.
    pub fn into_uniform(&self, right: Vec3Bits, up: Vec3Bits) -> (u: CameraUniform)
        ensures
            u == CameraUniform::spec_new(*self, right, up),
    {
        CameraUniform::new(
            self.position,
            self.forwards,
            right,
            up,
            self.focus_dist,
            self.defocus_angle,
        )
    }
}

impl Default for Camera {
    /// The startup pose, as `spec_default` states it.
    fn default() -> (c: Camera)
        ensures
            c == Camera::spec_default(),
    {
        Camera {
            position: Vec3Bits { x: 0, y: 0, z: 0 },
            forwards: Vec3Bits { x: DEFAULT_FORWARDS_X, y: 0, z: 0 },
            focus_dist: DEFAULT_FOCUS_DIST,
            defocus_angle: DEFAULT_DEFOCUS_ANGLE,
        }
    }
}

impl CameraUniform {
    /// The record that a pose and a derived basis assemble into: every field
    /// is one of the inputs, and both padding words are zero.
    pub open spec fn spec_new(camera: Camera, right: Vec3Bits, up: Vec3Bits) -> CameraUniform {
        CameraUniform {
            position: camera.position,
            focus_dist: camera.focus_dist,
            forwards: camera.forwards,
            defocus_angle: camera.defocus_angle,
            right,
            right_padding: 0,
            up,
            up_padding: 0,
        }
    }

    pub fn new(
        position: Vec3Bits,
        forwards: Vec3Bits,
        right: Vec3Bits,
        up: Vec3Bits,
        focus_dist: u32,
        defocus_angle: u32,
    ) -> (u: CameraUniform)
        ensures
            u == CameraUniform::spec_new(
                Camera { position, forwards, focus_dist, defocus_angle },
                right,
                up,
            ),
    {
        CameraUniform {
            position,
            focus_dist,
            forwards,
            defocus_angle,
            right,
            right_padding: 0,
            up,
            up_padding: 0,
        }
    }

    /// The record as the flat word sequence the uniform buffer holds.
    pub open spec fn spec_words(self) -> Seq<u32> {
        seq![
            self.position.x,
            self.position.y,
            self.position.z,
            self.focus_dist,
            self.forwards.x,
            self.forwards.y,
            self.forwards.z,
            self.defocus_angle,
            self.right.x,
            self.right.y,
            self.right.z,
            self.right_padding,
            self.up.x,
            self.up.y,
            self.up.z,
            self.up_padding,
        ]
    }

    /// Writes the record out as the flat word sequence the uniform buffer
    /// holds.
    pub fn to_words(&self) -> (w: Vec<u32>)
        ensures
            w@ == self.spec_words(),
    {
        let mut w: Vec<u32> = Vec::new();
        w.push(self.position.x);
        w.push(self.position.y);
        w.push(self.position.z);
        w.push(self.focus_dist);
        w.push(self.forwards.x);
        w.push(self.forwards.y);
        w.push(self.forwards.z);
        w.push(self.defocus_angle);
        w.push(self.right.x);
        w.push(self.right.y);
        w.push(self.right.z);
        w.push(self.right_padding);
        w.push(self.up.x);
        w.push(self.up.y);
        w.push(self.up.z);
        w.push(self.up_padding);
        proof {
            assert(w@ =~= self.spec_words());
        }
        w
    }
}

/// The uniform derivation is a function of the pose and the derived basis
/// alone: equal inputs give one and the same record, so deriving twice with
/// an unchanged camera yields bit-identical output.
pub proof fn lemma_uniform_deterministic(
    c1: Camera,
    c2: Camera,
    right1: Vec3Bits,
    right2: Vec3Bits,
    up1: Vec3Bits,
    up2: Vec3Bits,
)
    requires
        c1 == c2,
        right1 == right2,
        up1 == up2,
    ensures
        CameraUniform::spec_new(c1, right1, up1) == CameraUniform::spec_new(c2, right2, up2),
{
}

} // verus!
