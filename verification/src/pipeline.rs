use vstd::prelude::*;
use crate::accumulation::AccumulationBufferSet;
use crate::accumulation::read_index;
use crate::accumulation::write_index;
use crate::camera::Camera;
use crate::camera::CameraUniform;
use crate::sample::SAMPLE_LOG_INTERVAL;
use crate::sample::SampleCounter;
use crate::seeds::random_seed_words;
use crate::vec3::Vec3Bits;

verus! {

/// The host-side state the per-frame protocol threads through: the live
/// camera pose the input handler mutates, the pose the prior frame was
/// rendered with, the accumulation-buffer roles, the sample count, and the
/// output size in pixels. The GPU resources themselves live with the caller;
/// every decision about them is made here and handed out as a plan.
pub struct Pipeline {
    pub width: u32,
    pub height: u32,
    pub camera: Camera,
    pub prev_pose: Camera,
    pub buffers: AccumulationBufferSet,
    pub samples: SampleCounter,
}

/// What the two GPU passes of one frame must bind and dispatch: the compute
/// kernel writes the image at `write_target` while reading the one at
/// `read_source`, over a grid of one invocation per output pixel; the display
/// pass then samples the freshly written image at `display_source`.
#[derive(Clone, Copy, Debug, PartialEq, Eq, Structural)]
pub struct DispatchPlan {
    pub write_target: usize,
    pub read_source: usize,
    pub display_source: usize,
    pub workgroups_x: u32,
    pub workgroups_y: u32,
    pub workgroups_z: u32,
}

/// Everything one frame of the fixed five-step protocol asks of the caller:
/// whether to regenerate the seed image, the sample count to push to its GPU
/// mirror, whether a progress report is due, the uniform record to upload,
/// and the dispatch plan for the two passes.
#[derive(Clone, Copy, Debug, PartialEq, Eq, Structural)]
pub struct FramePlan {
    pub reseed: bool,
    pub sample_count: u32,
    pub report: bool,
    pub uniform: CameraUniform,
    pub dispatch: DispatchPlan,
}

/// The sample count after one frame: back to zero when the pose changed,
/// one more when it did not.
pub open spec fn next_count(count: nat, changed: bool) -> nat {
    if changed { 0 } else { count + 1 }
}

/// The sample count after a run of frames, given whether the pose changed at
/// each one.
pub open spec fn run_count(count: nat, changes: Seq<bool>) -> nat
    decreases changes.len(),
{
    if changes.len() == 0 {
        count
    } else {
        run_count(next_count(count, changes[0]), changes.drop_first())
    }
}

/// How many of those frames regenerated the seed image: exactly the frames
/// whose pose changed.
pub open spec fn run_reseeds(changes: Seq<bool>) -> nat
    decreases changes.len(),
{
    if changes.len() == 0 {
        0
    } else {
        (if changes[0] { 1nat } else { 0nat }) + run_reseeds(changes.drop_first())
    }
}

impl Pipeline {
    /// The state at startup: default pose, first image as write target, no
    /// samples accumulated, for an output of `width` by `height` pixels.
    pub fn new(width: u32, height: u32) -> (p: Pipeline)
        ensures
            p.width == width,
            p.height == height,
            p.camera == Camera::spec_default(),
            p.prev_pose == Camera::spec_default(),
            p.buffers.buffer_switch,
            p.samples.count == 0,
    {
        Pipeline {
            width,
            height,
            camera: Camera::default(),
            prev_pose: Camera::default(),
            buffers: AccumulationBufferSet::new(),
            samples: SampleCounter::new(),
        }
    }

    /// The live camera pose, for the input handler to mutate before the next
    /// frame; nothing else of the state changes through it. The next frame
    /// compares the mutated pose against the prior frame's.
    pub fn camera(&mut self) -> (c: &mut Camera)
        ensures
            *c == old(self).camera,
            final(self).camera == *final(c),
            final(self).width == old(self).width,
            final(self).height == old(self).height,
            final(self).prev_pose == old(self).prev_pose,
            final(self).buffers == old(self).buffers,
            final(self).samples == old(self).samples,
    {
        &mut self.camera
    }

    /// The uniform record to upload for the current pose, next to the basis
    /// the caller derived from it; the upload overwrites the whole record.
    pub fn update_camera(&self, right: Vec3Bits, up: Vec3Bits) -> (u: CameraUniform)
        ensures
            u == CameraUniform::spec_new(self.camera, right, up),
    {
        self.camera.into_uniform(right, up)
    }

    /// Fresh contents for the per-pixel seed image: one random word per
    /// output pixel.
    pub fn put_random_texture(&self) -> (s: Vec<u32>)
        requires
            self.width * self.height <= u32::MAX,
        ensures
            s@.len() == self.width * self.height,
    {
        let n: u32 = self.width * self.height;
        random_seed_words(n as usize)
    }

    /// Swaps the accumulation-buffer roles; the fifth step of the frame
    /// protocol, called once per completed frame.
    pub fn switch_buffer(&mut self)
        ensures
            final(self).buffers.buffer_switch == !old(self).buffers.buffer_switch,
            final(self).width == old(self).width,
            final(self).height == old(self).height,
            final(self).camera == old(self).camera,
            final(self).prev_pose == old(self).prev_pose,
            final(self).samples == old(self).samples,
    {
        self.buffers.advance();
    }

    /// Sets the sample count back to zero; returns the value — always zero —
    /// to push to the GPU mirror.
    pub fn reset_sample_count(&mut self) -> (pushed: u32)
        ensures
            final(self).samples.count == 0,
            pushed == 0,
            final(self).width == old(self).width,
            final(self).height == old(self).height,
            final(self).camera == old(self).camera,
            final(self).prev_pose == old(self).prev_pose,
            final(self).buffers == old(self).buffers,
    {
        self.samples.reset()
    }

    /// Counts one more accumulated sample; returns the new count to push to
    /// the GPU mirror and whether a progress report is due.
    pub fn increment_sample_count(&mut self) -> (r: (u32, bool))
        requires
            old(self).samples.count < u32::MAX,
        ensures
            final(self).samples.count == old(self).samples.count + 1,
            r.0 == final(self).samples.count,
            r.1 == (final(self).samples.count % SAMPLE_LOG_INTERVAL == 0),
            final(self).width == old(self).width,
            final(self).height == old(self).height,
            final(self).camera == old(self).camera,
            final(self).prev_pose == old(self).prev_pose,
            final(self).buffers == old(self).buffers,
    {
        self.samples.increment()
    }

    /// The dispatch plan for the two passes of this frame, before the roles
    /// swap: the compute kernel writes one image and reads the other, over a
    /// grid of one invocation per output pixel, and the display pass samples
    /// the image the kernel just wrote.
    pub fn render(&self) -> (d: DispatchPlan)
        ensures
            d.write_target == write_index(self.buffers.buffer_switch),
            d.read_source == read_index(self.buffers.buffer_switch),
            d.read_source != d.write_target,
            d.display_source == d.write_target,
            d.workgroups_x == self.width,
            d.workgroups_y == self.height,
            d.workgroups_z == 1,
    {
        let write_target = self.buffers.current_write();
        let read_source = self.buffers.current_read();
        DispatchPlan {
            write_target,
            read_source,
            display_source: write_target,
            workgroups_x: self.width,
            workgroups_y: self.height,
            workgroups_z: 1,
        }
    }

    /// One whole frame of the fixed five-step protocol, in order and none
    /// skippable. The live pose was mutated by the input handler before this
    /// call; `right` and `up` are the basis the caller derived from its
    /// forward direction.
    ///
    /// The pose check compares the live pose word for word against the pose
    /// of the prior frame: on a change the sample count resets and the seed
    /// image is to be regenerated, otherwise the count climbs by one. The
    /// uniform snapshots the live pose. The dispatch plan binds the roles as
    /// they stood when the frame began, and the roles swap as the last step.
    pub fn frame(&mut self, right: Vec3Bits, up: Vec3Bits) -> (plan: FramePlan)
        requires
            old(self).samples.count < u32::MAX,
        ensures
            plan.reseed == (old(self).camera != old(self).prev_pose),
            final(self).samples.count == next_count(
                old(self).samples.count as nat,
                old(self).camera != old(self).prev_pose,
            ),
            plan.sample_count == final(self).samples.count,
            plan.report == (old(self).camera == old(self).prev_pose && final(self).samples.count
                % SAMPLE_LOG_INTERVAL == 0),
            plan.uniform == CameraUniform::spec_new(old(self).camera, right, up),
            plan.dispatch.write_target == write_index(old(self).buffers.buffer_switch),
            plan.dispatch.read_source == read_index(old(self).buffers.buffer_switch),
            plan.dispatch.read_source != plan.dispatch.write_target,
            plan.dispatch.display_source == plan.dispatch.write_target,
            plan.dispatch.workgroups_x == old(self).width,
            plan.dispatch.workgroups_y == old(self).height,
            plan.dispatch.workgroups_z == 1,
            final(self).camera == old(self).camera,
            final(self).prev_pose == old(self).camera,
            final(self).buffers.buffer_switch == !old(self).buffers.buffer_switch,
            final(self).width == old(self).width,
            final(self).height == old(self).height,
    {
        let changed = !(self.camera == self.prev_pose);
        let sample_count: u32;
        let report: bool;
        if changed {
            sample_count = self.samples.reset();
            report = false;
        } else {
            let (pushed, due) = self.samples.increment();
            sample_count = pushed;
            report = due;
        }
        let uniform = self.camera.into_uniform(right, up);
        let dispatch = self.render();
        self.prev_pose = self.camera;
        self.buffers.advance();
        FramePlan { reseed: changed, sample_count, report, uniform, dispatch }
    }
}

/// A pose that never changes: over any run of such frames the sample count
/// climbs by exactly one per frame — from a reset counter it reaches the
/// number of frames — and the seed image is never regenerated.
pub proof fn lemma_static_pose_run(count: nat, changes: Seq<bool>)
    requires
        forall|i: int| 0 <= i < changes.len() ==> !changes[i],
    ensures
        run_count(count, changes) == count + changes.len(),
        run_reseeds(changes) == 0,
    decreases changes.len(),
{
    if changes.len() > 0 {
        assert forall|i: int| 0 <= i < changes.drop_first().len() implies !changes.drop_first()[i]
        by {
            assert(changes.drop_first()[i] == changes[i + 1]);
        }
        lemma_static_pose_run(count + 1, changes.drop_first());
    }
}

/// A pose that changes at exactly one frame: the count resets there, climbs
/// again afterwards — ending at the number of frames that follow the change —
/// and the seed image is regenerated exactly once.
pub proof fn lemma_single_change_run(count: nat, changes: Seq<bool>, k: int)
    requires
        0 <= k < changes.len(),
        changes[k],
        forall|i: int| 0 <= i < changes.len() && i != k ==> !changes[i],
    ensures
        run_count(count, changes) == changes.len() - 1 - k,
        run_reseeds(changes) == 1,
    decreases changes.len(),
{
    if k == 0 {
        assert forall|i: int| 0 <= i < changes.drop_first().len() implies !changes.drop_first()[i]
        by {
            assert(changes.drop_first()[i] == changes[i + 1]);
        }
        lemma_static_pose_run(0, changes.drop_first());
    } else {
        assert(!changes[0]);
        assert forall|i: int|
            0 <= i < changes.drop_first().len() && i != k - 1 implies !changes.drop_first()[i] by {
            assert(changes.drop_first()[i] == changes[i + 1]);
        }
        assert(changes.drop_first()[k - 1]);
        lemma_single_change_run(count + 1, changes.drop_first(), k - 1);
    }
}

} // verus!
